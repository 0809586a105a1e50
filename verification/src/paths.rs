//! Where the application keeps its files: the application's folder in the
//! user's documents, the worker's directory in it, and the files in both.
//!
//! The shell finds the user's documents and home directories; what lies
//! where beneath them is decided here.

use vstd::prelude::*;
use vstd::string::StringExecFns;

verus! {

/// The path that joining `name` onto `base` gives on the platform the
/// library is built for.
pub uninterp spec fn joined_path(base: Seq<char>, name: Seq<char>) -> Seq<char>;

/// `std::path::Path::join`, on paths given and returned as text. Trusted:
/// the text returned is the platform's join of `base` and `name`. Both are
/// valid text, so the joined path is too, and nothing is lost in turning it
/// back into a string.
#[verifier::external_body]
pub(crate) fn join_path(base: &str, name: &str) -> (r: String)
    ensures
        r@ == joined_path(base@, name@),
{
    std::path::Path::new(base).join(name).to_string_lossy().into_owned()
}

/// The name of the application's folder.
pub open spec fn app_folder() -> Seq<char> {
    "Nexus Discord Tool"@
}

/// The application's data directory: the application's folder in the user's
/// documents; without a documents directory, in the user's home; without
/// either, the current directory.
pub open spec fn app_data_dir_of(documents: Option<Seq<char>>, home: Option<Seq<char>>) -> Seq<
    char,
> {
    match documents {
        Some(d) => joined_path(d, app_folder()),
        None => match home {
            Some(h) => joined_path(h, app_folder()),
            None => "."@,
        },
    }
}

/// The authoritative configuration file of the application directory
/// `app_dir`.
pub open spec fn config_path_of(app_dir: Seq<char>) -> Seq<char> {
    joined_path(app_dir, "config.json"@)
}

/// The worker's directory in the application directory `app_dir`.
pub open spec fn bot_dir_of(app_dir: Seq<char>) -> Seq<char> {
    joined_path(app_dir, "bot"@)
}

/// The text of a directory that may be unknown.
pub open spec fn text_of(dir: Option<&str>) -> Option<Seq<char>> {
    match dir {
        Some(d) => Some(d@),
        None => None,
    }
}

/// The authoritative configuration file of the application directory
/// `app_dir`.
pub fn config_path_in(app_dir: &str) -> (r: String)
    ensures
        r@ == config_path_of(app_dir@),
{
    join_path(app_dir, "config.json")
}

/// The worker's directory in the application directory `app_dir`.
pub fn bot_dir_in(app_dir: &str) -> (r: String)
    ensures
        r@ == bot_dir_of(app_dir@),
{
    join_path(app_dir, "bot")
}

/// The application's data directory, given the user's documents and home
/// directories as far as the shell found them. The home directory counts
/// only where there is no documents directory.
pub fn get_app_data_dir(documents: Option<&str>, home: Option<&str>) -> (r: String)
    ensures
        r@ == app_data_dir_of(text_of(documents), text_of(home)),
{
    match documents {
        Some(d) => join_path(d, "Nexus Discord Tool"),
        None => match home {
            Some(h) => join_path(h, "Nexus Discord Tool"),
            None => String::from_str("."),
        },
    }
}

/// The directory that holds the worker's directory: the application's data
/// directory.
pub fn get_project_dir(documents: Option<&str>, home: Option<&str>) -> (r: String)
    ensures
        r@ == app_data_dir_of(text_of(documents), text_of(home)),
{
    get_app_data_dir(documents, home)
}

/// The authoritative configuration file, given the user's documents and
/// home directories as far as the shell found them.
pub fn get_config_path(documents: Option<&str>, home: Option<&str>) -> (r: String)
    ensures
        r@ == config_path_of(app_data_dir_of(text_of(documents), text_of(home))),
{
    let dir = get_app_data_dir(documents, home);
    config_path_in(dir.as_str())
}

/// The worker's directory, given the user's documents and home directories
/// as far as the shell found them.
pub fn get_bot_dir(documents: Option<&str>, home: Option<&str>) -> (r: String)
    ensures
        r@ == bot_dir_of(app_data_dir_of(text_of(documents), text_of(home))),
{
    let dir = get_project_dir(documents, home);
    bot_dir_in(dir.as_str())
}

/// The files and directories the application works with.
#[derive(Debug, Clone, PartialEq, Eq)]
pub struct Layout {
    /// The application's data directory.
    pub app_dir: String,
    /// The authoritative configuration.
    pub config_file: String,
    /// The worker's directory.
    pub bot_dir: String,
    /// The worker's entry point.
    pub entry_point: String,
    /// The worker's package description.
    pub package_file: String,
    /// The worker's dependency directory.
    pub modules_dir: String,
    /// The package whose presence shows that the dependencies are installed.
    pub modules_marker: String,
    /// The configuration as the worker reads it.
    pub worker_config: String,
    /// The worker's settings.
    pub settings_file: String,
    /// The worker's log.
    pub log_file: String,
    /// The worker's status configuration.
    pub status_config: String,
}

impl Layout {
    /// The layout is the one of the application directory `app_dir`.
    pub open spec fn laid_out_in(self, app_dir: Seq<char>) -> bool {
        &&& self.app_dir@ == app_dir
        &&& self.config_file@ == config_path_of(app_dir)
        &&& self.bot_dir@ == bot_dir_of(app_dir)
        &&& self.entry_point@ == joined_path(bot_dir_of(app_dir), "index.js"@)
        &&& self.package_file@ == joined_path(bot_dir_of(app_dir), "package.json"@)
        &&& self.modules_dir@ == joined_path(bot_dir_of(app_dir), "node_modules"@)
        &&& self.modules_marker@ == joined_path(
            joined_path(bot_dir_of(app_dir), "node_modules"@),
            "discord.js"@,
        )
        &&& self.worker_config@ == joined_path(bot_dir_of(app_dir), "config.json"@)
        &&& self.settings_file@ == joined_path(bot_dir_of(app_dir), "settings.json"@)
        &&& self.log_file@ == joined_path(bot_dir_of(app_dir), "bot.log"@)
        &&& self.status_config@ == joined_path(bot_dir_of(app_dir), "status-config.json"@)
    }
}

/// The layout of the application directory `app_dir`.
pub fn layout_in(app_dir: &str) -> (l: Layout)
    ensures
        l.laid_out_in(app_dir@),
{
    let bot_dir = bot_dir_in(app_dir);
    let modules_dir = join_path(bot_dir.as_str(), "node_modules");
    Layout {
        app_dir: String::from_str(app_dir),
        config_file: config_path_in(app_dir),
        entry_point: join_path(bot_dir.as_str(), "index.js"),
        package_file: join_path(bot_dir.as_str(), "package.json"),
        modules_marker: join_path(modules_dir.as_str(), "discord.js"),
        modules_dir,
        worker_config: join_path(bot_dir.as_str(), "config.json"),
        settings_file: join_path(bot_dir.as_str(), "settings.json"),
        log_file: join_path(bot_dir.as_str(), "bot.log"),
        status_config: join_path(bot_dir.as_str(), "status-config.json"),
        bot_dir,
    }
}

} // verus!
