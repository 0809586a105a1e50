//! The worker's configuration record.

use vstd::prelude::*;
use vstd::string::StringExecFns;

verus! {

/// The configuration the worker reads at startup.
#[derive(Debug, Clone, PartialEq, Eq)]
pub struct BotConfig {
    pub token: String,
    pub client_id: String,
    pub guild_id: String,
    pub prefix: String,
}

/// A configuration as four character sequences.
pub struct BotConfigView {
    pub token: Seq<char>,
    pub client_id: Seq<char>,
    pub guild_id: Seq<char>,
    pub prefix: Seq<char>,
}

impl View for BotConfig {
    type V = BotConfigView;

    open spec fn view(&self) -> BotConfigView {
        BotConfigView {
            token: self.token@,
            client_id: self.client_id@,
            guild_id: self.guild_id@,
            prefix: self.prefix@,
        }
    }
}

/// The configuration in force before anything was saved: no token, no ids,
/// and `!` as command prefix.
pub open spec fn default_config_view() -> BotConfigView {
    BotConfigView {
        token: Seq::empty(),
        client_id: Seq::empty(),
        guild_id: Seq::empty(),
        prefix: seq!['!'],
    }
}

/// What loading yields: the stored configuration, or the default where
/// nothing is stored.
pub open spec fn loaded_view(stored: Option<BotConfigView>) -> BotConfigView {
    match stored {
        Some(c) => c,
        None => default_config_view(),
    }
}

impl BotConfig {
    /// Whether a token has been entered.
    pub open spec fn token_set(&self) -> bool {
        self.token@.len() > 0
    }

    /// Whether a token has been entered.
    pub fn has_token(&self) -> (b: bool)
        ensures
            b == self.token_set(),
    {
        !self.token.as_str().is_empty()
    }
}

impl Default for BotConfig {
    fn default() -> (c: BotConfig)
        ensures
            c@ == default_config_view(),
    {
        proof {
            reveal_strlit("!");
        }
        let c = BotConfig {
            token: String::new(),
            client_id: String::new(),
            guild_id: String::new(),
            prefix: String::from_str("!"),
        };
        assert(c.prefix@ =~= seq!['!']);
        c
    }
}

/// The configuration to work with, given what the authoritative file holds
/// (`None` where it does not exist yet). Never fails: the default is itself a
/// valid configuration.
pub fn load_config(stored: Option<BotConfig>) -> (c: BotConfig)
    ensures
        c@ == loaded_view(
            match stored {
                Some(s) => Some(s@),
                None => None,
            },
        ),
{
    match stored {
        Some(c) => c,
        None => BotConfig::default(),
    }
}

/// Loading is stable: what loading yields, stored and loaded again, is the
/// same configuration, field for field. In particular the default, once
/// saved, loads as the default.
pub proof fn lemma_load_is_stable(stored: Option<BotConfigView>)
    ensures
        loaded_view(Some(loaded_view(stored))) == loaded_view(stored),
        loaded_view(None) == default_config_view(),
{
}

} // verus!
