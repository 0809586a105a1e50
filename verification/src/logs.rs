//! The tail of the worker's log file.

use vstd::prelude::*;
use crate::text::join;
use crate::text::last_lines;
use crate::text::tail_lines;

verus! {

/// How many lines of the log are shown.
pub const LOG_TAIL_LINES: usize = 200;

/// What is shown of a log: nothing where there is no log file, else its
/// last lines, as many as are shown at most, separated by line feeds.
pub open spec fn log_tail(content: Option<Seq<char>>) -> Seq<char> {
    match content {
        Some(text) => join(last_lines(text, LOG_TAIL_LINES as nat), seq!['\n']),
        None => Seq::empty(),
    }
}

/// The part of the worker's log that is shown, given the content of the log
/// file (`None` where the file does not exist).
pub fn read_logs(content: Option<&str>) -> (r: String)
    ensures
        r@ == log_tail(
            match content {
                Some(text) => Some(text@),
                None => None,
            },
        ),
{
    match content {
        Some(text) => tail_lines(text, LOG_TAIL_LINES),
        None => String::new(),
    }
}

} // verus!
