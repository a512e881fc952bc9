//! Sorting an incoming chat message into one of the bot's top-level commands.

use vstd::prelude::*;
use vstd::string::*;
use crate::text::{lower_of, lowercase, run_end, same_text, scan_run, trim_str, trimmed, word_char};

verus! {

/// The reply to `test`.
pub const RUNNING_REPLY: &'static str = "running";

/// The reply to `help`.
pub const HELP_REPLY: &'static str = "The following commands are currently supported:
    bgchan
    gro / grocery";

/// The reply to anything not understood.
pub const UNKNOWN_REPLY: &'static str = "UNKNOWN";

/// What a message asks for.
pub enum Triage {
    /// `test`: the status reply.
    Running,
    /// `help`: the command summary.
    Help,
    /// Nothing the bot knows.
    Unknown,
    /// `bgchan <rest>`.
    Bgchan(String),
    /// `gro <rest>` or `grocery <rest>`.
    Grocery(String),
}

/// The split of `m` into a command word and the rest (`(\w+)\s+(.*)`):
/// the end of the leading word and the start of the rest.
pub open spec fn command_split(m: Seq<char>) -> (int, int) {
    let k = run_end(m, 0, false);
    (k, run_end(m, k, true))
}

/// Whether `m` splits into a nonempty word, some whitespace and a rest.
pub open spec fn has_command(m: Seq<char>) -> bool {
    let (k, r) = command_split(m);
    0 < k < r
}

/// The command word of `m`, lower-cased.
pub open spec fn command_word(m: Seq<char>) -> Seq<char> {
    lower_of(m.subrange(0, command_split(m).0))
}

/// What follows the command word and the whitespace after it.
pub open spec fn command_rest(m: Seq<char>) -> Seq<char> {
    m.subrange(command_split(m).1, m.len() as int)
}

/// What `message_triage` makes of `m`.
pub open spec fn triage_spec(m: Seq<char>, t: Triage) -> bool {
    let folded = trimmed(lower_of(m));
    if folded == "test"@ {
        t is Running
    } else if folded == "help"@ {
        t is Help
    } else if !has_command(m) {
        t is Unknown
    } else if command_word(m) == "bgchan"@ {
        t is Bgchan && t->Bgchan_0@ == command_rest(m)
    } else if command_word(m) == "gro"@ || command_word(m) == "grocery"@ {
        t is Grocery && t->Grocery_0@ == command_rest(m)
    } else {
        t is Unknown
    }
}

/// Sorts a (trimmed) message: `test` and `help` in any case and with any
/// surrounding whitespace, else a command word followed by whitespace and a
/// rest, of which `bgchan`, `gro` and `grocery` (in any case) are known.
pub fn message_triage(msg: &str) -> (t: Triage)
    ensures
        triage_spec(msg@, t),
{
    let low = lowercase(msg);
    let folded = trim_str(low.as_str());
    if same_text(folded, "test") {
        return Triage::Running;
    }
    if same_text(folded, "help") {
        return Triage::Help;
    }
    let k = scan_run(msg, 0, false);
    let r = scan_run(msg, k, true);
    if k == 0 || r == k {
        return Triage::Unknown;
    }
    let n = msg.unicode_len();
    let cmd = lowercase(msg.substring_char(0, k));
    let rest = String::from_str(msg.substring_char(r, n));
    if same_text(cmd.as_str(), "bgchan") {
        Triage::Bgchan(rest)
    } else if same_text(cmd.as_str(), "gro") || same_text(cmd.as_str(), "grocery") {
        Triage::Grocery(rest)
    } else {
        Triage::Unknown
    }
}

/// The reply for the messages answered without a handler; `None` for the
/// ones handed on to the bgchan or grocery handler.
pub fn fixed_reply(t: &Triage) -> (r: Option<&'static str>)
    ensures
        t is Running ==> r == Some(RUNNING_REPLY),
        t is Help ==> r == Some(HELP_REPLY),
        t is Unknown ==> r == Some(UNKNOWN_REPLY),
        (t is Bgchan || t is Grocery) ==> r is None,
{
    match t {
        Triage::Running => Some(RUNNING_REPLY),
        Triage::Help => Some(HELP_REPLY),
        Triage::Unknown => Some(UNKNOWN_REPLY),
        _ => None,
    }
}

/// A run of word characters that reaches the end stops there.
proof fn lemma_word_run_to_end(m: Seq<char>, i: int)
    requires
        0 <= i <= m.len(),
        forall|j: int| i <= j < m.len() ==> word_char(#[trigger] m[j]),
    ensures
        run_end(m, i, false) == m.len(),
    decreases m.len() - i,
{
    if i < m.len() {
        lemma_word_run_to_end(m, i + 1);
    }
}

/// A message that is empty, or one word with nothing after it, and is not
/// `test` or `help`, is not understood.
pub proof fn lemma_single_word_unknown(m: Seq<char>, t: Triage)
    requires
        triage_spec(m, t),
        trimmed(lower_of(m)) != "test"@,
        trimmed(lower_of(m)) != "help"@,
        forall|j: int| 0 <= j < m.len() ==> word_char(#[trigger] m[j]),
    ensures
        t is Unknown,
{
    lemma_word_run_to_end(m, 0);
}

} // verus!
