//! The decisions of the interactive chat loop.
//!
//! The loop itself — reading lines, printing replies — is the embedding
//! program's concern. What is decided here: when a line ends the session,
//! how a completed turn extends the conversation history, and how a reply
//! is framed for display. Failures never extend the history, so a failed
//! turn leaves the session exactly as it was.

use vstd::prelude::*;
use vstd::string::StringExecFns;
use vstd::string::StrSliceExecFns;
use crate::completion::Message;

verus! {

/// Whether a trimmed line reads as the exit command, ASCII case ignored.
pub open spec fn spec_is_exit(line: Seq<char>) -> bool {
    &&& line.len() == 4
    &&& (line[0] == 'e' || line[0] == 'E')
    &&& (line[1] == 'x' || line[1] == 'X')
    &&& (line[2] == 'i' || line[2] == 'I')
    &&& (line[3] == 't' || line[3] == 'T')
}

/// Decides whether a trimmed input line ends the session.
pub fn is_exit_command(line: &str) -> (r: bool)
    ensures
        r == spec_is_exit(line@),
{
    let n = line.unicode_len();
    if n != 4 {
        return false;
    }
    let c0 = line.get_char(0);
    let c1 = line.get_char(1);
    let c2 = line.get_char(2);
    let c3 = line.get_char(3);
    (c0 == 'e' || c0 == 'E') && (c1 == 'x' || c1 == 'X') && (c2 == 'i' || c2 == 'I') && (c3 == 't'
        || c3 == 'T')
}

/// The separator line printed above a framed response.
pub open spec fn response_header() -> Seq<char> {
    "========================== Response ============================"@
}

/// The separator line printed below a framed response.
pub open spec fn response_footer() -> Seq<char> {
    "================================================================"@
}

/// Frames a reply for display: header line, the reply unchanged, footer
/// line.
pub fn frame_response(response: &str) -> (lines: Vec<String>)
    ensures
        lines@.len() == 3,
        lines@[0]@ == response_header(),
        lines@[1]@ == response@,
        lines@[2]@ == response_footer(),
{
    let mut lines: Vec<String> = Vec::new();
    lines.push(
        String::from_str("========================== Response ============================"),
    );
    lines.push(String::from_str(response));
    lines.push(
        String::from_str("================================================================"),
    );
    lines
}

/// The conversation a chat session has accumulated, oldest-first.
pub struct ChatSession {
    /// The completed turns so far: user and assistant messages alternate.
    pub history: Vec<Message>,
}

impl ChatSession {
    /// A session with no conversation yet.
    pub fn new() -> (r: Self)
        ensures
            r.history@ =~= Seq::<Message>::empty(),
    {
        ChatSession { history: Vec::new() }
    }

    /// Records one completed turn: the user's message, then the
    /// assistant's reply, appended after the history so far. A failed
    /// turn is never recorded.
    pub fn push_exchange(&mut self, input: &str, response: &str)
        ensures
            final(self).history@.len() == old(self).history@.len() + 2,
            final(self).history@.subrange(0, old(self).history@.len() as int) == old(
                self,
            ).history@,
            final(self).history@[old(self).history@.len() as int].role@ == "user"@,
            final(self).history@[old(self).history@.len() as int].content@ == input@,
            final(self).history@[old(self).history@.len() as int + 1].role@ == "assistant"@,
            final(self).history@[old(self).history@.len() as int + 1].content@ == response@,
    {
        self.history.push(
            Message { role: String::from_str("user"), content: String::from_str(input) },
        );
        self.history.push(
            Message { role: String::from_str("assistant"), content: String::from_str(response) },
        );
        proof {
            assert(self.history@.subrange(0, old(self).history@.len() as int) =~= old(
                self,
            ).history@);
        }
    }
}

} // verus!
