//! What becomes of one typed line: blank lines are ignored, the reserved word
//! `exit` (in any letter case) ends the application, and everything else is
//! dispatched as a command whose result is the canned transformation
//! `processed: <command>`.

use vstd::prelude::*;
use vstd::string::*;

verus! {

/// The characters of Unicode's `White_Space` property, the ones
/// `char::is_whitespace` accepts.
pub open spec fn is_whitespace_char(c: char) -> bool {
    ||| c == '\u{0009}'
    ||| c == '\u{000A}'
    ||| c == '\u{000B}'
    ||| c == '\u{000C}'
    ||| c == '\u{000D}'
    ||| c == ' '
    ||| c == '\u{0085}'
    ||| c == '\u{00A0}'
    ||| c == '\u{1680}'
    ||| c == '\u{2000}'
    ||| c == '\u{2001}'
    ||| c == '\u{2002}'
    ||| c == '\u{2003}'
    ||| c == '\u{2004}'
    ||| c == '\u{2005}'
    ||| c == '\u{2006}'
    ||| c == '\u{2007}'
    ||| c == '\u{2008}'
    ||| c == '\u{2009}'
    ||| c == '\u{200A}'
    ||| c == '\u{2028}'
    ||| c == '\u{2029}'
    ||| c == '\u{202F}'
    ||| c == '\u{205F}'
    ||| c == '\u{3000}'
}

/// Exactly `char::is_whitespace`, decided character by character.
pub fn whitespace_char(c: char) -> (r: bool)
    ensures
        r == is_whitespace_char(c),
{
    c == '\u{0009}' || c == '\u{000A}' || c == '\u{000B}' || c == '\u{000C}' || c == '\u{000D}'
        || c == ' ' || c == '\u{0085}' || c == '\u{00A0}' || c == '\u{1680}' || c == '\u{2000}'
        || c == '\u{2001}' || c == '\u{2002}' || c == '\u{2003}' || c == '\u{2004}'
        || c == '\u{2005}' || c == '\u{2006}' || c == '\u{2007}' || c == '\u{2008}'
        || c == '\u{2009}' || c == '\u{200A}' || c == '\u{2028}' || c == '\u{2029}'
        || c == '\u{202F}' || c == '\u{205F}' || c == '\u{3000}'
}

/// A line that must not create a log entry: empty, or whitespace throughout.
pub open spec fn is_blank(s: Seq<char>) -> bool {
    forall|i: int| 0 <= i < s.len() ==> is_whitespace_char(#[trigger] s[i])
}

/// Decides `is_blank` for a line of input.
pub fn blank(s: &str) -> (r: bool)
    ensures
        r == is_blank(s@),
{
    let n = s.unicode_len();
    let mut i: usize = 0;
    while i < n
        invariant
            i <= n,
            n == s@.len(),
            forall|j: int| 0 <= j < i ==> is_whitespace_char(#[trigger] s@[j]),
        decreases n - i,
    {
        if !whitespace_char(s.get_char(i)) {
            proof {
                assert(!is_whitespace_char(s@[i as int]));
            }
            return false;
        }
        i += 1;
    }
    true
}

/// What `str::to_lowercase` returns for a given character sequence.
pub uninterp spec fn lower_of(s: Seq<char>) -> Seq<char>;

/// Relies on str::to_lowercase: the result depends on the input characters
/// alone.
#[verifier::external_body]
fn lowercase(s: &str) -> (r: String)
    ensures
        r@ == lower_of(s@),
{
    s.to_lowercase()
}

/// The reserved word that ends the application instead of being logged.
pub open spec fn exit_word() -> Seq<char> {
    "exit"@
}

/// True exactly when an already lower-cased line is the reserved word.
pub fn is_exit_word(lowered: &String) -> (r: bool)
    ensures
        r == (lowered@ == exit_word()),
{
    *lowered == String::from_str("exit")
}

/// What the view layer does with one submitted line.
#[derive(Clone, Copy, Debug, PartialEq, Eq, Structural)]
pub enum CommandAction {
    /// Blank input: no entry is created, nothing happens.
    Ignore,
    /// The reserved word `exit` in any letter case: terminate, never log.
    Exit,
    /// Anything else: log the line and run a task for it.
    Dispatch,
}

/// Decides the fate of one typed line. Blank lines are ignored; a line whose
/// lower-cased form is the reserved word asks for termination; every other
/// line is dispatched.
pub fn classify_command(command: &str) -> (r: CommandAction)
    ensures
        (r == CommandAction::Ignore) <==> is_blank(command@),
        (r == CommandAction::Exit) <==> (!is_blank(command@) && lower_of(command@)
            == exit_word()),
        (r == CommandAction::Dispatch) <==> (!is_blank(command@) && lower_of(command@)
            != exit_word()),
{
    if blank(command) {
        CommandAction::Ignore
    } else {
        let lowered = lowercase(command);
        if is_exit_word(&lowered) {
            CommandAction::Exit
        } else {
            CommandAction::Dispatch
        }
    }
}

/// The deterministic transformation every dispatched command undergoes.
pub open spec fn processed_of(cmd: Seq<char>) -> Seq<char> {
    "processed: "@ + cmd
}

/// Computes the result text for one command: `processed: ` followed by the
/// command itself.
pub fn process_command(command: String) -> (r: String)
    ensures
        r@ == processed_of(command@),
{
    let mut r = String::from_str("processed: ");
    r.append(command.as_str());
    r
}

} // verus!
