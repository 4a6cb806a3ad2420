//! Sending text to the agent's pane: the commands that do it.

use vstd::prelude::*;
use crate::text::{chars_of, push_str_chars, str_eq, string_of, string_views};

verus! {

/// The keys that paste the clipboard and press Enter.
pub const PASTE_COMMAND: &'static str =
    "Add-Type -AssemblyName System.Windows.Forms; [System.Windows.Forms.SendKeys]::SendWait('^v'); Start-Sleep -Milliseconds 200; [System.Windows.Forms.SendKeys]::SendWait('{ENTER}')";

/// The direction that leads back from where `direction` has led; `left`
/// for anything that is no direction.
pub open spec fn opposite_spec(direction: Seq<char>) -> Seq<char> {
    if direction == "right"@ {
        "left"@
    } else if direction == "left"@ {
        "right"@
    } else if direction == "up"@ {
        "down"@
    } else if direction == "down"@ {
        "up"@
    } else {
        "left"@
    }
}

/// The direction that leads back.
pub fn opposite_direction(direction: &str) -> (r: &'static str)
    ensures
        r@ == opposite_spec(direction@),
{
    if str_eq(direction, "right") {
        "left"
    } else if str_eq(direction, "left") {
        "right"
    } else if str_eq(direction, "up") {
        "down"
    } else if str_eq(direction, "down") {
        "up"
    } else {
        "left"
    }
}

/// A text as it stands between single quotes: every single quote twice.
pub open spec fn quoted(s: Seq<char>) -> Seq<char>
    decreases s.len(),
{
    if s.len() == 0 {
        Seq::empty()
    } else if s.last() == '\'' {
        quoted(s.drop_last()) + seq!['\'', '\'']
    } else {
        quoted(s.drop_last()).push(s.last())
    }
}

/// The command that puts a text on the clipboard.
pub fn clipboard_command(text: &str) -> (r: String)
    ensures
        r@ == "Set-Clipboard -Value '"@ + quoted(text@) + "'"@,
{
    let s = chars_of(text);
    let mut body: Vec<char> = Vec::new();
    let mut i: usize = 0;
    assert(s@.take(0) =~= Seq::empty());
    while i < s.len()
        invariant
            i <= s.len(),
            body@ == quoted(s@.take(i as int)),
        decreases s.len() - i,
    {
        let c: char = s[i];
        let ghost before = body@;
        if c == '\'' {
            body.push('\'');
        }
        body.push(c);
        proof {
            let next = s@.take(i + 1);
            assert(next.drop_last() =~= s@.take(i as int));
            assert(next.last() == c);
            if c == '\'' {
                assert(body@ =~= before + seq!['\'', '\'']);
            }
        }
        i = i + 1;
    }
    assert(s@.take(s.len() as int) =~= s@);
    let mut out: Vec<char> = Vec::new();
    push_str_chars(&mut out, "Set-Clipboard -Value '");
    out.append(&mut body);
    push_str_chars(&mut out, "'");
    assert(out@ =~= "Set-Clipboard -Value '"@ + quoted(text@) + "'"@);
    string_of(&out)
}

/// The arguments that move the focus to the pane in a direction.
pub fn focus_args(direction: &str) -> (r: Vec<String>)
    ensures
        string_views(r@) == seq!["-w"@, "0"@, "move-focus"@, direction@],
{
    let mut args: Vec<String> = Vec::new();
    args.push("-w".to_owned());
    args.push("0".to_owned());
    args.push("move-focus".to_owned());
    args.push(direction.to_owned());
    assert(string_views(args@) =~= seq!["-w"@, "0"@, "move-focus"@, direction@]);
    args
}

} // verus!
