//! The terminal status output of the server.
use vstd::prelude::*;
use crate::decimal::{decimal_text, push_decimal};

verus! {

/// What the standard `Debug` formatting writes for a string: the text in
/// double quotes, with special characters escaped.
pub uninterp spec fn debug_text(s: Seq<char>) -> Seq<char>;

/// Formats a string as `{:?}` does (`<str as Debug>::fmt`).
#[verifier::external_body]
fn debug_string(s: &str) -> (res: String)
    ensures
        res@ == debug_text(s@),
{
    format!("{:?}", s)
}

/// The status line the server prints when it starts a task: the program's
/// name, the time, and the task's name, both in their `Debug` form.
pub open spec fn status_line_text(timestamp: Seq<char>, task_name: Seq<char>) -> Seq<char> {
    "> BIG_IRON @ "@ + debug_text(timestamp) + ": "@ + debug_text(task_name)
}

/// The terminal control sequence that moves the cursor `n` lines up and
/// erases everything below it.
pub open spec fn clear_lines_text(n: nat) -> Seq<char> {
    "\x1b["@ + decimal_text(n) + "F\x1b[0J"@
}

/// The line that announces a task: `> BIG_IRON @ "<time>": "<task>"`.
pub fn status_line(timestamp: &str, task_name: &str) -> (res: String)
    ensures
        res@ == status_line_text(timestamp@, task_name@),
        res@ == "> BIG_IRON @ "@ + debug_text(timestamp@) + ": "@ + debug_text(task_name@),
{
    let mut line = "> BIG_IRON @ ".to_owned();
    let ts = debug_string(timestamp);
    line.append(ts.as_str());
    line.append(": ");
    let task = debug_string(task_name);
    line.append(task.as_str());
    line
}

/// The control sequence that deletes the previous `n` lines of output.
pub fn clear_lines_sequence(n: u16) -> (res: String)
    ensures
        res@ == clear_lines_text(n as nat),
        res@ == "\x1b["@ + decimal_text(n as nat) + "F\x1b[0J"@,
{
    let mut seq = "\x1b[".to_owned();
    push_decimal(&mut seq, n as u64);
    seq.append("F\x1b[0J");
    seq
}

/// The status line always shows the program's prefix, then the time in its
/// `Debug` form, then `: `, then the task in its `Debug` form, whatever the
/// lengths of time and task.
pub proof fn lemma_status_line_order(timestamp: Seq<char>, task_name: Seq<char>)
    ensures
        status_line_text(timestamp, task_name) == "> BIG_IRON @ "@ + debug_text(timestamp) + ": "@
            + debug_text(task_name),
        status_line_text(timestamp, task_name).take(
            ("> BIG_IRON @ "@ + debug_text(timestamp)).len() as int,
        ) == "> BIG_IRON @ "@ + debug_text(timestamp),
        status_line_text(timestamp, task_name).skip(
            ("> BIG_IRON @ "@ + debug_text(timestamp) + ": "@).len() as int,
        ) == debug_text(task_name),
{
    let a = "> BIG_IRON @ "@ + debug_text(timestamp);
    let b = a + ": "@;
    let line = b + debug_text(task_name);
    assert(line.take(a.len() as int) =~= a);
    assert(line.skip(b.len() as int) =~= debug_text(task_name));
}

/// The sequence for `n` lines is `ESC [`, the decimal text of `n`, then
/// `F ESC [ 0 J`; the number can be read back from it.
pub proof fn lemma_clear_lines_number(n: nat)
    ensures
        clear_lines_text(n) == "\x1b["@ + decimal_text(n) + "F\x1b[0J"@,
        crate::decimal::decimal_value(
            clear_lines_text(n).subrange(
                "\x1b["@.len() as int,
                ("\x1b["@.len() + decimal_text(n).len()) as int,
            ),
        ) == n,
{
    let a = "\x1b["@;
    let s = a + decimal_text(n) + "F\x1b[0J"@;
    assert(s.subrange(a.len() as int, (a.len() + decimal_text(n).len()) as int) =~= decimal_text(n));
    crate::decimal::lemma_decimal_roundtrip(n);
}

} // verus!
