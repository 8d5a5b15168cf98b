use vstd::prelude::*;

use crate::error::TerminalError;

verus! {

/// The byte that ends the key loop: Ctrl+Q.
pub const QUIT_KEY: u8 = 0x11;

/// The byte a terminal sends for a key held together with Ctrl: the key's
/// code with everything above its low five bits cleared.
pub open spec fn spec_ctrl_key(c: char) -> u8 {
    ((c as u32) & 0x1f) as u8
}

/// Computes the Ctrl-modified code of `c`.
pub fn ctrl_key(c: char) -> (key: u8)
    ensures
        key == spec_ctrl_key(c),
        key < 0x20,
{
    let code: u32 = c as u32;
    let low: u32 = code & 0x1f;
    assert(low < 0x20) by (bit_vector)
        requires
            low == code & 0x1f,
    ;
    low as u8
}

/// For a letter, the Ctrl-modified code is the letter's place in the
/// alphabet, whichever case it is written in; Ctrl+Q is the quit key.
pub proof fn lemma_ctrl_key_of_letter(c: char)
    ensures
        'a' <= c <= 'z' ==> spec_ctrl_key(c) == (c as u32) - ('a' as u32) + 1,
        'A' <= c <= 'Z' ==> spec_ctrl_key(c) == (c as u32) - ('A' as u32) + 1,
        (c as u32) < 0x80 ==> spec_ctrl_key(c) == ((c as u32) as u8) & 0x1f,
        spec_ctrl_key('q') == QUIT_KEY,
        spec_ctrl_key('a') == 0x01,
{
    let code: u32 = c as u32;
    assert(0x61 <= code <= 0x7a ==> ((code & 0x1f) as u8) == (code - 0x61 + 1) as u8)
        by (bit_vector);
    assert(0x41 <= code <= 0x5a ==> ((code & 0x1f) as u8) == (code - 0x41 + 1) as u8)
        by (bit_vector);
    assert(code < 0x80 ==> ((code & 0x1f) as u8) == (code as u8) & 0x1f) by (bit_vector);
    assert(((0x71u32 & 0x1f) as u8) == 0x11u8) by (bit_vector);
    assert(((0x61u32 & 0x1f) as u8) == 0x01u8) by (bit_vector);
}

/// Whether `c` is a control character: below 0x20, or 0x7f.
pub open spec fn spec_is_control(c: u8) -> bool {
    c < 0x20 || c == 0x7f
}

/// Tells whether `c` is a control character.
pub fn is_control(c: u8) -> (control: bool)
    ensures
        control == spec_is_control(c),
{
    c < 0x20 || c == 0x7f
}

/// The character that stands for the digit `d`.
pub open spec fn digit_char(d: nat) -> char {
    (0x30 + d) as u8 as char
}

/// `n` written in decimal, without leading zeros.
pub open spec fn decimal_text(n: nat) -> Seq<char>
    decreases n,
{
    if n < 10 {
        seq![digit_char(n)]
    } else {
        decimal_text(n / 10).push(digit_char(n % 10))
    }
}

/// The line reported for the key `c`: its code in decimal, for a character
/// that can be shown also the character itself between quotes in brackets,
/// then carriage return and line feed.
pub open spec fn report_text(c: u8) -> Seq<char> {
    if spec_is_control(c) {
        decimal_text(c as nat) + seq!['\r', '\n']
    } else {
        decimal_text(c as nat) + seq![' ', '(', '\'', c as char, '\'', ')', '\r', '\n']
    }
}

/// `String::push` of the standard library appends one character to the
/// end of the string and leaves the rest as it was.
pub assume_specification[ String::push ](text: &mut String, c: char)
    ensures
        final(text)@ == old(text)@.push(c),
;

/// Appends `n` in decimal to `text`.
pub fn push_decimal(text: &mut String, n: u8)
    ensures
        final(text)@ == old(text)@ + decimal_text(n as nat),
{
    if n >= 100 {
        text.push((0x30u8 + n / 100) as char);
    }
    if n >= 10 {
        text.push((0x30u8 + (n / 10) % 10) as char);
    }
    text.push((0x30u8 + n % 10) as char);
    proof {
        reveal_with_fuel(decimal_text, 3);
        assert(final(text)@ =~= old(text)@ + decimal_text(n as nat));
    }
}

/// Writes the report line for the key `c`.
pub fn report(c: u8) -> (line: String)
    ensures
        line@ == report_text(c),
{
    let mut line = String::new();
    push_decimal(&mut line, c);
    if !is_control(c) {
        line.push(' ');
        line.push('(');
        line.push('\'');
        line.push(c as char);
        line.push('\'');
        line.push(')');
    }
    line.push('\r');
    line.push('\n');
    assert(line@ =~= report_text(c));
    line
}

/// What the key loop does with one key.
#[derive(Clone, Debug, PartialEq, Eq)]
pub enum KeyAction {
    /// Leave the loop.
    Quit,
    /// Print this line and read on.
    Report(String),
}

/// Decides what the key loop does with the key `c`: Ctrl+Q leaves the
/// loop, every other key is reported.
pub fn process_key(c: u8) -> (action: KeyAction)
    ensures
        c == QUIT_KEY ==> action is Quit,
        c != QUIT_KEY ==> action is Report && action->Report_0@ == report_text(c),
{
    if c == QUIT_KEY {
        KeyAction::Quit
    } else {
        KeyAction::Report(report(c))
    }
}

/// Turns the outcome of a one-byte read into the key that was read: `read`
/// is the number of bytes the read delivered into `buf`, or `None` where
/// the read itself failed. A read that delivered nothing means that the
/// input has ended.
pub fn editor_read_key(read: Option<usize>, buf: &[u8; 1]) -> (key: Result<u8, TerminalError>)
    ensures
        key == match read {
            None => Err::<u8, TerminalError>(TerminalError::TerminalIO),
            Some(count) => if count == 0 {
                Err::<u8, TerminalError>(TerminalError::InputClosed)
            } else {
                Ok::<u8, TerminalError>(buf[0])
            },
        },
{
    match read {
        None => Err(TerminalError::TerminalIO),
        Some(count) => if count == 0 {
            Err(TerminalError::InputClosed)
        } else {
            Ok(buf[0])
        },
    }
}

/// Everything the key loop prints for the keys `keys`, none of which ends
/// the loop: their report lines, in order.
pub open spec fn transcript_text(keys: Seq<u8>) -> Seq<char>
    decreases keys.len(),
{
    if keys.len() == 0 {
        Seq::empty()
    } else {
        transcript_text(keys.drop_last()) + report_text(keys.last())
    }
}

/// No key of `keys` is the quit key.
pub open spec fn quit_free(keys: Seq<u8>) -> bool {
    forall|i: int| 0 <= i < keys.len() ==> keys[i] != QUIT_KEY
}

/// How many keys of `keys` come before its first quit key: all of them
/// where it holds none.
pub open spec fn first_quit(keys: Seq<u8>) -> int
    decreases keys.len(),
{
    if keys.len() == 0 || keys[0] == QUIT_KEY {
        0
    } else {
        1 + first_quit(keys.drop_first())
    }
}

/// `first_quit` is the one place that either ends the input or holds a quit
/// key, with no quit key before it.
pub proof fn lemma_first_quit_is(keys: Seq<u8>, at: int)
    requires
        0 <= at <= keys.len(),
        quit_free(keys.take(at)),
        at < keys.len() ==> keys[at] == QUIT_KEY,
    ensures
        first_quit(keys) == at,
    decreases keys.len(),
{
    if keys.len() == 0 {
    } else if at == 0 {
    } else {
        assert(keys.take(at)[0] == keys[0]);
        let rest = keys.drop_first();
        let head = rest.take(at - 1);
        assert forall|i: int| 0 <= i < head.len() implies head[i] != QUIT_KEY by {
            assert(keys.take(at)[i + 1] == keys[i + 1]);
        }
        lemma_first_quit_is(rest, at - 1);
    }
}

/// What a run of the key loop over a given input came to.
#[derive(Clone, Debug, PartialEq, Eq)]
pub struct Transcript {
    /// Everything the loop printed.
    pub output: String,
    /// How many keys were reported.
    pub reported: usize,
    /// Whether the loop ended on the quit key, not on the end of the input.
    pub quit: bool,
}

/// Runs the key loop over `keys`: every key before the first Ctrl+Q is
/// reported, in order; the first Ctrl+Q ends the loop, and nothing after
/// it is looked at.
pub fn run_keys(keys: &[u8]) -> (run: Transcript)
    ensures
        run.reported == first_quit(keys@),
        run.quit == (first_quit(keys@) < keys@.len()),
        run.output@ == transcript_text(keys@.take(first_quit(keys@))),
{
    let mut output = String::new();
    let mut i: usize = 0;
    let mut quit = false;
    while i < keys.len() && !quit
        invariant
            i <= keys@.len(),
            quit_free(keys@.take(i as int)),
            quit ==> i < keys@.len() && keys@[i as int] == QUIT_KEY,
            output@ == transcript_text(keys@.take(i as int)),
        decreases keys@.len() - i + (if quit { 0int } else { 1int }),
    {
        match process_key(keys[i]) {
            KeyAction::Quit => {
                quit = true;
            },
            KeyAction::Report(line) => {
                output.append(line.as_str());
                proof {
                    let before = keys@.take(i as int);
                    let after = keys@.take(i + 1);
                    assert(after.drop_last() =~= before);
                    assert(after.last() == keys@[i as int]);
                }
                i += 1;
            },
        }
    }
    proof {
        lemma_first_quit_is(keys@, i as int);
    }
    Transcript { output, reported: i, quit }
}

/// The loop ends on the first Ctrl+Q, whatever came before it and whatever
/// follows: exactly the keys before it are reported.
pub proof fn lemma_first_quit_ends_loop(before: Seq<u8>, after: Seq<u8>)
    requires
        quit_free(before),
    ensures
        first_quit(before + seq![QUIT_KEY] + after) == before.len(),
        (before + seq![QUIT_KEY] + after).take(before.len() as int) == before,
{
    let keys = before + seq![QUIT_KEY] + after;
    assert(keys.take(before.len() as int) =~= before);
    lemma_first_quit_is(keys, before.len() as int);
}

/// An input without a quit key is reported to its end.
pub proof fn lemma_no_quit_reports_all(keys: Seq<u8>)
    requires
        quit_free(keys),
    ensures
        first_quit(keys) == keys.len(),
{
    assert(keys.take(keys.len() as int) =~= keys);
    lemma_first_quit_is(keys, keys.len() as int);
}

} // verus!
