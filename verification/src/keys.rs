//! The console line editor: what one keyboard byte does to the shell's input line.
//!
//! Printable ASCII extends the line, backspace (BS or DEL) erases its last byte, and CR
//! or LF hands the whole line to the shell as a command and leaves the line empty.
//! Every other byte is ignored.

use vstd::prelude::*;

verus! {

/// What a keyboard byte means to the line editor.
#[derive(Clone, Copy, Debug, PartialEq, Eq, Structural)]
pub enum KeyClass {
    /// CR or LF: dispatch the line as a command.
    Submit,
    /// BS (8) or DEL (0x7F): erase the last byte.
    Erase,
    /// Printable ASCII (32..=126): append the byte.
    Insert,
    /// Anything else (TAB, escape, control bytes): ignored.
    Ignore,
}

/// The class of a keyboard byte.
pub open spec fn key_class_spec(c: u8) -> KeyClass {
    if c == 10 || c == 13 {
        KeyClass::Submit
    } else if c == 8 || c == 0x7f {
        KeyClass::Erase
    } else if 32 <= c <= 126 {
        KeyClass::Insert
    } else {
        KeyClass::Ignore
    }
}

/// Classifies one keyboard byte.
pub fn classify_key(c: u8) -> (r: KeyClass)
    ensures
        r == key_class_spec(c),
{
    if c == 10 || c == 13 {
        KeyClass::Submit
    } else if c == 8 || c == 0x7f {
        KeyClass::Erase
    } else if c >= 32 && c <= 126 {
        KeyClass::Insert
    } else {
        KeyClass::Ignore
    }
}

/// The input line after one keyboard byte.
pub open spec fn edit_spec(line: Seq<u8>, c: u8) -> Seq<u8> {
    match key_class_spec(c) {
        KeyClass::Submit => Seq::empty(),
        KeyClass::Erase => if line.len() > 0 { line.drop_last() } else { line },
        KeyClass::Insert => line.push(c),
        KeyClass::Ignore => line,
    }
}

/// A line holds only printable ASCII.
pub open spec fn printable(line: Seq<u8>) -> bool {
    forall|i: int| 0 <= i < line.len() ==> 32 <= #[trigger] line[i] <= 126
}

/// What the console must do after a keyboard byte.
#[derive(Debug, PartialEq, Eq)]
pub enum KeyOutcome {
    /// Run this command line through the shell (then repaint the console unless the
    /// command took over the screen).
    Dispatch(Vec<u8>),
    /// Repaint the input line.
    RedrawInput,
    /// Nothing changed.
    Unchanged,
}

/// Applies one keyboard byte to the console's input line and says what the console
/// must do about it.
pub fn handle_key(c: u8, line: &mut Vec<u8>) -> (r: KeyOutcome)
    ensures
        final(line)@ == edit_spec(old(line)@, c),
        key_class_spec(c) == KeyClass::Submit ==> (r matches KeyOutcome::Dispatch(cmd)
            && cmd@ == old(line)@),
        key_class_spec(c) == KeyClass::Erase ==> r == KeyOutcome::RedrawInput,
        key_class_spec(c) == KeyClass::Insert ==> r == KeyOutcome::RedrawInput,
        key_class_spec(c) == KeyClass::Ignore ==> r == KeyOutcome::Unchanged,
        printable(old(line)@) ==> printable(final(line)@),
{
    match classify_key(c) {
        KeyClass::Submit => {
            let mut cmd: Vec<u8> = Vec::new();
            core::mem::swap(&mut cmd, line);
            KeyOutcome::Dispatch(cmd)
        },
        KeyClass::Erase => {
            let _ = line.pop();
            KeyOutcome::RedrawInput
        },
        KeyClass::Insert => {
            line.push(c);
            KeyOutcome::RedrawInput
        },
        KeyClass::Ignore => KeyOutcome::Unchanged,
    }
}

/// The value the key handler reports to its drain loop: `true` only when a dispatched
/// command took over the whole screen, in which case the console is not repainted and
/// the caller stops draining for this frame.
pub fn screen_taken(outcome: &KeyOutcome, command_took_screen: bool) -> (r: bool)
    ensures
        r == (outcome is Dispatch && command_took_screen),
{
    match outcome {
        KeyOutcome::Dispatch(_) => command_took_screen,
        _ => false,
    }
}

/// Whether a key witness line shows the key as a character (printable ASCII) rather
/// than as a hex code.
pub fn echo_as_char(c: u8) -> (r: bool)
    ensures
        r == (32 <= c <= 126),
{
    c >= 32 && c <= 126
}

/// Typing a printable byte and then backspace leaves the line as it was.
pub proof fn lemma_insert_then_erase(line: Seq<u8>, c: u8, bs: u8)
    requires
        32 <= c <= 126,
        bs == 8 || bs == 0x7f,
    ensures
        edit_spec(edit_spec(line, c), bs) == line,
{
    assert(line.push(c).drop_last() =~= line);
}

/// After a submit the line is empty, whatever it held.
pub proof fn lemma_submit_clears(line: Seq<u8>)
    ensures
        edit_spec(line, 13) == Seq::<u8>::empty(),
        edit_spec(line, 10) == Seq::<u8>::empty(),
{
}

/// Backspace on an empty line is harmless.
pub proof fn lemma_erase_empty(bs: u8)
    requires
        bs == 8 || bs == 0x7f,
    ensures
        edit_spec(Seq::<u8>::empty(), bs) == Seq::<u8>::empty(),
{
}

/// The line only ever holds printable ASCII: editing a printable line with any byte
/// yields a printable line.
pub proof fn lemma_line_stays_printable(line: Seq<u8>, c: u8)
    requires
        printable(line),
    ensures
        printable(edit_spec(line, c)),
{
}

} // verus!
