use vstd::prelude::*;

verus! {

/// The highest row or column that the escape sequences can address: the
/// one-based coordinate written to the terminal must still fit in a `u16`.
pub const MAX_CARET: u16 = 65534;

/// The decimal digit for `d`, which must be below ten.
pub open spec fn digit(d: nat) -> char {
    seq!['0', '1', '2', '3', '4', '5', '6', '7', '8', '9'][d as int]
}

/// The decimal representation of `n`, without leading zeros.
pub open spec fn decimal(n: nat) -> Seq<char>
    decreases n,
{
    if n < 10 {
        seq![digit(n)]
    } else {
        decimal(n / 10).push(digit(n % 10))
    }
}

/// The control sequence introducer, `ESC [`.
pub open spec fn csi() -> Seq<char> {
    seq!['\x1b', '[']
}

pub open spec fn hide_code() -> Seq<char> {
    csi() + seq!['?', '2', '5', 'l']
}

pub open spec fn show_code() -> Seq<char> {
    csi() + seq!['?', '2', '5', 'h']
}

pub open spec fn enter_alternate_code() -> Seq<char> {
    csi() + seq!['?', '1', '0', '4', '9', 'h']
}

pub open spec fn leave_alternate_code() -> Seq<char> {
    csi() + seq!['?', '1', '0', '4', '9', 'l']
}

pub open spec fn clear_all_code() -> Seq<char> {
    csi() + seq!['2', 'J']
}

pub open spec fn clear_line_code() -> Seq<char> {
    csi() + seq!['2', 'K']
}

/// Moves the caret to the zero-based `(col, row)`; the sequence is one-based
/// and names the row first.
pub open spec fn move_to_code(col: nat, row: nat) -> Seq<char> {
    csi() + decimal(row + 1) + seq![';'] + decimal(col + 1) + seq!['H']
}

/// Relies on crossterm's `Hide::write_ansi`: it appends `CSI ?25l`.
#[verifier::external_body]
pub(crate) fn write_hide(out: &mut String)
    ensures
        final(out)@ == old(out)@ + hide_code(),
{
    let _ = crossterm::Command::write_ansi(&crossterm::cursor::Hide, out);
}

/// Relies on crossterm's `Show::write_ansi`: it appends `CSI ?25h`.
#[verifier::external_body]
pub(crate) fn write_show(out: &mut String)
    ensures
        final(out)@ == old(out)@ + show_code(),
{
    let _ = crossterm::Command::write_ansi(&crossterm::cursor::Show, out);
}

/// Relies on crossterm's `EnterAlternateScreen::write_ansi`: it appends `CSI ?1049h`.
#[verifier::external_body]
pub(crate) fn write_enter_alternate(out: &mut String)
    ensures
        final(out)@ == old(out)@ + enter_alternate_code(),
{
    let _ = crossterm::Command::write_ansi(&crossterm::terminal::EnterAlternateScreen, out);
}

/// Relies on crossterm's `LeaveAlternateScreen::write_ansi`: it appends `CSI ?1049l`.
#[verifier::external_body]
pub(crate) fn write_leave_alternate(out: &mut String)
    ensures
        final(out)@ == old(out)@ + leave_alternate_code(),
{
    let _ = crossterm::Command::write_ansi(&crossterm::terminal::LeaveAlternateScreen, out);
}

/// Relies on crossterm's `Clear::write_ansi`: `All` appends `CSI 2J` and
/// `CurrentLine` appends `CSI 2K`.
#[verifier::external_body]
pub(crate) fn write_clear(out: &mut String, whole_screen: bool)
    ensures
        final(out)@ == old(out)@ + (if whole_screen { clear_all_code() } else { clear_line_code() }),
{
    let kind = if whole_screen {
        crossterm::terminal::ClearType::All
    } else {
        crossterm::terminal::ClearType::CurrentLine
    };
    let _ = crossterm::Command::write_ansi(&crossterm::terminal::Clear(kind), out);
}

/// Relies on crossterm's `MoveTo::write_ansi`: it appends `CSI row+1 ; col+1 H`
/// in decimal. It adds one to each `u16`, hence the bound.
#[verifier::external_body]
pub(crate) fn write_move_to(out: &mut String, col: u16, row: u16)
    requires
        col <= MAX_CARET,
        row <= MAX_CARET,
    ensures
        final(out)@ == old(out)@ + move_to_code(col as nat, row as nat),
{
    let _ = crossterm::Command::write_ansi(&crossterm::cursor::MoveTo(col, row), out);
}

/// Relies on crossterm's `Print::write_ansi`: it appends the text as it is.
#[verifier::external_body]
pub(crate) fn write_print(out: &mut String, text: &str)
    ensures
        final(out)@ == old(out)@ + text@,
{
    let _ = crossterm::Command::write_ansi(&crossterm::style::Print(text), out);
}

} // verus!
