use vstd::prelude::*;
use crate::ansi::{
    clear_all_code, clear_line_code, enter_alternate_code, hide_code, leave_alternate_code,
    move_to_code, show_code, write_clear, write_enter_alternate, write_hide,
    write_leave_alternate, write_move_to, write_print, write_show, MAX_CARET,
};

verus! {

/// The visible extent of the terminal, in rows and columns.
#[derive(Clone, Copy, Debug, PartialEq, Eq)]
pub struct Size {
    pub height: usize,
    pub width: usize,
}

impl Size {
    /// A size that the terminal can report: both extents fit in a `u16`.
    pub open spec fn fits(self) -> bool {
        self.height <= u16::MAX && self.width <= u16::MAX
    }
}

impl Default for Size {
    fn default() -> (r: Size)
        ensures
            r.height == 0,
            r.width == 0,
    {
        Size { height: 0, width: 0 }
    }
}

/// A zero-based caret position on the screen.
#[derive(Clone, Copy, Debug, PartialEq, Eq)]
pub struct Position {
    pub col: usize,
    pub row: usize,
}

impl Position {
    /// The caret can be moved to this position.
    pub open spec fn addressable(self) -> bool {
        self.col <= MAX_CARET && self.row <= MAX_CARET
    }
}

impl Default for Position {
    fn default() -> (r: Position)
        ensures
            r.col == 0,
            r.row == 0,
    {
        Position { col: 0, row: 0 }
    }
}

/// One step of work on the terminal device. Screen instructions are queued
/// and reach the device only at the next `Flush`.
#[derive(Debug, PartialEq, Eq)]
pub enum Instruction {
    EnableRawMode,
    DisableRawMode,
    EnterAlternateScreen,
    LeaveAlternateScreen,
    ClearScreen,
    ClearLine,
    MoveCaret(Position),
    HideCaret,
    ShowCaret,
    Print(String),
    Flush,
}

/// The mathematical view of an `Instruction`.
pub enum Op {
    EnableRawMode,
    DisableRawMode,
    EnterAlternateScreen,
    LeaveAlternateScreen,
    ClearScreen,
    ClearLine,
    MoveCaret(Position),
    HideCaret,
    ShowCaret,
    Print(Seq<char>),
    Flush,
}

impl View for Instruction {
    type V = Op;

    open spec fn view(&self) -> Op {
        match self {
            Instruction::EnableRawMode => Op::EnableRawMode,
            Instruction::DisableRawMode => Op::DisableRawMode,
            Instruction::EnterAlternateScreen => Op::EnterAlternateScreen,
            Instruction::LeaveAlternateScreen => Op::LeaveAlternateScreen,
            Instruction::ClearScreen => Op::ClearScreen,
            Instruction::ClearLine => Op::ClearLine,
            Instruction::MoveCaret(p) => Op::MoveCaret(*p),
            Instruction::HideCaret => Op::HideCaret,
            Instruction::ShowCaret => Op::ShowCaret,
            Instruction::Print(s) => Op::Print(s@),
            Instruction::Flush => Op::Flush,
        }
    }
}

impl Op {
    /// The instruction can be written: a caret move stays addressable.
    pub open spec fn valid(self) -> bool {
        match self {
            Op::MoveCaret(p) => p.addressable(),
            _ => true,
        }
    }

    /// The escape sequence written to the terminal for this instruction.
    /// Raw mode and flushing are device calls, not text: they write nothing.
    pub open spec fn ansi(self) -> Seq<char> {
        match self {
            Op::EnterAlternateScreen => enter_alternate_code(),
            Op::LeaveAlternateScreen => leave_alternate_code(),
            Op::ClearScreen => clear_all_code(),
            Op::ClearLine => clear_line_code(),
            Op::MoveCaret(p) => move_to_code(p.col as nat, p.row as nat),
            Op::HideCaret => hide_code(),
            Op::ShowCaret => show_code(),
            Op::Print(s) => s,
            _ => Seq::empty(),
        }
    }
}

/// The instructions that open a session: raw input, the alternate screen,
/// cleared, and flushed.
pub open spec fn open_sequence() -> Seq<Op> {
    seq![Op::EnableRawMode, Op::EnterAlternateScreen, Op::ClearScreen, Op::Flush]
}

/// The instructions that restore the terminal, each attempted on its own.
pub open spec fn restore_sequence() -> Seq<Op> {
    seq![Op::LeaveAlternateScreen, Op::ShowCaret, Op::Flush, Op::DisableRawMode]
}

/// What closing does to the queued instructions of a session that is `open`
/// or not: restoration is queued once, by the first close.
pub open spec fn after_close(queued: Seq<Op>, open: bool) -> (Seq<Op>, bool) {
    if open {
        (queued + restore_sequence(), false)
    } else {
        (queued, false)
    }
}

/// How many times `op` occurs in `s`.
pub open spec fn count(s: Seq<Op>, op: Op) -> nat
    decreases s.len(),
{
    if s.len() == 0 {
        0
    } else {
        count(s.drop_last(), op) + if s.last() == op {
            1nat
        } else {
            0nat
        }
    }
}

proof fn lemma_count_append(a: Seq<Op>, b: Seq<Op>, op: Op)
    ensures
        count(a + b, op) == count(a, op) + count(b, op),
    decreases b.len(),
{
    if b.len() > 0 {
        lemma_count_append(a, b.drop_last(), op);
        assert((a + b).drop_last() =~= a + b.drop_last());
    }
}

/// Closing an open session, and closing it again (as a failure path and the
/// normal teardown both may), queues the restoration exactly once: one exit
/// from the alternate screen and one exit from raw mode, after whatever was
/// queued before.
pub proof fn lemma_restore_once(queued: Seq<Op>)
    ensures
        after_close(after_close(queued, true).0, after_close(queued, true).1) == (
            queued + restore_sequence(),
            false,
        ),
        count(restore_sequence(), Op::LeaveAlternateScreen) == 1,
        count(restore_sequence(), Op::DisableRawMode) == 1,
        count(queued + restore_sequence(), Op::LeaveAlternateScreen) == count(
            queued,
            Op::LeaveAlternateScreen,
        ) + 1,
        count(queued + restore_sequence(), Op::DisableRawMode) == count(
            queued,
            Op::DisableRawMode,
        ) + 1,
{
    let r = restore_sequence();
    reveal_with_fuel(count, 5);
    assert(r.drop_last() =~= seq![Op::LeaveAlternateScreen, Op::ShowCaret, Op::Flush]);
    assert(r.drop_last().drop_last() =~= seq![Op::LeaveAlternateScreen, Op::ShowCaret]);
    assert(r.drop_last().drop_last().drop_last() =~= seq![Op::LeaveAlternateScreen]);
    assert(r.drop_last().drop_last().drop_last().drop_last() =~= Seq::<Op>::empty());
    lemma_count_append(queued, r, Op::LeaveAlternateScreen);
    lemma_count_append(queued, r, Op::DisableRawMode);
}

impl Instruction {
    /// The escape sequence of this instruction, as crossterm writes it.
    pub fn ansi(&self) -> (r: String)
        requires
            self@.valid(),
        ensures
            r@ == self@.ansi(),
    {
        let mut out = String::new();
        match self {
            Instruction::EnterAlternateScreen => write_enter_alternate(&mut out),
            Instruction::LeaveAlternateScreen => write_leave_alternate(&mut out),
            Instruction::ClearScreen => write_clear(&mut out, true),
            Instruction::ClearLine => write_clear(&mut out, false),
            Instruction::MoveCaret(p) => write_move_to(&mut out, p.col as u16, p.row as u16),
            Instruction::HideCaret => write_hide(&mut out),
            Instruction::ShowCaret => write_show(&mut out),
            Instruction::Print(s) => write_print(&mut out, s.as_str()),
            _ => {},
        }
        assert(out@ =~= self@.ansi());
        out
    }
}

/// The terminal session: raw mode and the alternate screen, entered once and
/// restored once. It records the device instructions in order; the program
/// around the library hands them to the device.
pub struct Terminal {
    pending: Vec<Instruction>,
    open: bool,
}

impl Terminal {
    /// The instructions queued and not yet handed out, oldest first.
    pub closed spec fn queued(&self) -> Seq<Op> {
        self.pending@.map_values(|i: Instruction| i@)
    }

    /// The session is open: its restoration is still owed.
    pub closed spec fn is_open(&self) -> bool {
        self.open
    }

    /// Every queued instruction can be written.
    pub open spec fn wf(&self) -> bool {
        forall|i: int| 0 <= i < self.queued().len() ==> #[trigger] self.queued()[i].valid()
    }

    fn push(&mut self, i: Instruction)
        ensures
            final(self).queued() == old(self).queued().push(i@),
            final(self).is_open() == old(self).is_open(),
    {
        self.pending.push(i);
        assert(self.queued() =~= old(self).queued().push(i@));
    }

    /// Opens a session: enters raw mode and the alternate screen, clears it
    /// and flushes.
    pub fn new() -> (r: Terminal)
        ensures
            r.queued() == open_sequence(),
            r.is_open(),
            r.wf(),
    {
        let mut t = Terminal { pending: Vec::new(), open: true };
        assert(t.queued() =~= Seq::empty());
        t.push(Instruction::EnableRawMode);
        t.push(Instruction::EnterAlternateScreen);
        t.clear_screen();
        t.execute();
        assert(t.queued() =~= open_sequence());
        t
    }

    /// Queues clearing the whole screen.
    pub fn clear_screen(&mut self)
        ensures
            final(self).queued() == old(self).queued().push(Op::ClearScreen),
            final(self).is_open() == old(self).is_open(),
    {
        self.push(Instruction::ClearScreen);
    }

    /// Queues clearing the line under the caret.
    pub fn clear_line(&mut self)
        ensures
            final(self).queued() == old(self).queued().push(Op::ClearLine),
            final(self).is_open() == old(self).is_open(),
    {
        self.push(Instruction::ClearLine);
    }

    /// Queues moving the caret to `position`.
    pub fn move_caret_to(&mut self, position: Position)
        requires
            position.addressable(),
        ensures
            final(self).queued() == old(self).queued().push(Op::MoveCaret(position)),
            final(self).is_open() == old(self).is_open(),
    {
        self.push(Instruction::MoveCaret(position));
    }

    /// Queues hiding the caret.
    pub fn hide_caret(&mut self)
        ensures
            final(self).queued() == old(self).queued().push(Op::HideCaret),
            final(self).is_open() == old(self).is_open(),
    {
        self.push(Instruction::HideCaret);
    }

    /// Queues showing the caret.
    pub fn show_caret(&mut self)
        ensures
            final(self).queued() == old(self).queued().push(Op::ShowCaret),
            final(self).is_open() == old(self).is_open(),
    {
        self.push(Instruction::ShowCaret);
    }

    /// Queues writing `string` at the caret.
    pub fn print(&mut self, string: &str)
        ensures
            final(self).queued() == old(self).queued().push(Op::Print(string@)),
            final(self).is_open() == old(self).is_open(),
    {
        self.push(Instruction::Print(string.to_owned()));
    }

    /// Queues forcing everything queued so far out to the device.
    pub fn execute(&mut self)
        ensures
            final(self).queued() == old(self).queued().push(Op::Flush),
            final(self).is_open() == old(self).is_open(),
    {
        self.push(Instruction::Flush);
    }

    /// Ends the session: the first call queues the restoration of the
    /// terminal; any later call queues nothing.
    pub fn close(&mut self)
        ensures
            (final(self).queued(), final(self).is_open())
                == after_close(old(self).queued(), old(self).is_open()),
    {
        if self.open {
            self.push(Instruction::LeaveAlternateScreen);
            self.show_caret();
            self.execute();
            self.push(Instruction::DisableRawMode);
            self.open = false;
            assert(self.queued() =~= old(self).queued() + restore_sequence());
        }
    }

    /// Hands out the queued instructions, oldest first, and empties the queue.
    pub fn take_pending(&mut self) -> (r: Vec<Instruction>)
        ensures
            r@.map_values(|i: Instruction| i@) == old(self).queued(),
            final(self).queued() == Seq::<Op>::empty(),
            final(self).is_open() == old(self).is_open(),
    {
        let mut r: Vec<Instruction> = Vec::new();
        std::mem::swap(&mut r, &mut self.pending);
        assert(self.queued() =~= Seq::<Op>::empty());
        r
    }
}

} // verus!
