use vstd::prelude::*;
use crate::ansi::MAX_CARET;
use crate::buffer::Buffer;
use crate::terminal::{Op, Position, Size, Terminal};

verus! {

/// The instructions that draw screen row `row`: the caret goes to the row's
/// start, the row is cleared, and the buffer's line of that index, if there is
/// one, is written.
pub open spec fn render_row(lines: Seq<Seq<char>>, row: nat) -> Seq<Op> {
    let head = seq![Op::MoveCaret(Position { col: 0, row: row as usize }), Op::ClearLine];
    if row < lines.len() {
        head.push(Op::Print(lines[row as int]))
    } else {
        head
    }
}

/// The instructions that draw the first `rows` screen rows, top down.
pub open spec fn render_rows(lines: Seq<Seq<char>>, rows: nat) -> Seq<Op>
    decreases rows,
{
    if rows == 0 {
        Seq::empty()
    } else {
        render_rows(lines, (rows - 1) as nat) + render_row(lines, (rows - 1) as nat)
    }
}

/// The visible part of the buffer: as many rows as the screen is high.
pub struct Viewport {
    buffer: Buffer,
    size: Size,
}

impl Viewport {
    /// The lines of the buffer shown.
    pub closed spec fn lines(&self) -> Seq<Seq<char>> {
        self.buffer.text()
    }

    /// The size of the visible region.
    pub closed spec fn size(&self) -> Size {
        self.size
    }

    pub open spec fn wf(&self) -> bool {
        self.size().fits()
    }

    /// A view of `buffer` over a region of `size`.
    pub fn new(buffer: Buffer, size: Size) -> (r: Viewport)
        requires
            size.fits(),
        ensures
            r.lines() == buffer.text(),
            r.size() == size,
            r.wf(),
    {
        Viewport { buffer, size }
    }

    /// Replaces the size of the visible region; the next render uses it.
    pub fn resize(&mut self, size: Size)
        requires
            size.fits(),
        ensures
            final(self).size() == size,
            final(self).lines() == old(self).lines(),
            final(self).wf(),
    {
        self.size = size;
    }

    /// Queues the drawing of every visible row.
    pub fn render(&self, terminal: &mut Terminal)
        requires
            self.wf(),
            old(terminal).wf(),
        ensures
            final(terminal).queued()
                == old(terminal).queued() + render_rows(self.lines(), self.size().height as nat),
            final(terminal).is_open() == old(terminal).is_open(),
            final(terminal).wf(),
    {
        let height = self.size.height;
        let mut row: usize = 0;
        while row < height
            invariant
                row <= height,
                height == self.size().height,
                self.wf(),
                terminal.wf(),
                terminal.is_open() == old(terminal).is_open(),
                terminal.queued() == old(terminal).queued() + render_rows(self.lines(), row as nat),
            decreases height - row,
        {
            proof {
                assert(row <= MAX_CARET);
            }
            let ghost before = terminal.queued();
            terminal.move_caret_to(Position { col: 0, row });
            terminal.clear_line();
            if row < self.buffer.lines.len() {
                terminal.print(self.buffer.lines[row].as_str());
            }
            assert(terminal.queued() =~= before + render_row(self.lines(), row as nat));
            assert(terminal.queued() =~= old(terminal).queued() + render_rows(
                self.lines(),
                (row + 1) as nat,
            ));
            row = row + 1;
        }
    }
}

impl Default for Viewport {
    /// The default buffer, over a region that has no size yet.
    fn default() -> (r: Viewport)
        ensures
            r.lines() == seq!["Hello, World!"@],
            r.size() == (Size { height: 0, width: 0 }),
            r.wf(),
    {
        Viewport { buffer: Buffer::default(), size: Size::default() }
    }
}

} // verus!
