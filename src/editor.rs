use vstd::prelude::*;
use crate::ansi::MAX_CARET;
use crate::buffer::Buffer;
use crate::cursor::{advance, Location};
use crate::event::{is_movement, is_quit, Event, KeyCode, KeyEventKind, MODIFIER_CONTROL};
use crate::terminal::{after_close, open_sequence, Instruction, Op, Position, Size, Terminal};
use crate::view::{render_rows, Viewport};

verus! {

/// The caret position of a location.
pub open spec fn caret_at(l: Location) -> Position {
    Position { col: l.x, row: l.y }
}

/// The instructions of one refresh pass: hide the caret, go to the origin,
/// draw the farewell (when quitting) or the visible rows, put the caret at
/// the cursor, show it, flush.
pub open spec fn frame(quitting: bool, lines: Seq<Seq<char>>, size: Size, cursor: Location) -> Seq<
    Op,
> {
    let body = if quitting {
        seq![Op::ClearScreen, Op::Print("Goodbye.\r\n"@)]
    } else {
        render_rows(lines, size.height as nat)
    };
    seq![Op::HideCaret, Op::MoveCaret(Position { col: 0, row: 0 })] + body + seq![
        Op::MoveCaret(caret_at(cursor)),
        Op::ShowCaret,
        Op::Flush,
    ]
}

/// Whether the editor quits after `event`, having quit before or not.
pub open spec fn next_quitting(quitting: bool, event: Event) -> bool {
    match event {
        Event::Key(key) => quitting || is_quit(key),
        _ => quitting,
    }
}

/// Where the cursor stands after `event`, given the screen size read for it,
/// if it could be read. A movement key pressed moves the cursor within that
/// size; without a size, or for any other event, it stays.
pub open spec fn next_cursor(cursor: Location, event: Event, size: Option<Size>) -> Location {
    match event {
        Event::Key(key) => if key.kind == KeyEventKind::Press && is_movement(key.code) {
            match size {
                Some(s) => advance(cursor, key.code, s),
                None => cursor,
            }
        } else {
            cursor
        },
        _ => cursor,
    }
}

/// The size of the visible region after `event`: a resize replaces it.
pub open spec fn next_view_size(size: Size, event: Event) -> Size {
    match event {
        Event::Resize(width, height) => Size { height: height as usize, width: width as usize },
        _ => size,
    }
}

/// A size read from the terminal, if any, fits.
pub open spec fn size_fits(size: Option<Size>) -> bool {
    match size {
        Some(s) => s.fits(),
        None => true,
    }
}

/// A resize changes the bounds that the next refresh draws and leaves the
/// cursor where it was: it is held to the new bounds only by the next
/// movement.
pub proof fn lemma_resize_keeps_cursor(
    cursor: Location,
    view_size: Size,
    width: u16,
    height: u16,
    size: Option<Size>,
)
    ensures
        next_cursor(cursor, Event::Resize(width, height), size) == cursor,
        next_view_size(view_size, Event::Resize(width, height)) == (Size {
            height: height as usize,
            width: width as usize,
        }),
        next_view_size(view_size, Event::Resize(width, height)).fits(),
{
}

/// The editor: the terminal session, the cursor, and the view of the text.
pub struct Editor {
    should_quit: bool,
    location: Location,
    view: Viewport,
    terminal: Terminal,
}

impl Editor {
    /// The editor is quitting.
    pub closed spec fn quitting(&self) -> bool {
        self.should_quit
    }

    /// The cursor.
    pub closed spec fn cursor(&self) -> Location {
        self.location
    }

    /// The lines of text on view.
    pub closed spec fn lines(&self) -> Seq<Seq<char>> {
        self.view.lines()
    }

    /// The size of the visible region.
    pub closed spec fn view_size(&self) -> Size {
        self.view.size()
    }

    /// The terminal instructions queued and not yet handed out.
    pub closed spec fn queued(&self) -> Seq<Op> {
        self.terminal.queued()
    }

    /// The terminal session still owes its restoration.
    pub closed spec fn session_open(&self) -> bool {
        self.terminal.is_open()
    }

    pub closed spec fn wf(&self) -> bool {
        &&& self.location.x <= MAX_CARET
        &&& self.location.y <= MAX_CARET
        &&& self.view.wf()
        &&& self.terminal.wf()
    }

    /// Opens the terminal session and an editor over the default buffer, on
    /// a screen of `size`, with the cursor at the origin.
    pub fn new(size: Size) -> (r: Editor)
        requires
            size.fits(),
        ensures
            r.wf(),
            !r.quitting(),
            r.cursor() == (Location { x: 0, y: 0 }),
            r.lines() == seq!["Hello, World!"@],
            r.view_size() == size,
            r.queued() == open_sequence(),
            r.session_open(),
    {
        let terminal = Terminal::new();
        let view = Viewport::new(Buffer::default(), size);
        Editor { should_quit: false, location: Location::default(), view, terminal }
    }

    /// One turn of the editor's loop: the event read is dispatched, then the
    /// screen is refreshed. `size` is the terminal size read for the event,
    /// `None` where it could not be read.
    pub fn run(&mut self, event: Event, size: Option<Size>)
        requires
            old(self).wf(),
            size_fits(size),
        ensures
            final(self).wf(),
            final(self).quitting() == next_quitting(old(self).quitting(), event),
            final(self).cursor() == next_cursor(old(self).cursor(), event, size),
            final(self).view_size() == next_view_size(old(self).view_size(), event),
            final(self).lines() == old(self).lines(),
            final(self).queued() == old(self).queued() + frame(
                final(self).quitting(),
                final(self).lines(),
                final(self).view_size(),
                final(self).cursor(),
            ),
            final(self).session_open() == old(self).session_open(),
    {
        self.evaluate_event(event, size);
        self.refresh_screen();
    }

    /// Moves the cursor by `key_code` within `size`.
    fn move_point(&mut self, key_code: KeyCode, size: Size)
        requires
            old(self).wf(),
            size.fits(),
        ensures
            final(self).wf(),
            final(self).cursor() == advance(old(self).cursor(), key_code, size),
            final(self).quitting() == old(self).quitting(),
            final(self).view_size() == old(self).view_size(),
            final(self).lines() == old(self).lines(),
            final(self).queued() == old(self).queued(),
            final(self).session_open() == old(self).session_open(),
    {
        self.location = Self::calculate_movement(self.location, key_code, size);
    }

    /// Where `key_code` takes the cursor from `location` on a screen of
    /// `size`, by saturating steps: it never leaves the screen through a move
    /// and never overflows.
    pub fn calculate_movement(location: Location, key_code: KeyCode, size: Size) -> (r: Location)
        ensures
            r == advance(location, key_code, size),
    {
        let Location { mut x, mut y } = location;
        let Size { height, width } = size;
        match key_code {
            KeyCode::Up => {
                y = y.saturating_sub(1);
            },
            KeyCode::Down => {
                let last = height.saturating_sub(1);
                let next = y.saturating_add(1);
                y = if last < next { last } else { next };
            },
            KeyCode::Left => {
                x = x.saturating_sub(1);
            },
            KeyCode::Right => {
                let last = width.saturating_sub(1);
                let next = x.saturating_add(1);
                x = if last < next { last } else { next };
            },
            KeyCode::PageUp => {
                y = 0;
            },
            KeyCode::PageDown => {
                y = height.saturating_sub(1);
            },
            KeyCode::Home => {
                x = 0;
            },
            KeyCode::End => {
                x = width.saturating_sub(1);
            },
            _ => {},
        }
        Location { x, y }
    }

    /// Dispatches one input event: control-q quits, a pressed movement key
    /// moves the cursor within `size` (skipped where the size could not be
    /// read), a resize replaces the view's size and leaves the cursor as it
    /// is. Anything else, releases and repeats included, changes nothing.
    pub fn evaluate_event(&mut self, event: Event, size: Option<Size>)
        requires
            old(self).wf(),
            size_fits(size),
        ensures
            final(self).wf(),
            final(self).quitting() == next_quitting(old(self).quitting(), event),
            final(self).cursor() == next_cursor(old(self).cursor(), event, size),
            final(self).view_size() == next_view_size(old(self).view_size(), event),
            final(self).lines() == old(self).lines(),
            final(self).queued() == old(self).queued(),
            final(self).session_open() == old(self).session_open(),
    {
        match event {
            Event::Key(key) => {
                if let KeyEventKind::Press = key.kind {
                    let quit = match key.code {
                        KeyCode::Char(c) => c == 'q' && key.modifiers == MODIFIER_CONTROL,
                        _ => false,
                    };
                    if quit {
                        self.should_quit = true;
                    } else {
                        match key.code {
                            KeyCode::Up | KeyCode::Down | KeyCode::Left | KeyCode::Right
                            | KeyCode::PageDown | KeyCode::PageUp | KeyCode::End | KeyCode::Home => {
                                if let Some(s) = size {
                                    self.move_point(key.code, s);
                                }
                            },
                            _ => {},
                        }
                    }
                }
            },
            Event::Resize(width_u16, height_u16) => {
                let height = height_u16 as usize;
                let width = width_u16 as usize;
                self.view.resize(Size { height, width });
            },
            Event::Other => {},
        }
    }

    /// Queues one refresh pass of the screen.
    pub fn refresh_screen(&mut self)
        requires
            old(self).wf(),
        ensures
            final(self).wf(),
            final(self).queued() == old(self).queued() + frame(
                old(self).quitting(),
                old(self).lines(),
                old(self).view_size(),
                old(self).cursor(),
            ),
            final(self).quitting() == old(self).quitting(),
            final(self).cursor() == old(self).cursor(),
            final(self).view_size() == old(self).view_size(),
            final(self).lines() == old(self).lines(),
            final(self).session_open() == old(self).session_open(),
    {
        let ghost q0 = self.terminal.queued();
        self.terminal.hide_caret();
        self.terminal.move_caret_to(Position::default());
        let ghost q1 = self.terminal.queued();
        if self.should_quit {
            self.terminal.clear_screen();
            self.terminal.print("Goodbye.\r\n");
        } else {
            self.view.render(&mut self.terminal);
        }
        let ghost q2 = self.terminal.queued();
        self.terminal.move_caret_to(Position { col: self.location.x, row: self.location.y });
        self.terminal.show_caret();
        self.terminal.execute();
        assert(self.terminal.queued() =~= q0 + frame(
            self.should_quit,
            self.view.lines(),
            self.view.size(),
            self.location,
        ));
    }

    /// The editor has been asked to quit.
    pub fn should_quit(&self) -> (r: bool)
        ensures
            r == self.quitting(),
    {
        self.should_quit
    }

    /// The cursor.
    pub fn location(&self) -> (r: Location)
        ensures
            r == self.cursor(),
    {
        self.location
    }

    /// Ends the terminal session: the first call queues the restoration of
    /// the terminal, later calls queue nothing.
    pub fn close(&mut self)
        requires
            old(self).wf(),
        ensures
            final(self).wf(),
            (final(self).queued(), final(self).session_open()) == after_close(
                old(self).queued(),
                old(self).session_open(),
            ),
            final(self).quitting() == old(self).quitting(),
            final(self).cursor() == old(self).cursor(),
            final(self).view_size() == old(self).view_size(),
            final(self).lines() == old(self).lines(),
    {
        self.terminal.close();
    }

    /// Hands out the queued terminal instructions, oldest first.
    pub fn take_pending(&mut self) -> (r: Vec<Instruction>)
        requires
            old(self).wf(),
        ensures
            final(self).wf(),
            r@.map_values(|i: Instruction| i@) == old(self).queued(),
            forall|i: int| 0 <= i < r@.len() ==> (#[trigger] r@[i])@.valid(),
            final(self).queued() == Seq::<Op>::empty(),
            final(self).session_open() == old(self).session_open(),
            final(self).quitting() == old(self).quitting(),
            final(self).cursor() == old(self).cursor(),
            final(self).view_size() == old(self).view_size(),
            final(self).lines() == old(self).lines(),
    {
        let r = self.terminal.take_pending();
        proof {
            assert forall|i: int| 0 <= i < r@.len() implies (#[trigger] r@[i])@.valid() by {
                assert(r@.map_values(|i: Instruction| i@)[i] == r@[i]@);
            }
        }
        r
    }
}

} // verus!
