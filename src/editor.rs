use vstd::prelude::*;

use crate::cursor::{moved, in_view, next_position, Key, Position};
use crate::render::{banner, frame, push_all, row_count, row_text, rows_text, title_prefix};
use crate::terminal::{Size, Terminal};

verus! {

/// The editor's state: whether it has exited, where the cursor is, the
/// terminal it draws on and the version it shows.
pub struct Editor {
    exit: bool,
    terminal: Terminal,
    cursor_pos: Position,
    version: Vec<u8>,
}

impl Editor {
    pub closed spec fn spec_exit(&self) -> bool {
        self.exit
    }

    pub closed spec fn spec_cursor(&self) -> Position {
        self.cursor_pos
    }

    pub closed spec fn spec_size(&self) -> Size {
        self.terminal.spec_size()
    }

    pub closed spec fn spec_version(&self) -> Seq<u8> {
        self.version@
    }

    /// The cursor lies in the viewport.
    pub open spec fn wf(&self) -> bool {
        in_view(self.spec_cursor(), self.spec_size())
    }

    /// A running editor with the cursor at the origin, showing `version`.
    pub fn default(terminal: Terminal, version: Vec<u8>) -> (r: Self)
        ensures
            !r.spec_exit(),
            r.spec_cursor() == (Position { x: 0, y: 0 }),
            r.spec_size() == terminal.spec_size(),
            r.spec_version() == version@,
            r.wf(),
    {
        Editor { exit: false, terminal, cursor_pos: Position { x: 0, y: 0 }, version }
    }

    pub fn is_exited(&self) -> (r: bool)
        ensures
            r == self.spec_exit(),
    {
        self.exit
    }

    pub fn cursor_pos(&self) -> (r: Position)
        ensures
            r == self.spec_cursor(),
    {
        self.cursor_pos
    }

    pub fn terminal(&self) -> (r: &Terminal)
        ensures
            r.spec_size() == self.spec_size(),
    {
        &self.terminal
    }

    /// Interprets one key: Ctrl+Q exits, navigation keys move the cursor,
    /// anything else changes nothing.
    pub fn keypress(&mut self, key: Key)
        ensures
            final(self).spec_exit() == (old(self).spec_exit() || key == Key::Ctrl('q')),
            final(self).spec_cursor() == moved(old(self).spec_cursor(), old(self).spec_size(), key),
            final(self).spec_size() == old(self).spec_size(),
            final(self).spec_version() == old(self).spec_version(),
            old(self).wf() ==> final(self).wf(),
    {
        match key {
            Key::Ctrl(c) => {
                if c == 'q' {
                    self.exit = true;
                }
            },
            _ => self.move_cursor(key),
        }
        proof {
            if old(self).wf() {
                crate::cursor::lemma_move_stays_in_view(
                    old(self).spec_cursor(),
                    old(self).spec_size(),
                    key,
                );
            }
        }
    }

    /// Moves the cursor for one key, clamped to the terminal's size.
    pub fn move_cursor(&mut self, key: Key)
        ensures
            final(self).spec_exit() == old(self).spec_exit(),
            final(self).spec_cursor() == moved(old(self).spec_cursor(), old(self).spec_size(), key),
            final(self).spec_size() == old(self).spec_size(),
            final(self).spec_version() == old(self).spec_version(),
    {
        let size = *self.terminal.size();
        self.cursor_pos = next_position(self.cursor_pos, size, key);
    }

    /// The bytes of one frame for the current state.
    pub fn refresh_screen(&self) -> (r: Vec<u8>)
        ensures
            r@ == frame(self.spec_exit(), self.spec_cursor(), self.spec_size(), self.spec_version()),
    {
        let mut out = Terminal::cursor_hide();
        let home = Terminal::move_cursor(&Position { x: 0, y: 0 });
        push_all(&mut out, &home);
        if self.exit {
            let clear = Terminal::clear_screen();
            push_all(&mut out, &clear);
            let exit = vec![101u8, 120u8, 105u8, 116u8, 13u8, 10u8];
            push_all(&mut out, &exit);
        } else {
            let rows = self.draw_rows();
            push_all(&mut out, &rows);
            let place = Terminal::move_cursor(&self.cursor_pos);
            push_all(&mut out, &place);
        }
        let show = Terminal::cursor_show();
        push_all(&mut out, &show);
        out
    }

    /// The welcome row, centered and cut to the terminal's width.
    pub fn draw_welcome_message(&self) -> (r: Vec<u8>)
        ensures
            r@ == banner(self.spec_size().width, self.spec_version()),
    {
        let mut text: Vec<u8> = vec![
            84u8, 101u8, 120u8, 116u8, 32u8, 69u8, 100u8, 105u8, 116u8, 111u8, 114u8, 32u8,
            45u8, 45u8, 32u8, 118u8, 101u8, 114u8, 115u8, 105u8, 111u8, 110u8, 32u8,
        ];
        assert(text@ =~= title_prefix());
        push_all(&mut text, &self.version);
        let width = self.terminal.size().width as usize;
        let len = text.len();
        let padding: usize = if width > len { (width - len) / 2 } else { 0 };
        let n_spaces: usize = if padding > 0 { padding - 1 } else { 0 };
        let mut line: Vec<u8> = vec![126u8];
        let mut i: usize = 0;
        while i < n_spaces
            invariant
                i <= n_spaces,
                line@ == seq![126u8] + crate::render::spaces(i as nat),
            decreases n_spaces - i,
        {
            line.push(32u8);
            i = i + 1;
            assert(line@ =~= seq![126u8] + crate::render::spaces(i as nat));
        }
        push_all(&mut line, &text);
        if line.len() > width {
            let mut cut: Vec<u8> = Vec::new();
            let mut j: usize = 0;
            while j < width
                invariant
                    j <= width,
                    width < line@.len(),
                    cut@ == line@.take(j as int),
                decreases width - j,
            {
                cut.push(line[j]);
                j = j + 1;
                assert(cut@ =~= line@.take(j as int));
            }
            cut
        } else {
            line
        }
    }

    /// Every content row, in order.
    pub fn draw_rows(&self) -> (r: Vec<u8>)
        ensures
            r@ == rows_text(row_count(self.spec_size()) as nat, self.spec_size(), self.spec_version()),
    {
        let height = self.terminal.size().height;
        let rows: u16 = if height > 0 { height - 1 } else { 0 };
        let mut out: Vec<u8> = Vec::new();
        let mut row: u16 = 0;
        while row < rows
            invariant
                row <= rows,
                rows == row_count(self.spec_size()),
                out@ == rows_text(row as nat, self.spec_size(), self.spec_version()),
            decreases rows - row,
        {
            let clear = Terminal::clear_line();
            push_all(&mut out, &clear);
            if row == rows / 3 {
                let banner_row = self.draw_welcome_message();
                push_all(&mut out, &banner_row);
            } else {
                out.push(126u8);
            }
            out.push(13u8);
            out.push(10u8);
            assert(out@ =~= rows_text(row as nat, self.spec_size(), self.spec_version())
                + row_text(row as int, self.spec_size(), self.spec_version()));
            row = row + 1;
        }
        out
    }
}

} // verus!
