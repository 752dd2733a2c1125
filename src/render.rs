use vstd::prelude::*;

use crate::cursor::Position;
use crate::terminal::{
    clear_all_seq, clear_line_seq, goto_seq, hide_seq, one_based, show_seq, Size,
};

verus! {

/// "Text Editor -- version " in ASCII.
pub open spec fn title_prefix() -> Seq<u8> {
    seq![
        84u8, 101u8, 120u8, 116u8, 32u8, 69u8, 100u8, 105u8, 116u8, 111u8, 114u8, 32u8,
        45u8, 45u8, 32u8, 118u8, 101u8, 114u8, 115u8, 105u8, 111u8, 110u8, 32u8,
    ]
}

/// The product name followed by the version.
pub open spec fn welcome_text(version: Seq<u8>) -> Seq<u8> {
    title_prefix() + version
}

pub open spec fn spaces(n: nat) -> Seq<u8> {
    Seq::new(n, |i: int| 32u8)
}

/// Free columns on either side of a text of `len` bytes centered in `width`.
pub open spec fn padding(width: int, len: int) -> int {
    if width > len {
        (width - len) / 2
    } else {
        0
    }
}

/// The welcome row: `~`, spaces that center the welcome text, the text,
/// all cut to the terminal's width.
pub open spec fn banner(width: u16, version: Seq<u8>) -> Seq<u8> {
    let text = welcome_text(version);
    let line = seq![126u8] + spaces(
        (if padding(width as int, text.len() as int) > 0 {
            padding(width as int, text.len() as int) - 1
        } else {
            0
        }) as nat,
    ) + text;
    if line.len() > width {
        line.take(width as int)
    } else {
        line
    }
}

/// The content rows drawn on a terminal of size `s`: all but the last row.
pub open spec fn row_count(s: Size) -> int {
    if s.height > 0 {
        s.height - 1
    } else {
        0
    }
}

/// Row `row` of `rows`: a line clear, then `~`, or the welcome banner on the
/// row a third of the way down, then carriage return and newline.
pub open spec fn row_text(row: int, s: Size, version: Seq<u8>) -> Seq<u8> {
    clear_line_seq() + (if row == row_count(s) / 3 {
        banner(s.width, version)
    } else {
        seq![126u8]
    }) + seq![13u8, 10u8]
}

/// The first `n` rows, in order.
pub open spec fn rows_text(n: nat, s: Size, version: Seq<u8>) -> Seq<u8>
    decreases n,
{
    if n == 0 {
        Seq::empty()
    } else {
        rows_text((n - 1) as nat, s, version) + row_text(n - 1, s, version)
    }
}

/// "exit" followed by carriage return and newline.
pub open spec fn exit_line() -> Seq<u8> {
    seq![101u8, 120u8, 105u8, 116u8, 13u8, 10u8]
}

/// One whole frame: hide the cursor and go home; then either clear the screen
/// and print the exit line, or draw every content row and put the cursor
/// back on its place; then show the cursor.
pub open spec fn frame(exit: bool, cursor: Position, s: Size, version: Seq<u8>) -> Seq<u8> {
    hide_seq() + goto_seq(1, 1) + (if exit {
        clear_all_seq() + exit_line()
    } else {
        rows_text(row_count(s) as nat, s, version) + goto_seq(
            one_based(cursor.x) as nat,
            one_based(cursor.y) as nat,
        )
    }) + show_seq()
}

/// The banner starts with `~` and never runs past the terminal's width.
pub proof fn lemma_banner_fits(width: u16, version: Seq<u8>)
    requires
        width >= 1,
    ensures
        banner(width, version).len() <= width,
        banner(width, version)[0] == 126u8,
{
}

/// Appends all of `src` to `out`.
pub fn push_all(out: &mut Vec<u8>, src: &Vec<u8>)
    ensures
        final(out)@ == old(out)@ + src@,
{
    let mut i: usize = 0;
    while i < src.len()
        invariant
            i <= src@.len(),
            out@ == old(out)@ + src@.take(i as int),
        decreases src@.len() - i,
    {
        out.push(src[i]);
        i = i + 1;
        assert(src@.take(i as int) =~= src@.take(i - 1) + seq![src@[i - 1]]);
    }
    assert(src@.take(src@.len() as int) =~= src@);
}

} // verus!
