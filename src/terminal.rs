use vstd::prelude::*;

use crate::cursor::Position;

verus! {

/// Terminal width and height in character cells.
#[derive(Clone, Copy, Debug, PartialEq, Eq, Structural)]
pub struct Size {
    pub width: u16,
    pub height: u16,
}

/// `ESC [` followed by `body`: a control sequence introducer.
pub open spec fn csi(body: Seq<u8>) -> Seq<u8> {
    seq![0x1bu8, 0x5bu8] + body
}

/// The decimal digits of `n`, most significant first.
pub open spec fn decimal(n: nat) -> Seq<u8>
    decreases n,
{
    if n < 10 {
        seq![(48 + n) as u8]
    } else {
        decimal(n / 10).push((48 + n % 10) as u8)
    }
}

/// Moves the terminal cursor to one-based column `x`, row `y`.
pub open spec fn goto_seq(x: nat, y: nat) -> Seq<u8> {
    csi(decimal(y) + seq![0x3bu8] + decimal(x) + seq![0x48u8])
}

pub open spec fn clear_all_seq() -> Seq<u8> {
    csi(seq![0x32u8, 0x4au8])
}

pub open spec fn clear_line_seq() -> Seq<u8> {
    csi(seq![0x32u8, 0x4bu8])
}

pub open spec fn hide_seq() -> Seq<u8> {
    csi(seq![0x3fu8, 0x32u8, 0x35u8, 0x6cu8])
}

pub open spec fn show_seq() -> Seq<u8> {
    csi(seq![0x3fu8, 0x32u8, 0x35u8, 0x68u8])
}

/// A zero-based coordinate as the terminal's one-based one, saturating at the
/// largest value a terminal coordinate can hold.
pub open spec fn one_based(n: usize) -> u16 {
    if n < 0xffff {
        (n + 1) as u16
    } else {
        0xffffu16
    }
}

/// The terminal's size, captured once when the session starts.
pub struct Terminal {
    size: Size,
}

impl Terminal {
    pub closed spec fn spec_size(&self) -> Size {
        self.size
    }

    /// A terminal surface of the given size (the size the session reported).
    pub fn default(size: Size) -> (r: Self)
        ensures
            r.spec_size() == size,
    {
        Terminal { size }
    }

    pub fn size(&self) -> (r: &Size)
        ensures
            *r == self.spec_size(),
    {
        &self.size
    }

    /// Relies on termion::clear::All, whose Display writes `ESC [2J`.
    #[verifier::external_body]
    pub fn clear_screen() -> (r: Vec<u8>)
        ensures
            r@ == clear_all_seq(),
    {
        format!("{}", termion::clear::All).into_bytes()
    }

    /// Relies on termion::clear::CurrentLine, whose Display writes `ESC [2K`.
    #[verifier::external_body]
    pub fn clear_line() -> (r: Vec<u8>)
        ensures
            r@ == clear_line_seq(),
    {
        format!("{}", termion::clear::CurrentLine).into_bytes()
    }

    /// Relies on termion::cursor::Hide, whose Display writes `ESC [?25l`.
    #[verifier::external_body]
    pub fn cursor_hide() -> (r: Vec<u8>)
        ensures
            r@ == hide_seq(),
    {
        format!("{}", termion::cursor::Hide).into_bytes()
    }

    /// Relies on termion::cursor::Show, whose Display writes `ESC [?25h`.
    #[verifier::external_body]
    pub fn cursor_show() -> (r: Vec<u8>)
        ensures
            r@ == show_seq(),
    {
        format!("{}", termion::cursor::Show).into_bytes()
    }

    /// The bytes that put the terminal cursor on `pos`, one-based and saturating.
    pub fn move_cursor(pos: &Position) -> (r: Vec<u8>)
        ensures
            r@ == goto_seq(one_based(pos.x) as nat, one_based(pos.y) as nat),
    {
        let x: u16 = if pos.x < 0xffff { (pos.x + 1) as u16 } else { 0xffff };
        let y: u16 = if pos.y < 0xffff { (pos.y + 1) as u16 } else { 0xffff };
        goto(x, y)
    }
}

/// Relies on termion::cursor::Goto, whose Display writes `ESC [{y};{x}H` with
/// both numbers in decimal; it asserts in debug builds that they are one-based.
#[verifier::external_body]
fn goto(x: u16, y: u16) -> (r: Vec<u8>)
    requires
        x >= 1,
        y >= 1,
    ensures
        r@ == goto_seq(x as nat, y as nat),
{
    format!("{}", termion::cursor::Goto(x, y)).into_bytes()
}

} // verus!
