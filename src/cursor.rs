use vstd::prelude::*;

use crate::terminal::Size;

verus! {

/// The cursor's logical place in the viewport: zero-based column and row.
#[derive(Clone, Copy, Debug, PartialEq, Eq, Structural)]
pub struct Position {
    pub x: usize,
    pub y: usize,
}

/// A decoded keystroke, as far as the editor reads it.
#[derive(Clone, Copy, Debug, PartialEq, Eq, Structural)]
pub enum Key {
    Up,
    Down,
    Left,
    Right,
    PageUp,
    PageDown,
    Home,
    End,
    Ctrl(char),
    Char(char),
    Other,
}

/// `n - 1`, stopping at zero.
pub open spec fn sat_dec(n: int) -> int {
    if n > 0 {
        n - 1
    } else {
        0
    }
}

/// The last column the cursor may take: the terminal's width less one.
pub open spec fn last_col(s: Size) -> int {
    sat_dec(s.width as int)
}

/// The last row the cursor may take: the terminal's height less two, since
/// the bottom row is kept free for status and exit text.
pub open spec fn last_row(s: Size) -> int {
    sat_dec(sat_dec(s.height as int))
}

/// The cursor lies inside the viewport of a terminal of size `s`.
pub open spec fn in_view(p: Position, s: Size) -> bool {
    p.x <= last_col(s) && p.y <= last_row(s)
}

/// Where one key moves the cursor on a terminal of size `s`; keys that do not
/// navigate leave it where it is.
pub open spec fn moved(p: Position, s: Size, k: Key) -> Position {
    let x = p.x as int;
    let y = p.y as int;
    let w = last_col(s);
    let h = last_row(s);
    match k {
        Key::Up => Position { x: p.x, y: sat_dec(y) as usize },
        Key::Down => if y < h {
            Position { x: p.x, y: (y + 1) as usize }
        } else {
            p
        },
        Key::Left => if x == 0 && y > 0 {
            Position { x: sat_dec(sat_dec(w)) as usize, y: (y - 1) as usize }
        } else {
            Position { x: sat_dec(x) as usize, y: p.y }
        },
        Key::Right => if x < w {
            Position { x: (x + 1) as usize, y: p.y }
        } else if y < h {
            Position { x: 0, y: (y + 1) as usize }
        } else {
            p
        },
        Key::PageUp => Position { x: p.x, y: 0 },
        Key::PageDown => Position { x: p.x, y: h as usize },
        Key::Home => Position { x: 0, y: p.y },
        Key::End => Position { x: w as usize, y: p.y },
        _ => p,
    }
}

/// Where a sequence of keys, taken in order, moves the cursor.
pub open spec fn apply_keys(p: Position, s: Size, keys: Seq<Key>) -> Position
    decreases keys.len(),
{
    if keys.len() == 0 {
        p
    } else {
        apply_keys(moved(p, s, keys[0]), s, keys.subrange(1, keys.len() as int))
    }
}

/// The new cursor for one key, computed with saturating arithmetic.
pub fn next_position(p: Position, s: Size, key: Key) -> (r: Position)
    ensures
        r == moved(p, s, key),
{
    let mut x = p.x;
    let mut y = p.y;
    let width: usize = if s.width > 0 { (s.width - 1) as usize } else { 0 };
    let height: usize = if s.height > 1 { (s.height - 2) as usize } else { 0 };
    match key {
        Key::Up => {
            y = y.saturating_sub(1);
        },
        Key::Down => {
            if y < height {
                y = y + 1;
            }
        },
        Key::Left => {
            if x == 0 && y > 0 {
                y = y - 1;
                x = width.saturating_sub(1);
            }
            x = x.saturating_sub(1);
        },
        Key::Right => {
            if x < width {
                x = x + 1;
            } else if y < height {
                y = y + 1;
                x = 0;
            }
        },
        Key::PageUp => {
            y = 0;
        },
        Key::PageDown => {
            y = height;
        },
        Key::Home => {
            x = 0;
        },
        Key::End => {
            x = width;
        },
        _ => {},
    }
    Position { x, y }
}

/// One key never takes a cursor that lies in the viewport out of it.
pub proof fn lemma_move_stays_in_view(p: Position, s: Size, k: Key)
    requires
        in_view(p, s),
    ensures
        in_view(moved(p, s, k), s),
{
}

/// Any sequence of keys keeps a cursor that starts in the viewport inside it:
/// the column stays within `0..=width-1` and the row within `0..=height-2`,
/// leaving the bottom row free.
pub proof fn lemma_keys_stay_in_view(p: Position, s: Size, keys: Seq<Key>)
    requires
        in_view(p, s),
    ensures
        in_view(apply_keys(p, s, keys), s),
    decreases keys.len(),
{
    if keys.len() > 0 {
        lemma_move_stays_in_view(p, s, keys[0]);
        lemma_keys_stay_in_view(moved(p, s, keys[0]), s, keys.subrange(1, keys.len() as int));
    }
}

/// Pressing Home any positive number of times leaves the cursor in column 0.
pub proof fn lemma_home_repeated(p: Position, s: Size, n: nat)
    requires
        n >= 1,
    ensures
        apply_keys(p, s, Seq::new(n, |i: int| Key::Home)).x == 0,
    decreases n,
{
    let ks = Seq::new(n, |i: int| Key::Home);
    let q = moved(p, s, Key::Home);
    if n == 1 {
        assert(ks.subrange(1, 1) =~= Seq::<Key>::empty());
        reveal_with_fuel(apply_keys, 2);
    } else {
        assert(ks.subrange(1, n as int) =~= Seq::new((n - 1) as nat, |i: int| Key::Home));
        lemma_home_repeated(q, s, (n - 1) as nat);
    }
}

/// Pressing PageUp any positive number of times leaves the cursor in row 0.
pub proof fn lemma_page_up_repeated(p: Position, s: Size, n: nat)
    requires
        n >= 1,
    ensures
        apply_keys(p, s, Seq::new(n, |i: int| Key::PageUp)).y == 0,
    decreases n,
{
    let ks = Seq::new(n, |i: int| Key::PageUp);
    let q = moved(p, s, Key::PageUp);
    if n == 1 {
        assert(ks.subrange(1, 1) =~= Seq::<Key>::empty());
        reveal_with_fuel(apply_keys, 2);
    } else {
        assert(ks.subrange(1, n as int) =~= Seq::new((n - 1) as nat, |i: int| Key::PageUp));
        lemma_page_up_repeated(q, s, (n - 1) as nat);
    }
}

/// Up in row 0 keeps the row at 0; Left in column 0 of a lower row goes one
/// row up, to column `width - 3` (or 0 on a terminal narrower than 3).
pub proof fn lemma_edges(p: Position, s: Size)
    ensures
        p.y == 0 ==> moved(p, s, Key::Up).y == 0,
        p.x == 0 && p.y > 0 ==> moved(p, s, Key::Left).y == p.y - 1,
        p.x == 0 && p.y > 0 && s.width >= 3 ==> moved(p, s, Key::Left).x == s.width - 3,
        p.x == 0 && p.y > 0 && s.width < 3 ==> moved(p, s, Key::Left).x == 0,
{
}

/// End then Home brings the column back to 0, and PageDown then PageUp brings
/// the row back to 0; neither pair touches the other coordinate.
pub proof fn lemma_round_trips(p: Position, s: Size)
    ensures
        moved(moved(p, s, Key::End), s, Key::Home) == (Position { x: 0, y: p.y }),
        moved(moved(p, s, Key::PageDown), s, Key::PageUp) == (Position { x: p.x, y: 0 }),
{
}

} // verus!
