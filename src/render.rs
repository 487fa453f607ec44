//! Screen rendering: drawing primitives that append ANSI/VT100 control
//! sequences to an output buffer, which is handed to the device in one write.

use vstd::prelude::*;
use crate::geometry::Geometry;

verus! {

/// `ESC [ 2 J`: erase the entire screen.
pub open spec fn erase_screen_seq() -> Seq<u8> {
    seq![0x1bu8, 0x5bu8, 0x32u8, 0x4au8]
}

/// `ESC [ H`: move the cursor to the home position.
pub open spec fn home_seq() -> Seq<u8> {
    seq![0x1bu8, 0x5bu8, 0x48u8]
}

/// `ESC [ K`: erase to the end of the line.
pub open spec fn erase_line_seq() -> Seq<u8> {
    seq![0x1bu8, 0x5bu8, 0x4bu8]
}

/// `ESC [ ? 2 5 l`: hide the cursor.
pub open spec fn hide_cursor_seq() -> Seq<u8> {
    seq![0x1bu8, 0x5bu8, 0x3fu8, 0x32u8, 0x35u8, 0x6cu8]
}

/// `ESC [ ? 2 5 h`: show the cursor.
pub open spec fn show_cursor_seq() -> Seq<u8> {
    seq![0x1bu8, 0x5bu8, 0x3fu8, 0x32u8, 0x35u8, 0x68u8]
}

/// `\r\n`: the line separator.
pub open spec fn newline_seq() -> Seq<u8> {
    seq![0x0du8, 0x0au8]
}

/// The editor's default banner, `emv editor -- version 0.1`.
pub open spec fn default_banner() -> Seq<u8> {
    seq![
        0x65u8, 0x6du8, 0x76u8, 0x20u8, 0x65u8, 0x64u8, 0x69u8, 0x74u8, 0x6fu8, 0x72u8,
        0x20u8, 0x2du8, 0x2du8, 0x20u8, 0x76u8, 0x65u8, 0x72u8, 0x73u8, 0x69u8, 0x6fu8,
        0x6eu8, 0x20u8, 0x30u8, 0x2eu8, 0x31u8,
    ]
}

/// `n` spaces.
pub open spec fn spaces(n: nat) -> Seq<u8> {
    Seq::new(n, |i: int| 0x20u8)
}

/// Number of spaces between the row marker and a banner of `len` bytes on a
/// screen of `cols` columns; zero where the banner is wider than the screen.
pub open spec fn banner_pad(cols: nat, len: nat) -> nat {
    if len <= cols {
        ((cols - len) / 2) as nat
    } else {
        0
    }
}

/// The banner as drawn on `cols` columns: whole where it is no wider than
/// the screen, else cut to the columns left beside the row marker.
pub open spec fn banner_text(cols: nat, banner: Seq<u8>) -> Seq<u8> {
    if banner.len() <= cols {
        banner
    } else if cols >= 1 {
        banner.take(cols - 1)
    } else {
        Seq::empty()
    }
}

/// The content of the banner row: marker, centring pad, banner.
pub open spec fn banner_row(cols: nat, banner: Seq<u8>) -> Seq<u8> {
    seq![0x7eu8] + spaces(banner_pad(cols, banner.len())) + banner_text(cols, banner)
}

/// Row `y` of a screen with `rows` rows and `cols` columns.
pub open spec fn row_seq(y: nat, rows: nat, cols: nat, banner: Seq<u8>) -> Seq<u8> {
    (if y == rows / 3 {
        banner_row(cols, banner)
    } else {
        seq![0x7eu8]
    }) + erase_line_seq() + (if y + 1 < rows {
        newline_seq()
    } else {
        Seq::empty()
    })
}

/// The first `n` rows of a screen with `rows` rows.
pub open spec fn rows_seq(n: nat, rows: nat, cols: nat, banner: Seq<u8>) -> Seq<u8>
    decreases n,
{
    if n == 0 {
        Seq::empty()
    } else {
        rows_seq((n - 1) as nat, rows, cols, banner) + row_seq((n - 1) as nat, rows, cols, banner)
    }
}

/// All rows of the screen of geometry `g`.
pub open spec fn screen_seq(g: Geometry, banner: Seq<u8>) -> Seq<u8> {
    rows_seq(g.rows as nat, g.rows as nat, g.cols as nat, banner)
}

/// One full refresh: hide the cursor, go home, draw every row, show the cursor.
pub open spec fn frame_seq(g: Geometry, banner: Seq<u8>) -> Seq<u8> {
    hide_cursor_seq() + home_seq() + screen_seq(g, banner) + show_cursor_seq()
}

/// Decimal digits of `n`, most significant first.
pub open spec fn decimal(n: nat) -> Seq<u8>
    decreases n,
{
    if n < 10 {
        seq![(0x30 + n) as u8]
    } else {
        decimal(n / 10).push((0x30 + n % 10) as u8)
    }
}

/// A 1-based coordinate held within `1..=hi` (and at 1 where `hi` is 0).
pub open spec fn clamp_coord(v: u16, hi: u16) -> u16 {
    if hi == 0 || v <= 1 {
        1
    } else if v > hi {
        hi
    } else {
        v
    }
}

/// `ESC [ row ; col H`: move the cursor to a 1-based position.
pub open spec fn cursor_seq(row: u16, col: u16) -> Seq<u8> {
    seq![0x1bu8, 0x5bu8] + decimal(row as nat) + seq![0x3bu8] + decimal(col as nat) + seq![0x48u8]
}

fn push_range(out: &mut Vec<u8>, bytes: &[u8], from: usize, to: usize)
    requires
        from <= to <= bytes@.len(),
    ensures
        final(out)@ == old(out)@ + bytes@.subrange(from as int, to as int),
{
    let mut i: usize = from;
    while i < to
        invariant
            from <= i <= to <= bytes@.len(),
            out@ == old(out)@ + bytes@.subrange(from as int, i as int),
        decreases to - i,
    {
        out.push(bytes[i]);
        i = i + 1;
        assert(out@ =~= old(out)@ + bytes@.subrange(from as int, i as int));
    }
}

fn push_all(out: &mut Vec<u8>, bytes: &[u8])
    ensures
        final(out)@ == old(out)@ + bytes@,
{
    push_range(out, bytes, 0, bytes.len());
    assert(bytes@.subrange(0, bytes@.len() as int) =~= bytes@);
}

fn push_spaces(out: &mut Vec<u8>, n: usize)
    ensures
        final(out)@ == old(out)@ + spaces(n as nat),
{
    let mut i: usize = 0;
    while i < n
        invariant
            i <= n,
            out@ == old(out)@ + spaces(i as nat),
        decreases n - i,
    {
        out.push(0x20);
        i = i + 1;
        assert(out@ =~= old(out)@ + spaces(i as nat));
    }
}

fn push_decimal(out: &mut Vec<u8>, n: u16)
    ensures
        final(out)@ == old(out)@ + decimal(n as nat),
    decreases n,
{
    if n < 10 {
        out.push(0x30 + n as u8);
        assert(out@ =~= old(out)@ + decimal(n as nat));
    } else {
        push_decimal(out, n / 10);
        out.push(0x30 + (n % 10) as u8);
        assert(out@ =~= old(out)@ + decimal(n as nat));
    }
}

fn clamp_coord_exec(v: u16, hi: u16) -> (r: u16)
    ensures
        r == clamp_coord(v, hi),
        1 <= r,
        hi >= 1 ==> r <= hi,
{
    if hi == 0 || v <= 1 {
        1
    } else if v > hi {
        hi
    } else {
        v
    }
}

fn push_row(out: &mut Vec<u8>, y: u16, rows: u16, cols: u16, banner: &Vec<u8>)
    ensures
        final(out)@ == old(out)@ + row_seq(y as nat, rows as nat, cols as nat, banner@),
{
    if y == rows / 3 {
        out.push(0x7e);
        let len = banner.len();
        let c = cols as usize;
        if len <= c {
            push_spaces(out, (c - len) / 2);
            push_all(out, banner.as_slice());
        } else if c >= 1 {
            push_spaces(out, 0);
            push_range(out, banner.as_slice(), 0, c - 1);
            assert(banner@.subrange(0, c - 1) =~= banner@.take(c - 1));
        } else {
            push_spaces(out, 0);
        }
        assert(out@ =~= old(out)@ + banner_row(cols as nat, banner@));
    } else {
        out.push(0x7e);
    }
    push_all(out, &[0x1b, 0x5b, 0x4b]);
    if y < rows && y + 1 < rows {
        push_all(out, &[0x0d, 0x0a]);
    }
    assert(out@ =~= old(out)@ + row_seq(y as nat, rows as nat, cols as nat, banner@));
}

/// `out` is what a refresh of `before` hands out, and `after` the renderer
/// it leaves.
pub open spec fn refreshed(before: Renderer, after: Renderer, out: Seq<u8>) -> bool {
    &&& out == before.pending() + frame_seq(before.geom(), before.banner_bytes())
    &&& after.pending() == Seq::<u8>::empty()
    &&& after.geom() == before.geom()
    &&& after.banner_bytes() == before.banner_bytes()
}

/// Two refreshes in a row, with nothing drawn before the first, hand out
/// identical bytes.
pub proof fn lemma_refresh_repeatable(
    first: Renderer,
    second: Renderer,
    third: Renderer,
    out1: Seq<u8>,
    out2: Seq<u8>,
)
    requires
        first.pending() == Seq::<u8>::empty(),
        refreshed(first, second, out1),
        refreshed(second, third, out2),
    ensures
        out1 == out2,
{
    assert(out1 =~= out2);
}

/// A banner no wider than the screen stands whole after `(cols - len) / 2`
/// spaces; a wider one is cut so that the row fills the screen exactly. The
/// row spills past the width only when the banner is exactly as wide as the
/// screen, by the row marker's one column.
pub proof fn lemma_banner_row_fits(cols: nat, banner: Seq<u8>)
    requires
        cols >= 1,
    ensures
        banner.len() <= cols ==> banner_row(cols, banner) == seq![0x7eu8] + spaces(
            ((cols - banner.len()) / 2) as nat,
        ) + banner,
        banner.len() < cols ==> banner_row(cols, banner).len() <= cols,
        banner.len() == cols ==> banner_row(cols, banner).len() == cols + 1,
        banner.len() > cols ==> banner_row(cols, banner).len() == cols,
{
}

/// Builds the screen's output: each drawing call appends to a pending
/// buffer, which leaves as a whole through `take_output` or `refresh`.
pub struct Renderer {
    out: Vec<u8>,
    geometry: Geometry,
    banner: Vec<u8>,
}

impl Renderer {
    /// Bytes drawn but not yet handed out.
    pub closed spec fn pending(&self) -> Seq<u8> {
        self.out@
    }

    /// The geometry that drawing follows.
    pub closed spec fn geom(&self) -> Geometry {
        self.geometry
    }

    /// The banner drawn at one third of the screen's height.
    pub closed spec fn banner_bytes(&self) -> Seq<u8> {
        self.banner@
    }

    /// A renderer for `geometry`, with the editor's default banner and
    /// nothing pending.
    pub fn new(geometry: Geometry) -> (r: Renderer)
        ensures
            r.pending() == Seq::<u8>::empty(),
            r.geom() == geometry,
            r.banner_bytes() == default_banner(),
    {
        let mut banner: Vec<u8> = Vec::new();
        push_all(
            &mut banner,
            &[
                0x65, 0x6d, 0x76, 0x20, 0x65, 0x64, 0x69, 0x74, 0x6f, 0x72, 0x20, 0x2d, 0x2d,
                0x20, 0x76, 0x65, 0x72, 0x73, 0x69, 0x6f, 0x6e, 0x20, 0x30, 0x2e, 0x31,
            ],
        );
        assert(banner@ =~= default_banner());
        Renderer { out: Vec::new(), geometry, banner }
    }

    /// A renderer for `geometry` that draws `banner`, with nothing pending.
    pub fn with_banner(geometry: Geometry, banner: Vec<u8>) -> (r: Renderer)
        ensures
            r.pending() == Seq::<u8>::empty(),
            r.geom() == geometry,
            r.banner_bytes() == banner@,
    {
        Renderer { out: Vec::new(), geometry, banner }
    }

    /// The geometry that drawing follows.
    pub fn geometry(&self) -> (r: Geometry)
        ensures
            r == self.geom(),
    {
        self.geometry
    }

    /// Follows a new geometry from now on, after a resize.
    pub fn set_geometry(&mut self, geometry: Geometry)
        ensures
            final(self).geom() == geometry,
            final(self).pending() == old(self).pending(),
            final(self).banner_bytes() == old(self).banner_bytes(),
    {
        self.geometry = geometry;
    }

    /// The bytes drawn but not yet handed out.
    pub fn output(&self) -> (r: &Vec<u8>)
        ensures
            r@ == self.pending(),
    {
        &self.out
    }

    /// Hands out everything drawn so far and empties the buffer.
    pub fn take_output(&mut self) -> (r: Vec<u8>)
        ensures
            r@ == old(self).pending(),
            final(self).pending() == Seq::<u8>::empty(),
            final(self).geom() == old(self).geom(),
            final(self).banner_bytes() == old(self).banner_bytes(),
    {
        let mut r: Vec<u8> = Vec::new();
        std::mem::swap(&mut r, &mut self.out);
        r
    }

    /// Appends: erase the screen, then move the cursor home.
    pub fn clear_screen(&mut self)
        ensures
            final(self).pending() == old(self).pending() + erase_screen_seq() + home_seq(),
            final(self).geom() == old(self).geom(),
            final(self).banner_bytes() == old(self).banner_bytes(),
    {
        push_all(&mut self.out, &[0x1b, 0x5b, 0x32, 0x4a]);
        push_all(&mut self.out, &[0x1b, 0x5b, 0x48]);
    }

    /// Appends the sequence that moves the cursor home.
    pub fn cursor_home(&mut self)
        ensures
            final(self).pending() == old(self).pending() + home_seq(),
            final(self).geom() == old(self).geom(),
            final(self).banner_bytes() == old(self).banner_bytes(),
    {
        push_all(&mut self.out, &[0x1b, 0x5b, 0x48]);
    }

    /// Appends the sequence that hides the cursor.
    pub fn hide_cursor(&mut self)
        ensures
            final(self).pending() == old(self).pending() + hide_cursor_seq(),
            final(self).geom() == old(self).geom(),
            final(self).banner_bytes() == old(self).banner_bytes(),
    {
        push_all(&mut self.out, &[0x1b, 0x5b, 0x3f, 0x32, 0x35, 0x6c]);
    }

    /// Appends the sequence that shows the cursor.
    pub fn show_cursor(&mut self)
        ensures
            final(self).pending() == old(self).pending() + show_cursor_seq(),
            final(self).geom() == old(self).geom(),
            final(self).banner_bytes() == old(self).banner_bytes(),
    {
        push_all(&mut self.out, &[0x1b, 0x5b, 0x3f, 0x32, 0x35, 0x68]);
    }

    /// Appends a move of the cursor to the 1-based `(row, col)`, each held
    /// within the screen.
    pub fn move_cursor(&mut self, row: u16, col: u16)
        ensures
            final(self).pending() == old(self).pending() + cursor_seq(
                clamp_coord(row, old(self).geom().rows),
                clamp_coord(col, old(self).geom().cols),
            ),
            final(self).geom() == old(self).geom(),
            final(self).banner_bytes() == old(self).banner_bytes(),
    {
        let r = clamp_coord_exec(row, self.geometry.rows);
        let c = clamp_coord_exec(col, self.geometry.cols);
        push_all(&mut self.out, &[0x1b, 0x5b]);
        push_decimal(&mut self.out, r);
        push_all(&mut self.out, &[0x3b]);
        push_decimal(&mut self.out, c);
        push_all(&mut self.out, &[0x48]);
        assert(self.out@ =~= old(self).out@ + cursor_seq(r, c));
    }

    /// Appends every row of the screen: a `~` marker and an erase to the end
    /// of the line on each, a line separator between rows, and the banner
    /// centred on the row at one third of the height.
    pub fn draw_rows(&mut self)
        ensures
            final(self).pending() == old(self).pending() + screen_seq(
                old(self).geom(),
                old(self).banner_bytes(),
            ),
            final(self).geom() == old(self).geom(),
            final(self).banner_bytes() == old(self).banner_bytes(),
    {
        let rows = self.geometry.rows;
        let cols = self.geometry.cols;
        let mut y: u16 = 0;
        while y < rows
            invariant
                y <= rows,
                rows == self.geometry.rows,
                cols == self.geometry.cols,
                self.geometry == old(self).geometry,
                self.banner@ == old(self).banner@,
                self.out@ == old(self).out@ + rows_seq(
                    y as nat,
                    rows as nat,
                    cols as nat,
                    self.banner@,
                ),
            decreases rows - y,
        {
            push_row(&mut self.out, y, rows, cols, &self.banner);
            y = y + 1;
            assert(self.out@ =~= old(self).out@ + rows_seq(
                y as nat,
                rows as nat,
                cols as nat,
                self.banner@,
            ));
        }
    }

    /// One full redraw, handed out at once: hide the cursor, move home, draw
    /// every row, show the cursor; whatever was pending goes first.
    pub fn refresh(&mut self) -> (r: Vec<u8>)
        ensures
            refreshed(*old(self), *final(self), r@),
    {
        self.hide_cursor();
        self.cursor_home();
        self.draw_rows();
        self.show_cursor();
        let r = self.take_output();
        assert(r@ =~= old(self).pending() + frame_seq(old(self).geom(), old(self).banner_bytes()));
        r
    }
}

} // verus!
