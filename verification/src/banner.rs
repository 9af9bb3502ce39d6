//! The start-up banner: the animated wordmark and the block-letter logo.

use vstd::prelude::*;
use crate::text::{cat, spec_decimal, u64_decimal};

verus! {

/// An RGB colour.
pub type Rgb = (u8, u8, u8);

/// The terminal reset sequence.
pub const RESET: &'static str = "\x1b[0m";

/// Lightest brand blue.
pub open spec fn spec_c1() -> Rgb {
    (142u8, 197u8, 255u8)
}

/// Lightest brand blue.
pub fn c1() -> (res: Rgb)
    ensures
        res == spec_c1(),
{
    (142, 197, 255)
}

/// Light brand blue.
pub open spec fn spec_c2() -> Rgb {
    (43u8, 127u8, 255u8)
}

/// Light brand blue.
pub fn c2() -> (res: Rgb)
    ensures
        res == spec_c2(),
{
    (43, 127, 255)
}

/// Brand blue.
pub open spec fn spec_c3() -> Rgb {
    (21u8, 93u8, 252u8)
}

/// Brand blue.
pub fn c3() -> (res: Rgb)
    ensures
        res == spec_c3(),
{
    (21, 93, 252)
}

/// Dark brand blue.
pub open spec fn spec_c4() -> Rgb {
    (20u8, 71u8, 230u8)
}

/// Dark brand blue.
pub fn c4() -> (res: Rgb)
    ensures
        res == spec_c4(),
{
    (20, 71, 230)
}

/// Darkest brand blue.
pub open spec fn spec_c5() -> Rgb {
    (25u8, 60u8, 184u8)
}

/// Darkest brand blue.
pub fn c5() -> (res: Rgb)
    ensures
        res == spec_c5(),
{
    (25, 60, 184)
}

/// Text in a 24-bit foreground colour, followed by a reset.
pub open spec fn spec_paint(color: Rgb, text: Seq<char>) -> Seq<char> {
    "\x1b[38;2;"@ + spec_decimal(color.0 as nat) + ";"@ + spec_decimal(color.1 as nat) + ";"@
        + spec_decimal(color.2 as nat) + "m"@ + text + RESET@
}

/// Colours text for a true-colour terminal.
pub fn paint(color: Rgb, text: &str) -> (res: String)
    ensures
        res@ == spec_paint(color, text@),
{
    let (r, g, b) = color;
    let rs = u64_decimal(r as u64);
    let gs = u64_decimal(g as u64);
    let bs = u64_decimal(b as u64);
    let mut out = cat("\x1b[38;2;", rs.as_str());
    out.append(";");
    out.append(gs.as_str());
    out.append(";");
    out.append(bs.as_str());
    out.append("m");
    out.append(text);
    out.append(RESET);
    out
}

/// The letters of the animated wordmark.
pub open spec fn spec_wordmark() -> Seq<char> {
    seq!['f', 'i', 'e', 'l', 'd', 'm', 'i', 'd']
}

/// The colour cycle of the wordmark: light to dark and back.
pub open spec fn spec_wordmark_color(index: nat) -> Rgb {
    let k = index % 8;
    if k == 0 {
        spec_c1()
    } else if k == 1 || k == 7 {
        spec_c2()
    } else if k == 2 || k == 6 {
        spec_c3()
    } else if k == 3 || k == 5 {
        spec_c4()
    } else {
        spec_c5()
    }
}

/// The colour of the wordmark letter at `index`.
pub fn wordmark_color(index: usize) -> (res: Rgb)
    ensures
        res == spec_wordmark_color(index as nat),
{
    let k = index % 8;
    if k == 0 {
        c1()
    } else if k == 1 || k == 7 {
        c2()
    } else if k == 2 || k == 6 {
        c3()
    } else if k == 3 || k == 5 {
        c4()
    } else {
        c5()
    }
}

/// The letters of the wordmark, each painted in its colour of the cycle.
pub fn wordmark_letters() -> (res: Vec<String>)
    ensures
        res.len() == 8,
        forall|i: int| 0 <= i < 8 ==> (#[trigger] res@[i])@ == spec_paint(spec_wordmark_color(i as nat), seq![spec_wordmark()[i]]),
{
    let letters = "fieldmid";
    proof {
        reveal_strlit("fieldmid");
    }
    let cs = crate::text::chars_of(letters);
    assert(cs@ =~= spec_wordmark());
    let mut out: Vec<String> = Vec::new();
    let mut i: usize = 0;
    while i < 8
        invariant
            i <= 8,
            cs@ == spec_wordmark(),
            out.len() == i,
            forall|k: int| 0 <= k < i ==> (#[trigger] out@[k])@ == spec_paint(spec_wordmark_color(k as nat), seq![spec_wordmark()[k]]),
        decreases 8 - i,
    {
        let mut letter = String::new();
        crate::text::push_char(&mut letter, cs[i]);
        assert(letter@ =~= seq![spec_wordmark()[i as int]]);
        let painted = paint(wordmark_color(i), letter.as_str());
        out.push(painted);
        i = i + 1;
    }
    out
}

/// The colour and text of each cell of the block-letter logo, row by row.
pub open spec fn spec_banner_cell(row: int, col: int) -> (Rgb, Seq<char>) {
    if row == 0 && col == 0 {
        (spec_c5(), "███████╗"@)
    } else if row == 0 && col == 1 {
        (spec_c4(), "██╗"@)
    } else if row == 0 && col == 2 {
        (spec_c3(), "███████╗"@)
    } else if row == 0 && col == 3 {
        (spec_c4(), "██╗     "@)
    } else if row == 0 && col == 4 {
        (spec_c3(), "██████╗ "@)
    } else if row == 0 && col == 5 {
        (spec_c2(), "███╗   ███╗"@)
    } else if row == 0 && col == 6 {
        (spec_c1(), "██╗"@)
    } else if row == 0 && col == 7 {
        (spec_c3(), "██████╗ "@)
    } else if row == 1 && col == 0 {
        (spec_c5(), "██╔════╝"@)
    } else if row == 1 && col == 1 {
        (spec_c4(), "██║"@)
    } else if row == 1 && col == 2 {
        (spec_c3(), "██╔════╝"@)
    } else if row == 1 && col == 3 {
        (spec_c4(), "██║     "@)
    } else if row == 1 && col == 4 {
        (spec_c3(), "██╔══██╗"@)
    } else if row == 1 && col == 5 {
        (spec_c2(), "████╗ ████║"@)
    } else if row == 1 && col == 6 {
        (spec_c1(), "██║"@)
    } else if row == 1 && col == 7 {
        (spec_c3(), "██╔══██╗"@)
    } else if row == 2 && col == 0 {
        (spec_c4(), "█████╗  "@)
    } else if row == 2 && col == 1 {
        (spec_c3(), "██║"@)
    } else if row == 2 && col == 2 {
        (spec_c2(), "█████╗  "@)
    } else if row == 2 && col == 3 {
        (spec_c3(), "██║     "@)
    } else if row == 2 && col == 4 {
        (spec_c4(), "██║  ██║"@)
    } else if row == 2 && col == 5 {
        (spec_c2(), "██╔████╔██║"@)
    } else if row == 2 && col == 6 {
        (spec_c1(), "██║"@)
    } else if row == 2 && col == 7 {
        (spec_c4(), "██║  ██║"@)
    } else if row == 3 && col == 0 {
        (spec_c3(), "██╔══╝  "@)
    } else if row == 3 && col == 1 {
        (spec_c4(), "██║"@)
    } else if row == 3 && col == 2 {
        (spec_c4(), "██╔══╝  "@)
    } else if row == 3 && col == 3 {
        (spec_c2(), "██║     "@)
    } else if row == 3 && col == 4 {
        (spec_c3(), "██║  ██║"@)
    } else if row == 3 && col == 5 {
        (spec_c4(), "██║╚██╔╝██║"@)
    } else if row == 3 && col == 6 {
        (spec_c2(), "██║"@)
    } else if row == 3 && col == 7 {
        (spec_c3(), "██║  ██║"@)
    } else if row == 4 && col == 0 {
        (spec_c2(), "██║     "@)
    } else if row == 4 && col == 1 {
        (spec_c3(), "██║"@)
    } else if row == 4 && col == 2 {
        (spec_c4(), "███████╗"@)
    } else if row == 4 && col == 3 {
        (spec_c3(), "███████╗"@)
    } else if row == 4 && col == 4 {
        (spec_c2(), "██████╔╝"@)
    } else if row == 4 && col == 5 {
        (spec_c3(), "██║ ╚═╝ ██║"@)
    } else if row == 4 && col == 6 {
        (spec_c4(), "██║"@)
    } else if row == 4 && col == 7 {
        (spec_c5(), "██████╔╝"@)
    } else if row == 5 && col == 0 {
        (spec_c1(), "╚═╝     "@)
    } else if row == 5 && col == 1 {
        (spec_c2(), "╚═╝"@)
    } else if row == 5 && col == 2 {
        (spec_c3(), "╚══════╝"@)
    } else if row == 5 && col == 3 {
        (spec_c4(), "╚══════╝"@)
    } else if row == 5 && col == 4 {
        (spec_c3(), "╚═════╝ "@)
    } else if row == 5 && col == 5 {
        (spec_c5(), "╚═╝     ╚═╝"@)
    } else if row == 5 && col == 6 {
        (spec_c4(), "╚═╝"@)
    } else if row == 5 && col == 7 {
        (spec_c5(), "╚═════╝ "@)
    } else {
        (spec_c1(), Seq::empty())
    }
}

/// The colour and text of one cell of the logo.
pub fn banner_cell(row: usize, col: usize) -> (res: (Rgb, &'static str))
    requires
        row < 6,
        col < 8,
    ensures
        (res.0, res.1@) == spec_banner_cell(row as int, col as int),
{
    if row == 0 && col == 0 {
        (c5(), "███████╗")
    } else if row == 0 && col == 1 {
        (c4(), "██╗")
    } else if row == 0 && col == 2 {
        (c3(), "███████╗")
    } else if row == 0 && col == 3 {
        (c4(), "██╗     ")
    } else if row == 0 && col == 4 {
        (c3(), "██████╗ ")
    } else if row == 0 && col == 5 {
        (c2(), "███╗   ███╗")
    } else if row == 0 && col == 6 {
        (c1(), "██╗")
    } else if row == 0 && col == 7 {
        (c3(), "██████╗ ")
    } else if row == 1 && col == 0 {
        (c5(), "██╔════╝")
    } else if row == 1 && col == 1 {
        (c4(), "██║")
    } else if row == 1 && col == 2 {
        (c3(), "██╔════╝")
    } else if row == 1 && col == 3 {
        (c4(), "██║     ")
    } else if row == 1 && col == 4 {
        (c3(), "██╔══██╗")
    } else if row == 1 && col == 5 {
        (c2(), "████╗ ████║")
    } else if row == 1 && col == 6 {
        (c1(), "██║")
    } else if row == 1 && col == 7 {
        (c3(), "██╔══██╗")
    } else if row == 2 && col == 0 {
        (c4(), "█████╗  ")
    } else if row == 2 && col == 1 {
        (c3(), "██║")
    } else if row == 2 && col == 2 {
        (c2(), "█████╗  ")
    } else if row == 2 && col == 3 {
        (c3(), "██║     ")
    } else if row == 2 && col == 4 {
        (c4(), "██║  ██║")
    } else if row == 2 && col == 5 {
        (c2(), "██╔████╔██║")
    } else if row == 2 && col == 6 {
        (c1(), "██║")
    } else if row == 2 && col == 7 {
        (c4(), "██║  ██║")
    } else if row == 3 && col == 0 {
        (c3(), "██╔══╝  ")
    } else if row == 3 && col == 1 {
        (c4(), "██║")
    } else if row == 3 && col == 2 {
        (c4(), "██╔══╝  ")
    } else if row == 3 && col == 3 {
        (c2(), "██║     ")
    } else if row == 3 && col == 4 {
        (c3(), "██║  ██║")
    } else if row == 3 && col == 5 {
        (c4(), "██║╚██╔╝██║")
    } else if row == 3 && col == 6 {
        (c2(), "██║")
    } else if row == 3 && col == 7 {
        (c3(), "██║  ██║")
    } else if row == 4 && col == 0 {
        (c2(), "██║     ")
    } else if row == 4 && col == 1 {
        (c3(), "██║")
    } else if row == 4 && col == 2 {
        (c4(), "███████╗")
    } else if row == 4 && col == 3 {
        (c3(), "███████╗")
    } else if row == 4 && col == 4 {
        (c2(), "██████╔╝")
    } else if row == 4 && col == 5 {
        (c3(), "██║ ╚═╝ ██║")
    } else if row == 4 && col == 6 {
        (c4(), "██║")
    } else if row == 4 && col == 7 {
        (c5(), "██████╔╝")
    } else if row == 5 && col == 0 {
        (c1(), "╚═╝     ")
    } else if row == 5 && col == 1 {
        (c2(), "╚═╝")
    } else if row == 5 && col == 2 {
        (c3(), "╚══════╝")
    } else if row == 5 && col == 3 {
        (c4(), "╚══════╝")
    } else if row == 5 && col == 4 {
        (c3(), "╚═════╝ ")
    } else if row == 5 && col == 5 {
        (c5(), "╚═╝     ╚═╝")
    } else if row == 5 && col == 6 {
        (c4(), "╚═╝")
    } else if row == 5 && col == 7 {
        (c5(), "╚═════╝ ")
    } else {
        (c1(), "")
    }
}

/// A row of the logo: its eight cells, each painted in its colour.
pub open spec fn spec_banner_row(row: int, upto: int) -> Seq<char>
    decreases upto,
{
    if upto <= 0 {
        Seq::empty()
    } else {
        spec_banner_row(row, upto - 1) + spec_paint(spec_banner_cell(row, upto - 1).0, spec_banner_cell(row, upto - 1).1)
    }
}

/// The painted text of one row of the logo.
pub fn banner_row(row: usize) -> (res: String)
    requires
        row < 6,
    ensures
        res@ == spec_banner_row(row as int, 8),
{
    let mut out = String::new();
    let mut col: usize = 0;
    while col < 8
        invariant
            row < 6,
            col <= 8,
            out@ == spec_banner_row(row as int, col as int),
        decreases 8 - col,
    {
        let (color, text) = banner_cell(row, col);
        let painted = paint(color, text);
        out.append(painted.as_str());
        col = col + 1;
    }
    out
}

/// The six painted rows of the logo.
pub fn banner_rows() -> (res: Vec<String>)
    ensures
        res.len() == 6,
        forall|r: int| 0 <= r < 6 ==> (#[trigger] res@[r])@ == spec_banner_row(r, 8),
{
    let mut out: Vec<String> = Vec::new();
    let mut r: usize = 0;
    while r < 6
        invariant
            r <= 6,
            out.len() == r,
            forall|k: int| 0 <= k < r ==> (#[trigger] out@[k])@ == spec_banner_row(k, 8),
        decreases 6 - r,
    {
        out.push(banner_row(r));
        r = r + 1;
    }
    out
}

/// The cells of one row of the logo, left to right.
pub open spec fn spec_row_cells(row: int) -> Seq<(Rgb, Seq<char>)> {
    Seq::new(8, |col: int| spec_banner_cell(row, col))
}

/// Cells painted one after another.
pub open spec fn spec_paint_cells(cells: Seq<(Rgb, Seq<char>)>) -> Seq<char>
    decreases cells.len(),
{
    if cells.len() == 0 {
        Seq::empty()
    } else {
        spec_paint_cells(cells.drop_last()) + spec_paint(cells.last().0, cells.last().1)
    }
}

/// The cells of one row of the logo, for a display that colours each cell itself.
pub fn banner_row_cells(row: usize) -> (res: Vec<(Rgb, &'static str)>)
    requires
        row < 6,
    ensures
        res.len() == 8,
        forall|col: int| 0 <= col < 8 ==> ((#[trigger] res@[col]).0, res@[col].1@) == spec_row_cells(row as int)[col],
{
    let mut out: Vec<(Rgb, &'static str)> = Vec::new();
    let mut col: usize = 0;
    while col < 8
        invariant
            row < 6,
            col <= 8,
            out.len() == col,
            forall|k: int| 0 <= k < col ==> ((#[trigger] out@[k]).0, out@[k].1@) == spec_banner_cell(row as int, k),
        decreases 8 - col,
    {
        out.push(banner_cell(row, col));
        col = col + 1;
    }
    out
}

/// Painting the cells of a row of the logo one after another gives exactly
/// the printed row: a display built from the cells shows the same text in the
/// same colours as the printed banner.
pub proof fn lemma_row_cells_paint_banner_row(row: int)
    ensures
        spec_paint_cells(spec_row_cells(row)) == spec_banner_row(row, 8),
{
    lemma_row_cells_prefix(row, 8);
    assert(spec_row_cells(row).take(8) =~= spec_row_cells(row));
}

proof fn lemma_row_cells_prefix(row: int, k: int)
    requires
        0 <= k <= 8,
    ensures
        spec_paint_cells(spec_row_cells(row).take(k)) == spec_banner_row(row, k),
    decreases k,
{
    if k > 0 {
        lemma_row_cells_prefix(row, k - 1);
        let cells = spec_row_cells(row).take(k);
        assert(cells.drop_last() =~= spec_row_cells(row).take(k - 1));
        assert(cells.last() == spec_banner_cell(row, k - 1));
    }
}

} // verus!
