use vstd::prelude::*;

use crate::buffer::rows_view;
use crate::row::{render_of, spaces, Row};
use crate::text::{chars_of, clip, prefix_string, string_of};

verus! {

/// The line shown beyond the end of the document: product name and version.
pub const BANNER: &'static str = "KIRA editor ---0.1.0";

/// The banner's characters.
pub open spec fn banner_text() -> Seq<char> {
    BANNER@
}

/// The banner line on a terminal `w` columns wide: the banner cut to the width, centred
/// after a `~` marker where it leaves room to spare, else starting at column 0.
pub open spec fn banner_line(w: nat) -> Seq<char> {
    let d = clip(banner_text(), w);
    if d.len() < w {
        let left = ((w - d.len()) / 2) as nat;
        if left == 0 {
            d
        } else {
            seq!['~'] + spaces((left - 1) as nat) + d
        }
    } else {
        d
    }
}

/// Terminal row `r` of a `w` by `h` terminal showing `rows`: the document row of the same
/// index in display form, cut to the width; past the document, a `~` marker, except on
/// the last terminal row, which holds the banner.
pub open spec fn screen_line(rows: Seq<Seq<char>>, w: nat, h: nat, r: nat) -> Seq<char> {
    if r < rows.len() {
        clip(render_of(rows[r as int]), w)
    } else if r + 1 == h {
        banner_line(w)
    } else {
        seq!['~']
    }
}

/// The terminal's size, captured once.
#[derive(Clone, Copy, Debug, PartialEq, Eq, Structural)]
pub struct Screen {
    pub width: u16,
    pub height: u16,
}

impl Screen {
    /// A screen `width` columns wide and `height` rows high.
    pub fn new(width: u16, height: u16) -> (r: Screen)
        ensures
            r.width == width,
            r.height == height,
    {
        Screen { width, height }
    }

    /// The text of each terminal row, top to bottom, each drawn from column 0.
    pub fn draw_rows(&self, erows: &Vec<Row>) -> (r: Vec<String>)
        ensures
            r@.len() == self.height,
            forall|i: int|
                0 <= i < self.height ==> #[trigger] r@[i]@ == screen_line(
                    rows_view(erows@),
                    self.width as nat,
                    self.height as nat,
                    i as nat,
                ),
    {
        let mut lines: Vec<String> = Vec::new();
        let mut row: u16 = 0;
        while row < self.height
            invariant
                row <= self.height,
                lines@.len() == row,
                forall|i: int|
                    0 <= i < row ==> #[trigger] lines@[i]@ == screen_line(
                        rows_view(erows@),
                        self.width as nat,
                        self.height as nat,
                        i as nat,
                    ),
            decreases self.height - row,
        {
            let line = if (row as usize) < erows.len() {
                let shown = Row::render_row(erows[row as usize].chars());
                prefix_string(&shown, self.width as usize)
            } else if row == self.height - 1 {
                self.banner_line()
            } else {
                string_of(&vec!['~'])
            };
            lines.push(line);
            row += 1;
        }
        lines
    }

    /// The banner line at this screen's width.
    fn banner_line(&self) -> (r: String)
        ensures
            r@ == banner_line(self.width as nat),
    {
        let banner = chars_of(BANNER);
        let w = self.width as usize;
        let d_len: usize = if banner.len() < w { banner.len() } else { w };
        if d_len < w {
            let left = (w - d_len) / 2;
            if left == 0 {
                prefix_string(&banner, w)
            } else {
                let mut line: Vec<char> = vec!['~'];
                let mut k: usize = 1;
                while k < left
                    invariant
                        1 <= k <= left,
                        line@ == seq!['~'] + spaces((k - 1) as nat),
                    decreases left - k,
                {
                    line.push(' ');
                    assert(line@ =~= seq!['~'] + spaces(k as nat));
                    k += 1;
                }
                let mut j: usize = 0;
                let ghost start = line@;
                while j < banner.len()
                    invariant
                        j <= banner@.len(),
                        line@ == start + banner@.take(j as int),
                    decreases banner@.len() - j,
                {
                    line.push(banner[j]);
                    assert(banner@.take(j + 1) =~= banner@.take(j as int).push(banner@[j as int]));
                    j += 1;
                }
                assert(banner@.take(banner@.len() as int) =~= banner@);
                string_of(&line)
            }
        } else {
            prefix_string(&banner, w)
        }
    }
}

} // verus!
