//! Popup window layout.
//!
//! Hook actions show their output in a centered popup over the terminal.
//! Drawing, input handling and clearing are the caller's; what is computed
//! and proved here is the layout: how the content splits into lines, and the
//! window's size and position on a terminal of a given geometry.

use vstd::prelude::*;
use vstd::string::StrSliceExecFns;

verus! {

/// Split at every newline; the result always holds at least one piece.
pub open spec fn spec_split_nl(s: Seq<char>) -> Seq<Seq<char>>
    decreases s.len(),
{
    if s.len() == 0 {
        seq![Seq::<char>::empty()]
    } else {
        let rest = spec_split_nl(s.drop_last());
        if s.last() == '\n' {
            rest.push(Seq::empty())
        } else {
            rest.update(rest.len() - 1, rest.last().push(s.last()))
        }
    }
}

pub proof fn lemma_split_nl_nonempty(s: Seq<char>)
    ensures
        spec_split_nl(s).len() >= 1,
    decreases s.len(),
{
    if s.len() > 0 {
        lemma_split_nl_nonempty(s.drop_last());
    }
}

/// Drop one trailing carriage return, as text lines are read.
pub open spec fn strip_cr(t: Seq<char>) -> Seq<char> {
    if t.len() > 0 && t.last() == '\r' {
        t.drop_last()
    } else {
        t
    }
}

/// The lines of a text: the pieces between newlines, with a final empty
/// piece dropped and one trailing carriage return stripped from each line.
pub open spec fn spec_lines(s: Seq<char>) -> Seq<Seq<char>> {
    let parts = spec_split_nl(s);
    let kept = if parts.last().len() == 0 {
        parts.drop_last()
    } else {
        parts
    };
    kept.map_values(|t: Seq<char>| strip_cr(t))
}

/// The length of the longest line; zero when there are none.
pub open spec fn spec_max_len(ls: Seq<Seq<char>>) -> nat
    decreases ls.len(),
{
    if ls.len() == 0 {
        0
    } else {
        let m = spec_max_len(ls.drop_last());
        if ls.last().len() > m {
            ls.last().len()
        } else {
            m
        }
    }
}

/// The views of a vector of lines.
pub open spec fn line_views(ls: Seq<String>) -> Seq<Seq<char>> {
    ls.map_values(|l: String| l@)
}

/// Cap a length so the later additions still fit a terminal dimension.
pub open spec fn cap_at(n: nat, cap: nat) -> nat {
    if n > cap {
        cap
    } else {
        n
    }
}

/// A popup is as wide as its widest line or its title, whichever is larger,
/// plus two border columns and two padding columns on the sides.
pub open spec fn spec_popup_width(title_len: nat, widest: nat) -> nat {
    let c = cap_at(widest, 65531) + 4;
    let t = cap_at(title_len, 65531) + 4;
    if c >= t {
        c
    } else {
        t
    }
}

/// An input popup is never narrower than sixty columns, so there is room to
/// type.
pub open spec fn spec_input_popup_width(title_len: nat, widest: nat) -> nat {
    let w = spec_popup_width(title_len, widest);
    if w >= 60 {
        w
    } else {
        60
    }
}

/// A popup is as tall as its content plus the border, title and padding
/// rows: four of them, six for an input popup with its input row.
pub open spec fn spec_popup_height(n_lines: nat, extra: nat) -> nat {
    cap_at(n_lines, (65535 - extra) as nat) + extra
}

/// Centering on one axis: half the leftover space, and zero when the window
/// would not fit.
pub open spec fn spec_centered(total: u16, dim: u16) -> u16 {
    if total >= dim {
        (((total - dim) as u16) / 2) as u16
    } else {
        0
    }
}

/// Split a text into its lines.
fn split_lines(s: &str) -> (lines: Vec<String>)
    ensures
        line_views(lines@) == spec_lines(s@),
{
    let n = s.unicode_len();
    let mut parts: Vec<String> = Vec::new();
    let mut start: usize = 0;
    let mut i: usize = 0;
    proof {
        assert(s@.take(0) =~= Seq::<char>::empty());
        assert(s@.subrange(0, 0) =~= Seq::<char>::empty());
        assert(line_views(parts@).push(s@.subrange(0, 0)) =~= spec_split_nl(s@.take(0)));
    }
    while i < n
        invariant
            start <= i <= n,
            n == s@.len(),
            line_views(parts@).push(s@.subrange(start as int, i as int)) == spec_split_nl(
                s@.take(i as int),
            ),
        decreases n - i,
    {
        let c = s.get_char(i);
        proof {
            assert(s@.take(i as int + 1).drop_last() =~= s@.take(i as int));
        }
        if c == '\n' {
            let ghost prev = line_views(parts@);
            let ghost old_start = start as int;
            let piece = s.substring_char(start, i).to_owned();
            parts.push(piece);
            start = i + 1;
            proof {
                assert(line_views(parts@) =~= prev.push(s@.subrange(old_start, i as int)));
                assert(s@.subrange(i as int + 1, i as int + 1) =~= Seq::<char>::empty());
            }
        } else {
            proof {
                let r = spec_split_nl(s@.take(i as int));
                lemma_split_nl_nonempty(s@.take(i as int));
                assert(r.last() == s@.subrange(start as int, i as int));
                assert(s@.subrange(start as int, i as int).push(s@[i as int]) =~= s@.subrange(
                    start as int,
                    i as int + 1,
                ));
                assert(r.update(r.len() - 1, r.last().push(s@[i as int])) =~= line_views(
                    parts@,
                ).push(s@.subrange(start as int, i as int + 1)));
            }
        }
        i += 1;
    }
    let lastp = s.substring_char(start, n).to_owned();
    parts.push(lastp);
    proof {
        assert(s@.take(n as int) =~= s@);
        assert(line_views(parts@) =~= spec_split_nl(s@));
    }
    let ghost all_parts = line_views(parts@);
    let ln = parts.len();
    let keep_last = parts[ln - 1].as_str().unicode_len() != 0;
    if !keep_last {
        parts.pop();
        proof {
            assert(line_views(parts@) =~= all_parts.drop_last());
        }
    }
    let ghost kept = line_views(parts@);
    let mut out: Vec<String> = Vec::new();
    let mut k: usize = 0;
    while k < parts.len()
        invariant
            k <= parts@.len(),
            kept == line_views(parts@),
            out@.len() == k,
            forall|j: int| 0 <= j < k ==> (#[trigger] out@[j])@ == strip_cr(kept[j]),
        decreases parts@.len() - k,
    {
        let line = &parts[k];
        let ll = line.as_str().unicode_len();
        if ll > 0 && line.as_str().get_char(ll - 1) == '\r' {
            let stripped = line.as_str().substring_char(0, ll - 1).to_owned();
            proof {
                assert(strip_cr(kept[k as int]) =~= line@.subrange(0, ll as int - 1));
            }
            out.push(stripped);
        } else {
            proof {
                assert(strip_cr(kept[k as int]) =~= line@);
            }
            out.push(line.clone());
        }
        k += 1;
    }
    proof {
        assert(line_views(out@) =~= kept.map_values(|t: Seq<char>| strip_cr(t)));
        assert(line_views(out@) =~= spec_lines(s@));
    }
    out
}

/// The length of the longest of the lines.
fn max_line_len(lines: &Vec<String>) -> (m: usize)
    ensures
        m == spec_max_len(line_views(lines@)),
{
    let mut m: usize = 0;
    let mut i: usize = 0;
    proof {
        assert(line_views(lines@).subrange(0, 0) =~= Seq::<Seq<char>>::empty());
    }
    while i < lines.len()
        invariant
            i <= lines@.len(),
            m == spec_max_len(line_views(lines@).subrange(0, i as int)),
        decreases lines@.len() - i,
    {
        let ll = lines[i].as_str().unicode_len();
        proof {
            assert(line_views(lines@).subrange(0, i as int + 1).drop_last() =~= line_views(
                lines@,
            ).subrange(0, i as int));
            assert(line_views(lines@).subrange(0, i as int + 1).last() == lines@[i as int]@);
        }
        if ll > m {
            m = ll;
        }
        i += 1;
    }
    proof {
        assert(line_views(lines@).subrange(0, lines@.len() as int) =~= line_views(lines@));
    }
    m
}

/// A popup window: its title, its content lines, and its place and size on
/// the terminal.
#[derive(Clone, Debug)]
pub struct Window {
    pub title: String,
    pub content: Vec<String>,
    pub x: u16,
    pub y: u16,
    pub width: u16,
    pub height: u16,
}

/// Lays popup windows out on a terminal of a known geometry, columns then
/// rows.
#[derive(Clone, Copy, Debug)]
pub struct WindowManager {
    pub terminal_size: (u16, u16),
}

impl WindowManager {
    /// A layout surface for a terminal of this geometry, columns then rows.
    pub fn new(cols: u16, rows: u16) -> (w: WindowManager)
        ensures
            w.terminal_size == (cols, rows),
    {
        WindowManager { terminal_size: (cols, rows) }
    }

    /// Lay out a centered popup showing a title and a text: the text's
    /// lines, in order, in a window sized by its widest line and its title
    /// and centered on this terminal.
    pub fn show_popup(&self, title: &str, content: &str) -> (w: Window)
        ensures
            w.title@ == title@,
            line_views(w.content@) == spec_lines(content@),
            w.width as nat == spec_popup_width(
                title@.len(),
                spec_max_len(spec_lines(content@)),
            ),
            w.height as nat == spec_popup_height(spec_lines(content@).len(), 4),
            w.x == spec_centered(self.terminal_size.0, w.width),
            w.y == spec_centered(self.terminal_size.1, w.height),
    {
        let lines = split_lines(content);
        let widest = max_line_len(&lines);
        let tl = title.unicode_len();
        let cw: usize = if widest > 65531 {
            65531
        } else {
            widest
        };
        let tw: usize = if tl > 65531 {
            65531
        } else {
            tl
        };
        let wu: usize = if cw + 4 >= tw + 4 {
            cw + 4
        } else {
            tw + 4
        };
        let width: u16 = wu as u16;
        let nl = lines.len();
        let hu: usize = if nl > 65531 {
            65531
        } else {
            nl
        };
        let height: u16 = (hu + 4) as u16;
        let x = if self.terminal_size.0 >= width {
            (self.terminal_size.0 - width) / 2
        } else {
            0
        };
        let y = if self.terminal_size.1 >= height {
            (self.terminal_size.1 - height) / 2
        } else {
            0
        };
        Window { title: title.to_owned(), content: lines, x, y, width, height }
    }

    /// Lay out a centered input popup: as `show_popup`, but never narrower
    /// than sixty columns and two rows taller, leaving room for the input
    /// row.
    pub fn show_input_popup(&self, title: &str, content: &str) -> (w: Window)
        ensures
            w.title@ == title@,
            line_views(w.content@) == spec_lines(content@),
            w.width as nat == spec_input_popup_width(
                title@.len(),
                spec_max_len(spec_lines(content@)),
            ),
            w.height as nat == spec_popup_height(spec_lines(content@).len(), 6),
            w.x == spec_centered(self.terminal_size.0, w.width),
            w.y == spec_centered(self.terminal_size.1, w.height),
    {
        let lines = split_lines(content);
        let widest = max_line_len(&lines);
        let tl = title.unicode_len();
        let cw: usize = if widest > 65531 {
            65531
        } else {
            widest
        };
        let tw: usize = if tl > 65531 {
            65531
        } else {
            tl
        };
        let w0: usize = if cw + 4 >= tw + 4 {
            cw + 4
        } else {
            tw + 4
        };
        let wu: usize = if w0 >= 60 {
            w0
        } else {
            60
        };
        let width: u16 = wu as u16;
        let nl = lines.len();
        let hu: usize = if nl > 65529 {
            65529
        } else {
            nl
        };
        let height: u16 = (hu + 6) as u16;
        let x = if self.terminal_size.0 >= width {
            (self.terminal_size.0 - width) / 2
        } else {
            0
        };
        let y = if self.terminal_size.1 >= height {
            (self.terminal_size.1 - height) / 2
        } else {
            0
        };
        Window { title: title.to_owned(), content: lines, x, y, width, height }
    }
}

impl Default for WindowManager {
    /// The fallback geometry when the terminal's cannot be read: eighty
    /// columns by twenty-four rows.
    fn default() -> (w: WindowManager)
        ensures
            w.terminal_size == (80u16, 24u16),
    {
        WindowManager { terminal_size: (80, 24) }
    }
}

} // verus!
