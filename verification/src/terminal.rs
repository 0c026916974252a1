use vstd::prelude::*;

verus! {

/// Where the editor sits in the terminal and how much of it it uses.
#[derive(Clone, Copy)]
pub struct UILayout {
    pub ui_origin: (u16, u16),
    pub term_width: u16,
    pub term_height: u16,
    pub editor_lines: u16,
}

pub open spec fn sat_sub(a: int, b: int) -> int {
    if a >= b { a - b } else { 0 }
}

pub open spec fn min_int(a: int, b: int) -> int {
    if a <= b { a } else { b }
}

/// The lines an inline editor wants below the cursor: half the terminal when
/// no minimum is configured, else the minimum plus the two status lines.
pub open spec fn wanted_lines(min_lines: u16, term_height: u16) -> int {
    if min_lines == 0 { (term_height / 2) as int } else { min_lines + 2 }
}

/// The lines available below the cursor; when too few, the terminal is
/// scrolled up by the shortfall and the wanted lines (at most the terminal's
/// height) are reserved.
pub open spec fn reserved_lines(min_lines: u16, term_size: (u16, u16), cursor_origin: (u16, u16)) -> int {
    let available = sat_sub(term_size.1 as int, cursor_origin.1 as int);
    let shortfall = sat_sub(wanted_lines(min_lines, term_size.1), available);
    if shortfall > 0 { min_int(wanted_lines(min_lines, term_size.1), term_size.1 as int) } else { available }
}

pub open spec fn scroll_shortfall(min_lines: u16, term_size: (u16, u16), cursor_origin: (u16, u16)) -> int {
    sat_sub(wanted_lines(min_lines, term_size.1), sat_sub(term_size.1 as int, cursor_origin.1 as int))
}

impl UILayout {
    /// Lays the editor out inline, below the terminal cursor at
    /// `cursor_origin` in a terminal of `term_size` (width, height).
    /// Returns the layout, the number of lines the terminal must scroll up
    /// first (zero when there is room already), and the lines reserved for
    /// the editor and its status lines (those to print when scrolling).
    pub fn new(min_lines: u16, term_size: (u16, u16), cursor_origin: (u16, u16)) -> (r: (UILayout, u16, u16))
        requires
            min_lines == 0 || min_lines + 2 <= u16::MAX,
        ensures
            r.1 == scroll_shortfall(min_lines, term_size, cursor_origin),
            r.2 == reserved_lines(min_lines, term_size, cursor_origin),
            r.0.editor_lines == sat_sub(reserved_lines(min_lines, term_size, cursor_origin), 2),
            r.0.ui_origin == (cursor_origin.0, sat_sub(cursor_origin.1 as int, r.1 as int) as u16),
            r.0.term_width == term_size.0,
            r.0.term_height == term_size.1,
            // the editor and its two status lines fit in the terminal
            r.0.editor_lines == 0 || r.0.editor_lines + 2 <= term_size.1,
    {
        let (term_width, term_height) = term_size;
        let ui_start_y = cursor_origin.1;
        let max_scroll = if min_lines == 0 { term_height / 2 } else { min_lines + 2 };
        let mut real_estate = term_height.saturating_sub(ui_start_y);
        let offset = max_scroll.saturating_sub(real_estate);
        if offset > 0 {
            real_estate = if max_scroll <= term_height { max_scroll } else { term_height };
        }
        let editor_lines = real_estate.saturating_sub(2);
        let ui_origin = (cursor_origin.0, cursor_origin.1.saturating_sub(offset));
        (UILayout { ui_origin, term_width, term_height, editor_lines }, offset, real_estate)
    }

    /// Lays the editor out over the whole terminal, leaving two status lines.
    pub fn fullscreen(term_size: (u16, u16)) -> (l: UILayout)
        requires
            term_size.1 >= 2,
        ensures
            l.ui_origin == (1u16, 1u16),
            l.term_width == term_size.0,
            l.term_height == term_size.1,
            l.editor_lines == term_size.1 - 2,
    {
        let (term_width, term_height) = term_size;
        UILayout { ui_origin: (1, 1), term_width, term_height, editor_lines: term_height - 2 }
    }
}

/// The inline editor gets at least the configured minimum of lines when the
/// terminal is tall enough for them and the two status lines.
pub proof fn lemma_min_lines_honored(min_lines: u16, term_size: (u16, u16), cursor_origin: (u16, u16))
    requires
        min_lines > 0,
        min_lines + 2 <= term_size.1,
    ensures
        sat_sub(reserved_lines(min_lines, term_size, cursor_origin), 2) >= min_lines,
{
}

} // verus!
