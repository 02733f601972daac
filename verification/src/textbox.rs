//! A one-line text box: the text, the cursor, the selection, and how typed
//! characters, backspace and delete edit them.
//!
//! Indices count characters. Which part of the text is on screen, and where
//! a point falls in it, depend on font metrics: the caller measures them and
//! hands the resulting indices in. `window_plan` and `move_cursor_window`
//! compute the part on screen after a cursor move from the font's answer to
//! whether a stretch of text is wider than the box. The cursor never passes
//! the end of the text.
use vstd::prelude::*;

use crate::controls::Bindings;
use crate::event_handling::{textbox_response, textbox_response_spec, TextBoxResponse};
use crate::geometry::{IntRect, Vector2i};
use crate::parsing::{ascii_lower, lower_char};
use crate::window_events::UIEvent;
use crate::positioning::{fits_i32, UIPosition};

verus! {

/// The text of a text box and whether it is selected.
#[derive(Clone, Debug, PartialEq, Eq)]
pub struct TextBoxTriggeredEvent {
    pub string: String,
    pub selected: bool,
}

impl TextBoxTriggeredEvent {
    pub fn new(string: String, selected: bool) -> (r: Self)
        ensures
            r.string@ == string@,
            r.selected == selected,
    {
        TextBoxTriggeredEvent { string, selected }
    }
}

/// The backspace character.
pub open spec fn backspace_char() -> char {
    '\u{8}'
}

/// The delete character.
pub open spec fn delete_char() -> char {
    '\u{7f}'
}

/// A character whose low byte is a control code is not typed.
pub open spec fn is_ignored_char(c: char) -> bool {
    (c as u32) % 256 < 32
}

/// Where the cursor lands when moved to `new`: the end of the text at most.
pub open spec fn clamp_cursor(new: int, len: int) -> int {
    if new < len {
        new
    } else {
        len
    }
}

/// One to the left, stopping at zero.
pub open spec fn cursor_left(c: int) -> int {
    if c > 0 {
        c - 1
    } else {
        0
    }
}

/// The text after a backspace with the cursor at `cursor` and nothing
/// selected: the character under the cursor goes, the last one when the
/// cursor is at the end, and the first one when the cursor is at the start.
pub open spec fn backspace_text(s: Seq<char>, cursor: int) -> Seq<char> {
    if cursor != 0 && cursor >= s.len() {
        if s.len() > 0 {
            s.drop_last()
        } else {
            s
        }
    } else if s.len() > 0 {
        s.remove(cursor)
    } else {
        s
    }
}

/// Text and cursor after a backspace with nothing selected; the cursor
/// then moves one to the left.
pub open spec fn backspace_step(st: (Seq<char>, int)) -> (Seq<char>, int) {
    let t = backspace_text(st.0, st.1);
    (t, clamp_cursor(cursor_left(st.1), t.len() as int))
}

/// `k` backspaces in a row.
pub open spec fn backspace_steps(st: (Seq<char>, int), k: nat) -> (Seq<char>, int)
    decreases k,
{
    if k == 0 {
        st
    } else {
        backspace_step(backspace_steps(st, (k - 1) as nat))
    }
}

/// Text and cursor after a backspace over the selection from `a` to `b`
/// (in either order): the cursor goes to the later end, one backspace is
/// made for each selected index, and the cursor then moves right twice and
/// left once.
pub open spec fn selection_backspace(s: Seq<char>, a: int, b: int) -> (Seq<char>, int) {
    let start = if a <= b { a } else { b };
    let end = if a <= b { b } else { a };
    let st = backspace_steps((s, clamp_cursor(end, s.len() as int)), (end - start + 1) as nat);
    let len = st.0.len() as int;
    let c1 = clamp_cursor(st.1 + 1, len);
    let c2 = clamp_cursor(c1 + 1, len);
    (st.0, clamp_cursor(cursor_left(c2), len))
}

/// Text and cursor after a backspace, with the selection `sel` if any.
pub open spec fn backspace_entered(s: Seq<char>, cursor: int, sel: Option<(int, int)>) -> (Seq<char>, int) {
    match sel {
        Some((a, b)) => selection_backspace(s, a, b),
        None => backspace_step((s, cursor)),
    }
}

/// Text and cursor after a delete with nothing selected: the character
/// after the cursor goes, or the one under it at the last character; the
/// cursor stays.
pub open spec fn delete_step(s: Seq<char>, cursor: int) -> (Seq<char>, int) {
    if cursor + 1 < s.len() {
        (s.remove(cursor + 1), clamp_cursor(cursor, s.len() - 1))
    } else if cursor < s.len() {
        (s.remove(cursor), clamp_cursor(cursor, s.len() - 1))
    } else {
        (s, cursor)
    }
}

/// Text and cursor after typing `c` with nothing selected: it goes under
/// the cursor, or at the end when the cursor is on the last character or
/// past it, and the cursor moves right.
pub open spec fn insert_step(s: Seq<char>, cursor: int, c: char) -> (Seq<char>, int) {
    let t = if cursor >= s.len() - 1 {
        s.push(c)
    } else {
        s.insert(cursor, c)
    };
    (t, clamp_cursor(cursor + 1, t.len() as int))
}

/// Text and cursor after the character `c` is entered with the cursor at
/// `cursor` and the selection `sel`.
pub open spec fn entered(s: Seq<char>, cursor: int, sel: Option<(int, int)>, c: char) -> (Seq<char>, int) {
    if c == backspace_char() {
        backspace_entered(s, cursor, sel)
    } else if c == delete_char() {
        match sel {
            Some(_) => {
                let st = backspace_entered(s, cursor, sel);
                (st.0, clamp_cursor(cursor_left(st.1), st.0.len() as int))
            },
            None => delete_step(s, cursor),
        }
    } else if is_ignored_char(c) {
        (s, cursor)
    } else {
        let st = backspace_entered(s, cursor, sel);
        match sel {
            Some(_) => insert_step(st.0, st.1, c),
            None => insert_step(s, cursor, c),
        }
    }
}

/// Text and cursor after each character of `cs` is entered in turn, with
/// nothing selected.
pub open spec fn entered_all(st: (Seq<char>, int), cs: Seq<char>) -> (Seq<char>, int)
    decreases cs.len(),
{
    if cs.len() == 0 {
        st
    } else {
        let before = entered_all(st, cs.drop_last());
        entered(before.0, before.1, None, cs.last())
    }
}

/// The integer base-2 logarithm, rounded down.
pub open spec fn floor_log2(n: int) -> int
    decreases n,
{
    if n < 2 {
        0
    } else {
        1 + floor_log2(n / 2)
    }
}

/// The base-2 logarithm is never negative.
proof fn lemma_floor_log2_nonneg(n: int)
    ensures
        floor_log2(n) >= 0,
    decreases n,
{
    if n >= 2 {
        lemma_floor_log2_nonneg(n / 2);
    }
}

/// Every character is ASCII.
pub open spec fn all_ascii(s: Seq<char>) -> bool {
    forall|i: int| 0 <= i < s.len() ==> (#[trigger] s[i] as u32) < 128
}

/// The selection as a pair, when both of its ends are set.
pub open spec fn selection_of(a: Option<usize>, b: Option<usize>) -> Option<(int, int)> {
    match (a, b) {
        (Some(x), Some(y)) => Some((x as int, y as int)),
        _ => None,
    }
}

/// What the font shows of the text: the index of the first shown
/// character, how many characters are shown, and the width of a glyph
/// (absent when the font has none).
#[derive(Clone, Copy, Debug, PartialEq, Eq, Structural)]
pub struct ShownText {
    pub starting_idx: usize,
    pub shown_len: usize,
    pub glyph_width: Option<i32>,
}

/// The editing state of a one-line text box.
#[derive(Clone, Debug)]
pub struct FixedSizeOneLineTextbox {
    global_bounds: IntRect,
    position: UIPosition,
    string: Vec<char>,
    cursor_idx: usize,
    event_id: u16,
    sync_id: u16,
    hover: bool,
    selected: bool,
    rerender: bool,
    bind_pressed_location: Option<Vector2i>,
    select_start_idx: Option<usize>,
    select_end_idx: Option<usize>,
}

/// The characters of `s` from `lo` up to `hi`.
fn copy_chars(s: &Vec<char>, lo: usize, hi: usize) -> (r: Vec<char>)
    requires
        lo <= hi <= s@.len(),
    ensures
        r@ == s@.subrange(lo as int, hi as int),
{
    let mut r: Vec<char> = Vec::new();
    let mut i = lo;
    while i < hi
        invariant
            lo <= i <= hi <= s@.len(),
            r@ == s@.subrange(lo as int, i as int),
        decreases hi - i,
    {
        r.push(s[i]);
        i = i + 1;
    }
    r
}

impl FixedSizeOneLineTextbox {
    pub closed spec fn text(self) -> Seq<char> {
        self.string@
    }

    pub closed spec fn cursor(self) -> int {
        self.cursor_idx as int
    }

    pub closed spec fn select_start(self) -> Option<usize> {
        self.select_start_idx
    }

    pub closed spec fn select_end(self) -> Option<usize> {
        self.select_end_idx
    }

    /// The selection, when both of its ends are set.
    pub open spec fn selection(self) -> Option<(int, int)> {
        selection_of(self.select_start(), self.select_end())
    }

    pub closed spec fn spec_global_bounds(self) -> IntRect {
        self.global_bounds
    }

    pub closed spec fn spec_position(self) -> UIPosition {
        self.position
    }

    pub closed spec fn spec_event_id(self) -> u16 {
        self.event_id
    }

    pub closed spec fn spec_sync_id(self) -> u16 {
        self.sync_id
    }

    pub closed spec fn spec_hover(self) -> bool {
        self.hover
    }

    pub closed spec fn spec_selected(self) -> bool {
        self.selected
    }

    pub closed spec fn spec_rerender(self) -> bool {
        self.rerender
    }

    pub closed spec fn bind_pressed_at(self) -> Option<Vector2i> {
        self.bind_pressed_location
    }

    /// The cursor is within the text or at its end.
    pub open spec fn wf(self) -> bool {
        self.cursor() <= self.text().len()
    }

    /// Everything but the text, the cursor and the selection is as in `other`.
    pub open spec fn same_frame(self, other: Self) -> bool {
        &&& self.spec_global_bounds() == other.spec_global_bounds()
        &&& self.spec_position() == other.spec_position()
        &&& self.spec_event_id() == other.spec_event_id()
        &&& self.spec_sync_id() == other.spec_sync_id()
        &&& self.spec_hover() == other.spec_hover()
        &&& self.spec_selected() == other.spec_selected()
        &&& self.bind_pressed_at() == other.bind_pressed_at()
    }

    /// A box `width` wide holding `default_text`, with the cursor on its
    /// last character; nothing is selected, hovered or dragged.
    pub fn new(position: UIPosition, width: u16, default_text: Vec<char>, event_id: u16, sync_id: u16) -> (r: Self)
        ensures
            r.wf(),
            r.spec_global_bounds() == (IntRect { left: 0, top: 0, width: width as i32, height: 0 }),
            r.spec_position() == position,
            r.text() == default_text@,
            r.cursor() == cursor_left(default_text@.len() as int),
            r.selection() is None,
            r.select_start() is None,
            r.select_end() is None,
            r.spec_event_id() == event_id,
            r.spec_sync_id() == sync_id,
            !r.spec_hover(),
            !r.spec_selected(),
            r.spec_rerender(),
            r.bind_pressed_at() is None,
    {
        let len = default_text.len();
        let cursor_idx = if len > 0 { len - 1 } else { 0 };
        FixedSizeOneLineTextbox {
            global_bounds: IntRect::new(0, 0, width as i32, 0),
            position,
            string: default_text,
            cursor_idx,
            event_id,
            sync_id,
            hover: false,
            selected: false,
            rerender: true,
            bind_pressed_location: None,
            select_start_idx: None,
            select_end_idx: None,
        }
    }
}


impl FixedSizeOneLineTextbox {
    /// Moves the cursor to `new_cursor_idx`, or to the end of the text if
    /// that is past it.
    pub fn move_cursor(&mut self, new_cursor_idx: usize)
        ensures
            final(self).wf(),
            final(self).cursor() == clamp_cursor(new_cursor_idx as int, old(self).text().len() as int),
            final(self).text() == old(self).text(),
            final(self).select_start() == old(self).select_start(),
            final(self).select_end() == old(self).select_end(),
            final(self).spec_rerender(),
            final(self).same_frame(*old(self)),
    {
        self.rerender = true;
        let len = self.string.len();
        self.cursor_idx = if new_cursor_idx < len { new_cursor_idx } else { len };
    }

    pub fn move_cursor_left(&mut self)
        ensures
            final(self).wf(),
            final(self).cursor() == clamp_cursor(cursor_left(old(self).cursor()), old(self).text().len() as int),
            final(self).text() == old(self).text(),
            final(self).select_start() == old(self).select_start(),
            final(self).select_end() == old(self).select_end(),
            final(self).spec_rerender(),
            final(self).same_frame(*old(self)),
    {
        let new_idx = if self.cursor_idx > 0 { self.cursor_idx - 1 } else { 0 };
        self.move_cursor(new_idx);
    }

    pub fn move_cursor_right(&mut self)
        ensures
            final(self).wf(),
            final(self).cursor() == clamp_cursor(old(self).cursor() + 1, old(self).text().len() as int),
            final(self).text() == old(self).text(),
            final(self).select_start() == old(self).select_start(),
            final(self).select_end() == old(self).select_end(),
            final(self).spec_rerender(),
            final(self).same_frame(*old(self)),
    {
        let len = self.string.len();
        let new_idx = if self.cursor_idx < len { self.cursor_idx + 1 } else { len };
        self.move_cursor(new_idx);
    }

    /// Clears the selection.
    pub fn make_select_box_dissappear(&mut self)
        ensures
            final(self).select_start() is None,
            final(self).select_end() is None,
            final(self).text() == old(self).text(),
            final(self).cursor() == old(self).cursor(),
            final(self).spec_rerender() == old(self).spec_rerender(),
            final(self).same_frame(*old(self)),
    {
        self.select_start_idx = None;
        self.select_end_idx = None;
    }

    /// One backspace with nothing selected.
    fn backspace_once(&mut self)
        requires
            old(self).wf(),
        ensures
            final(self).wf(),
            (final(self).text(), final(self).cursor()) == backspace_step((old(self).text(), old(self).cursor())),
            final(self).select_start() == old(self).select_start(),
            final(self).select_end() == old(self).select_end(),
            final(self).spec_rerender(),
            final(self).same_frame(*old(self)),
    {
        let len = self.string.len();
        if self.cursor_idx != 0 && self.cursor_idx >= len {
            if len > 0 {
                self.string.pop();
            }
        } else if len > 0 {
            self.string.remove(self.cursor_idx);
        }
        self.move_cursor_left();
    }

    /// A backspace: over the selection if there is one, else at the cursor.
    fn backspace_event(&mut self)
        requires
            old(self).wf(),
        ensures
            final(self).wf(),
            (final(self).text(), final(self).cursor()) == backspace_entered(
                old(self).text(),
                old(self).cursor(),
                old(self).selection(),
            ),
            final(self).select_start() is None,
            final(self).select_end() is None,
            final(self).spec_rerender(),
            final(self).same_frame(*old(self)),
    {
        match (self.select_start_idx, self.select_end_idx) {
            (Some(a), Some(b)) => {
                let start = if a <= b { a } else { b };
                let end = if a <= b { b } else { a };
                self.make_select_box_dissappear();
                self.move_cursor(end);
                let ghost st0 = (self.text(), self.cursor());
                let ghost frame = *self;
                let mut i = start;
                loop
                    invariant_except_break
                        start <= i <= end,
                        (self.text(), self.cursor()) == backspace_steps(st0, (i - start) as nat),
                    invariant
                        self.wf(),
                        self.select_start() is None,
                        self.select_end() is None,
                        self.spec_rerender(),
                        self.same_frame(frame),
                    ensures
                        (self.text(), self.cursor()) == backspace_steps(st0, (end - start + 1) as nat),
                    decreases end - i,
                {
                    self.backspace_once();
                    if i == end {
                        break;
                    }
                    i = i + 1;
                }
                self.move_cursor_right();
                self.move_cursor_right();
                self.move_cursor_left();
            },
            _ => {
                self.backspace_once();
                self.make_select_box_dissappear();
            },
        }
        self.rerender = true;
    }

    /// Enters the character `unicode`: backspace and delete edit the text,
    /// a control code is ignored, and any other character is typed over the
    /// selection or at the cursor. The selection is cleared either way.
    pub fn text_entered(&mut self, unicode: char)
        requires
            old(self).wf(),
        ensures
            final(self).wf(),
            (final(self).text(), final(self).cursor()) == entered(
                old(self).text(),
                old(self).cursor(),
                old(self).selection(),
                unicode,
            ),
            final(self).select_start() is None,
            final(self).select_end() is None,
            final(self).spec_rerender(),
            final(self).same_frame(*old(self)),
    {
        if unicode == '\u{8}' {
            self.backspace_event();
        } else if unicode == '\u{7f}' {
            let len = self.string.len();
            if self.select_start_idx.is_some() && self.select_end_idx.is_some() {
                self.backspace_event();
                self.move_cursor_left();
            } else if len > 0 && self.cursor_idx < len - 1 {
                self.string.remove(self.cursor_idx + 1);
                let c = self.cursor_idx;
                self.move_cursor(c);
            } else if self.cursor_idx < len {
                self.string.remove(self.cursor_idx);
                let c = self.cursor_idx;
                self.move_cursor(c);
            }
        } else if (unicode as u32) % 256 < 32 {
        } else {
            if self.select_start_idx.is_some() && self.select_end_idx.is_some() {
                self.backspace_event();
            }
            let len = self.string.len();
            let last = if len > 0 { len - 1 } else { 0 };
            if self.cursor_idx >= last {
                self.string.push(unicode);
            } else {
                self.string.insert(self.cursor_idx, unicode);
            }
            self.move_cursor_right();
        }
        self.rerender = true;
        self.make_select_box_dissappear();
    }
}


impl FixedSizeOneLineTextbox {
    /// Whether the cursor is over the box.
    pub fn set_hover(&mut self, mouse_pos: Vector2i)
        requires
            old(self).spec_global_bounds().edges_fit(),
        ensures
            final(self).spec_hover() == old(self).spec_global_bounds().covers(mouse_pos),
            final(self).text() == old(self).text(),
            final(self).cursor() == old(self).cursor(),
            final(self).select_start() == old(self).select_start(),
            final(self).select_end() == old(self).select_end(),
            final(self).spec_rerender() == old(self).spec_rerender(),
            final(self).spec_global_bounds() == old(self).spec_global_bounds(),
            final(self).spec_position() == old(self).spec_position(),
            final(self).spec_event_id() == old(self).spec_event_id(),
            final(self).spec_sync_id() == old(self).spec_sync_id(),
            final(self).spec_selected() == old(self).spec_selected(),
            final(self).bind_pressed_at() == old(self).bind_pressed_at(),
    {
        self.hover = self.global_bounds.contains(mouse_pos);
    }

    pub fn is_hover(&self) -> (r: bool)
        ensures
            r == self.spec_hover(),
    {
        self.hover
    }

    pub fn is_selected(&self) -> (r: bool)
        ensures
            r == self.spec_selected(),
    {
        self.selected
    }

    /// The select bind was pressed and not yet released over the box.
    pub fn is_dragging(&self) -> (r: bool)
        ensures
            r == self.bind_pressed_at().is_some(),
    {
        self.bind_pressed_location.is_some()
    }

    pub fn needs_rerender(&self) -> (r: bool)
        ensures
            r == self.spec_rerender(),
    {
        self.rerender
    }

    /// Called once the box has been drawn.
    pub fn rendered(&mut self)
        ensures
            !final(self).spec_rerender(),
            final(self).text() == old(self).text(),
            final(self).cursor() == old(self).cursor(),
            final(self).select_start() == old(self).select_start(),
            final(self).select_end() == old(self).select_end(),
            final(self).same_frame(*old(self)),
    {
        self.rerender = false;
    }

    pub fn global_bounds(&self) -> (r: IntRect)
        ensures
            r == self.spec_global_bounds(),
    {
        self.global_bounds
    }

    pub fn event_id(&self) -> (r: u16)
        ensures
            r == self.spec_event_id(),
    {
        self.event_id
    }

    pub fn sync_id(&self) -> (r: u16)
        ensures
            r == self.spec_sync_id(),
    {
        self.sync_id
    }

    pub fn cursor_idx(&self) -> (r: usize)
        ensures
            r == self.cursor(),
    {
        self.cursor_idx
    }

    pub fn selection_indices(&self) -> (r: (Option<usize>, Option<usize>))
        ensures
            r == (self.select_start(), self.select_end()),
    {
        (self.select_start_idx, self.select_end_idx)
    }

    /// The text, as the box reports it.
    pub fn utf32_str(&self) -> (r: Vec<char>)
        ensures
            r@ == self.text(),
    {
        copy_chars(&self.string, 0, self.string.len())
    }

    /// The text in lower case when it is all ASCII.
    pub fn ascii_str(&self) -> (r: Option<Vec<char>>)
        ensures
            r is Some <==> all_ascii(self.text()),
            r matches Some(v) ==> v@ == self.text().map_values(|c: char| ascii_lower(c)),
    {
        let mut out: Vec<char> = Vec::new();
        let mut i: usize = 0;
        while i < self.string.len()
            invariant
                i <= self.string@.len(),
                all_ascii(self.string@.subrange(0, i as int)),
                out@ == self.string@.subrange(0, i as int).map_values(|c: char| ascii_lower(c)),
            decreases self.string@.len() - i,
        {
            let c = self.string[i];
            if (c as u32) >= 128 {
                proof {
                    assert(!all_ascii(self.string@)) by {
                        assert(self.string@[i as int] == c);
                    }
                }
                return None;
            }
            out.push(lower_char(c));
            proof {
                assert(self.string@.subrange(0, i as int + 1) =~= self.string@.subrange(0, i as int).push(c));
                assert(out@ =~= self.string@.subrange(0, i as int + 1).map_values(|c: char| ascii_lower(c)));
            }
            i = i + 1;
        }
        proof {
            assert(self.string@.subrange(0, i as int) =~= self.string@);
        }
        Some(out)
    }
}


/// The shown character index a pointer falls on, or the end of the shown
/// text when it falls on none, counted in the whole text.
pub open spec fn clicked_index(shown: ShownText, point_idx: Option<usize>) -> int {
    shown.starting_idx + match point_idx {
        Some(i) => i as int,
        None => shown.shown_len as int,
    }
}

impl FixedSizeOneLineTextbox {
    /// The select bind was pressed with the pointer at `mouse_pos`, which
    /// falls on the shown character `point_idx` (if any): the selection is
    /// cleared, the box is selected exactly when the pointer is over it, and
    /// then a drag starts and the cursor goes to the clicked character.
    pub fn bind_pressed(&mut self, mouse_pos: Vector2i, shown: ShownText, point_idx: Option<usize>)
        requires
            old(self).wf(),
            old(self).spec_global_bounds().edges_fit(),
            clicked_index(shown, point_idx) <= usize::MAX,
        ensures
            final(self).wf(),
            final(self).spec_hover() == old(self).spec_global_bounds().covers(mouse_pos),
            final(self).spec_selected() == final(self).spec_hover(),
            final(self).select_start() is None,
            final(self).select_end() is None,
            final(self).text() == old(self).text(),
            final(self).spec_rerender() == (old(self).spec_rerender() || old(self).select_start() is Some
                || final(self).spec_hover()),
            final(self).spec_hover() ==> final(self).bind_pressed_at() == Some(mouse_pos)
                && final(self).cursor() == clamp_cursor(clicked_index(shown, point_idx), old(self).text().len() as int),
            !final(self).spec_hover() ==> final(self).bind_pressed_at() == old(self).bind_pressed_at()
                && final(self).cursor() == old(self).cursor(),
            final(self).spec_global_bounds() == old(self).spec_global_bounds(),
            final(self).spec_position() == old(self).spec_position(),
            final(self).spec_event_id() == old(self).spec_event_id(),
            final(self).spec_sync_id() == old(self).spec_sync_id(),
    {
        self.set_hover(mouse_pos);
        if self.select_start_idx.is_some() {
            self.rerender = true;
        }
        self.make_select_box_dissappear();
        self.selected = self.hover;
        if !self.hover {
            return;
        }
        self.rerender = true;
        self.bind_pressed_location = Some(mouse_pos);
        let idx = match point_idx {
            Some(i) => i,
            None => shown.shown_len,
        };
        self.move_cursor(shown.starting_idx + idx);
    }

    /// Deselects the box and clears the selection.
    pub fn deselect(&mut self)
        ensures
            !final(self).spec_selected(),
            final(self).select_start() is None,
            final(self).select_end() is None,
            final(self).text() == old(self).text(),
            final(self).cursor() == old(self).cursor(),
            final(self).spec_rerender() == old(self).spec_rerender(),
            final(self).spec_hover() == old(self).spec_hover(),
            final(self).bind_pressed_at() == old(self).bind_pressed_at(),
            final(self).spec_global_bounds() == old(self).spec_global_bounds(),
            final(self).spec_position() == old(self).spec_position(),
            final(self).spec_event_id() == old(self).spec_event_id(),
            final(self).spec_sync_id() == old(self).spec_sync_id(),
    {
        self.selected = false;
        self.make_select_box_dissappear();
    }

    /// The selected text, from the earlier end of the selection to the later
    /// one (cut at the last character), when both ends are set.
    pub fn copy(&self) -> (r: Option<Vec<char>>)
        requires
            self.selection() matches Some((a, b)) ==> self.text().len() > 0 && (if a <= b { a } else { b })
                < self.text().len(),
        ensures
            r is Some <==> self.selection() is Some,
            r matches Some(v) ==> (self.selection() matches Some((a, b)) && v@ == self.text().subrange(
                if a <= b { a } else { b },
                clamp_cursor(if a <= b { b } else { a }, self.text().len() - 1) + 1,
            )),
    {
        match (self.select_start_idx, self.select_end_idx) {
            (Some(a), Some(b)) => {
                let min_idx = if a <= b { a } else { b };
                let max_idx = if a <= b { b } else { a };
                let last = self.string.len() - 1;
                let max_idx = if max_idx < last { max_idx } else { last };
                Some(copy_chars(&self.string, min_idx, max_idx + 1))
            },
            _ => None,
        }
    }

    /// Replaces the text and puts the cursor at its end.
    pub fn set_string(&mut self, string: Vec<char>)
        ensures
            final(self).wf(),
            final(self).text() == string@,
            final(self).cursor() == string@.len(),
            final(self).select_start() == old(self).select_start(),
            final(self).select_end() == old(self).select_end(),
            final(self).spec_rerender(),
            final(self).same_frame(*old(self)),
    {
        self.string = string;
        let len = self.string.len();
        self.move_cursor(len);
        self.rerender = true;
    }

    /// Resizes the box to the height of its text, `text_height`, plus that
    /// height's base-2 logarithm.
    pub fn update_size(&mut self, text_height: i32)
        requires
            text_height > 0,
            text_height + floor_log2(text_height as int) <= i32::MAX,
        ensures
            final(self).spec_global_bounds() == (IntRect {
                height: (text_height + floor_log2(text_height as int)) as i32,
                ..old(self).spec_global_bounds()
            }),
            final(self).text() == old(self).text(),
            final(self).cursor() == old(self).cursor(),
            final(self).select_start() == old(self).select_start(),
            final(self).select_end() == old(self).select_end(),
            final(self).spec_rerender() == old(self).spec_rerender(),
            final(self).spec_position() == old(self).spec_position(),
            final(self).spec_event_id() == old(self).spec_event_id(),
            final(self).spec_sync_id() == old(self).spec_sync_id(),
            final(self).spec_hover() == old(self).spec_hover(),
            final(self).spec_selected() == old(self).spec_selected(),
            final(self).bind_pressed_at() == old(self).bind_pressed_at(),
    {
        let mut v: i32 = text_height;
        let mut log: i32 = 0;
        while v >= 2
            invariant
                1 <= v <= text_height,
                0 <= log,
                log + floor_log2(v as int) == floor_log2(text_height as int),
                text_height + floor_log2(text_height as int) <= i32::MAX,
            decreases v,
        {
            proof {
                lemma_floor_log2_nonneg(v as int / 2);
            }
            v = v / 2;
            log = log + 1;
        }
        self.global_bounds.height = text_height + log;
    }
}


/// The selection when a drag starts: from the pressed character to the
/// pointed one when they differ; else, once the pointer has moved further
/// than a glyph's width, an empty selection at the pointed character.
pub open spec fn drag_start_selection(
    old_start: Option<usize>,
    pressed_x: i32,
    mouse_x: i32,
    glyph_width: i32,
    shown: ShownText,
    pressed_idx: Option<usize>,
    point_idx: Option<usize>,
) -> (Option<usize>, Option<usize>) {
    let first = match (pressed_idx, point_idx) {
        (Some(si), Some(ei)) => if si != ei {
            (Some((shown.starting_idx + si) as usize), Some((shown.starting_idx + ei) as usize))
        } else {
            (old_start, None::<usize>)
        },
        _ => (old_start, None::<usize>),
    };
    let dx = pressed_x - mouse_x;
    let dist = if dx < 0 { -dx } else { dx };
    if dist > glyph_width && first.0 is None && point_idx is Some {
        let i = (shown.starting_idx + point_idx->0) as usize;
        (Some(i), Some(i))
    } else {
        first
    }
}

/// Where a drag moves the cursor: left at the first shown character, right
/// at the last, else to the pointed character (the cursor's own index
/// standing in when the pointer is on none).
pub open spec fn drag_cursor(cursor: int, len: int, shown: ShownText, point_idx: Option<usize>) -> int {
    let adjusted = match point_idx {
        Some(i) => i as int,
        None => cursor,
    };
    if adjusted == 0 {
        clamp_cursor(cursor_left(cursor), len)
    } else if adjusted >= cursor_left(shown.shown_len as int) {
        clamp_cursor(cursor + 1, len)
    } else {
        clamp_cursor(shown.starting_idx + adjusted, len)
    }
}

/// The index arithmetic of a drag stays within `usize` and `i32`.
pub open spec fn drag_fits(
    pressed_at: Option<Vector2i>,
    mouse_pos: Vector2i,
    cursor: int,
    shown: ShownText,
    pressed_idx: Option<usize>,
    point_idx: Option<usize>,
) -> bool {
    &&& (pressed_at matches Some(p) ==> fits_i32(p.x - mouse_pos.x) && p.x - mouse_pos.x != i32::MIN)
    &&& (pressed_idx matches Some(i) ==> shown.starting_idx + i <= usize::MAX)
    &&& (point_idx matches Some(i) ==> shown.starting_idx + i <= usize::MAX)
    &&& (point_idx is None ==> shown.starting_idx + cursor <= usize::MAX)
}

impl FixedSizeOneLineTextbox {
    /// The cursor and the two ends of the selection after the pointer is
    /// dragged to `mouse_pos`: nothing changes unless a drag is going on and
    /// the font has a glyph width.
    pub open spec fn drag_result(
        self,
        mouse_pos: Vector2i,
        shown: ShownText,
        pressed_idx: Option<usize>,
        point_idx: Option<usize>,
    ) -> (int, Option<usize>, Option<usize>) {
        if self.bind_pressed_at() is None || shown.glyph_width is None {
            (self.cursor(), self.select_start(), self.select_end())
        } else if self.select_end() is None {
            let sel = drag_start_selection(
                self.select_start(),
                self.bind_pressed_at()->0.x,
                mouse_pos.x,
                shown.glyph_width->0,
                shown,
                pressed_idx,
                point_idx,
            );
            (self.cursor(), sel.0, sel.1)
        } else {
            let c = drag_cursor(self.cursor(), self.text().len() as int, shown, point_idx);
            (c, self.select_start(), Some(c as usize))
        }
    }

    /// Follows the pointer while the select bind is held: the first move
    /// opens a selection (see `drag_start_selection`), later moves carry the
    /// cursor (see `drag_cursor`) and the selection's end with it.
    pub fn drag_mouse(&mut self, mouse_pos: Vector2i, shown: ShownText, pressed_idx: Option<usize>, point_idx: Option<usize>)
        requires
            old(self).wf(),
            drag_fits(old(self).bind_pressed_at(), mouse_pos, old(self).cursor(), shown, pressed_idx, point_idx),
        ensures
            final(self).wf(),
            (final(self).cursor(), final(self).select_start(), final(self).select_end()) == old(self).drag_result(
                mouse_pos,
                shown,
                pressed_idx,
                point_idx,
            ),
            final(self).spec_rerender() == (old(self).spec_rerender() || old(self).bind_pressed_at() is Some),
            final(self).text() == old(self).text(),
            final(self).same_frame(*old(self)),
    {
        let start_mouse_pos = match self.bind_pressed_location {
            Some(p) => p,
            None => {
                return;
            },
        };
        self.rerender = true;
        let glyph_width = match shown.glyph_width {
            Some(w) => w,
            None => {
                return;
            },
        };
        if self.select_end_idx.is_none() {
            match (pressed_idx, point_idx) {
                (Some(si), Some(ei)) => {
                    if si != ei {
                        self.select_start_idx = Some(shown.starting_idx + si);
                        self.select_end_idx = Some(shown.starting_idx + ei);
                    }
                },
                _ => {},
            }
            let dx = start_mouse_pos.x - mouse_pos.x;
            let dist = if dx < 0 { -dx } else { dx };
            if dist > glyph_width && self.select_start_idx.is_none() {
                match point_idx {
                    Some(ei) => {
                        self.select_start_idx = Some(shown.starting_idx + ei);
                        self.select_end_idx = Some(shown.starting_idx + ei);
                    },
                    None => {},
                }
            }
            return;
        }
        let adjusted = match point_idx {
            Some(i) => i,
            None => self.cursor_idx,
        };
        let last_shown = if shown.shown_len > 0 { shown.shown_len - 1 } else { 0 };
        if adjusted == 0 {
            self.move_cursor_left();
        } else if adjusted >= last_shown {
            self.move_cursor_right();
        } else {
            self.move_cursor(shown.starting_idx + adjusted);
        }
        self.select_end_idx = Some(self.cursor_idx);
    }
}


impl FixedSizeOneLineTextbox {
    /// The select bind was released with the pointer at `mouse_pos`: a drag
    /// going on follows the pointer one last time (see `drag_result`) and
    /// ends.
    pub fn bind_released(&mut self, mouse_pos: Vector2i, shown: ShownText, pressed_idx: Option<usize>, point_idx: Option<usize>)
        requires
            old(self).wf(),
            old(self).spec_global_bounds().edges_fit(),
            drag_fits(old(self).bind_pressed_at(), mouse_pos, old(self).cursor(), shown, pressed_idx, point_idx),
        ensures
            final(self).wf(),
            final(self).spec_hover() == old(self).spec_global_bounds().covers(mouse_pos),
            (final(self).cursor(), final(self).select_start(), final(self).select_end()) == old(self).drag_result(
                mouse_pos,
                shown,
                pressed_idx,
                point_idx,
            ),
            final(self).bind_pressed_at() is None,
            final(self).spec_rerender() == (old(self).spec_rerender() || final(self).spec_hover()
                || old(self).bind_pressed_at() is Some),
            final(self).text() == old(self).text(),
            final(self).spec_selected() == old(self).spec_selected(),
            final(self).spec_global_bounds() == old(self).spec_global_bounds(),
            final(self).spec_position() == old(self).spec_position(),
            final(self).spec_event_id() == old(self).spec_event_id(),
            final(self).spec_sync_id() == old(self).spec_sync_id(),
    {
        self.set_hover(mouse_pos);
        let dragging = self.is_dragging();
        if self.hover || dragging {
            self.rerender = true;
        }
        if dragging {
            self.drag_mouse(mouse_pos, shown, pressed_idx, point_idx);
            self.bind_pressed_location = None;
        }
    }

    /// Cuts the selection: returns the selected text (see `copy`) and
    /// deletes it; without a selection nothing happens.
    pub fn cut(&mut self) -> (r: Option<Vec<char>>)
        requires
            old(self).wf(),
            old(self).selection() matches Some((a, b)) ==> old(self).text().len() > 0 && (if a <= b {
                a
            } else {
                b
            }) < old(self).text().len(),
        ensures
            final(self).wf(),
            r is Some <==> old(self).selection() is Some,
            r matches Some(v) ==> (old(self).selection() matches Some((a, b)) && v@ == old(self).text().subrange(
                if a <= b { a } else { b },
                clamp_cursor(if a <= b { b } else { a }, old(self).text().len() - 1) + 1,
            )),
            old(self).selection() is None ==> *final(self) == *old(self),
            old(self).selection() is Some ==> {
                let st = entered(old(self).text(), old(self).cursor(), old(self).selection(), delete_char());
                &&& final(self).text() == st.0
                &&& final(self).cursor() == clamp_cursor(st.1 + 1, st.0.len() as int)
                &&& final(self).select_start() is None
                &&& final(self).select_end() is None
                &&& final(self).spec_rerender()
                &&& final(self).same_frame(*old(self))
            },
    {
        if self.select_start_idx.is_none() || self.select_end_idx.is_none() {
            return None;
        }
        let copied = self.copy();
        self.text_entered('\u{7f}');
        self.move_cursor_right();
        copied
    }

    /// Pastes `clip`: types over the selection, if any, then enters each
    /// character of `clip` in turn, and moves the cursor past the end when
    /// it is on the last character.
    pub fn paste(&mut self, clip: &Vec<char>)
        requires
            old(self).wf(),
        ensures
            final(self).wf(),
            ({
                let st0 = match old(self).selection() {
                    Some(_) => entered(old(self).text(), old(self).cursor(), old(self).selection(), backspace_char()),
                    None => (old(self).text(), old(self).cursor()),
                };
                let st1 = entered_all(st0, clip@);
                &&& final(self).text() == st1.0
                &&& final(self).cursor() == (if st1.1 >= st1.0.len() - 1 {
                    clamp_cursor(st1.1 + 1, st1.0.len() as int)
                } else {
                    st1.1
                })
                &&& final(self).spec_rerender() == (old(self).spec_rerender() || old(self).selection() is Some
                    || clip@.len() > 0 || st1.1 >= st1.0.len() - 1)
            }),
            old(self).selection() is Some || clip@.len() > 0 ==> final(self).select_start() is None
                && final(self).select_end() is None,
            old(self).selection() is None && clip@.len() == 0 ==> final(self).select_start() == old(self).select_start()
                && final(self).select_end() == old(self).select_end(),
            final(self).same_frame(*old(self)),
    {
        let ghost frame = *self;
        let had_selection = self.select_start_idx.is_some() && self.select_end_idx.is_some();
        if had_selection {
            self.text_entered('\u{8}');
        }
        let ghost st0 = (self.text(), self.cursor());
        let ghost rerender0 = self.spec_rerender();
        let ghost sel0 = (self.select_start(), self.select_end());
        let mut i: usize = 0;
        while i < clip.len()
            invariant
                i <= clip@.len(),
                self.wf(),
                self.same_frame(frame),
                (self.text(), self.cursor()) == entered_all(st0, clip@.subrange(0, i as int)),
                i == 0 ==> self.spec_rerender() == rerender0 && (self.select_start(), self.select_end()) == sel0,
                i > 0 ==> self.spec_rerender() && self.select_start() is None && self.select_end() is None,
                had_selection ==> self.select_start() is None && self.select_end() is None,
                self.selection() is None,
            decreases clip@.len() - i,
        {
            proof {
                assert(clip@.subrange(0, i as int + 1).drop_last() =~= clip@.subrange(0, i as int));
                assert(clip@.subrange(0, i as int + 1).last() == clip@[i as int]);
            }
            self.text_entered(clip[i]);
            i = i + 1;
        }
        proof {
            assert(clip@.subrange(0, i as int) =~= clip@);
        }
        let len = self.string.len();
        let last = if len > 0 { len - 1 } else { 0 };
        if self.cursor_idx >= last {
            self.move_cursor_right();
        }
    }
}


impl FixedSizeOneLineTextbox {
    /// Takes `string` from elsewhere: the text is replaced, the cursor goes
    /// to its end, and the box reacts as to a press of the select bind far
    /// outside the screen.
    pub fn sync(&mut self, string: Vec<char>, shown: ShownText, point_idx: Option<usize>)
        requires
            old(self).spec_global_bounds().edges_fit(),
            clicked_index(shown, point_idx) <= usize::MAX,
        ensures
            final(self).wf(),
            final(self).text() == string@,
            ({
                let far = Vector2i { x: i32::MIN, y: i32::MIN };
                let hover = old(self).spec_global_bounds().covers(far);
                &&& final(self).spec_hover() == hover
                &&& final(self).spec_selected() == hover
                &&& hover ==> final(self).bind_pressed_at() == Some(far)
                    && final(self).cursor() == clamp_cursor(clicked_index(shown, point_idx), string@.len() as int)
                &&& !hover ==> final(self).bind_pressed_at() == old(self).bind_pressed_at()
                    && final(self).cursor() == string@.len()
            }),
            final(self).select_start() is None,
            final(self).select_end() is None,
            final(self).spec_rerender(),
            final(self).spec_global_bounds() == old(self).spec_global_bounds(),
            final(self).spec_position() == old(self).spec_position(),
            final(self).spec_event_id() == old(self).spec_event_id(),
            final(self).spec_sync_id() == old(self).spec_sync_id(),
    {
        self.rerender = true;
        self.string = string;
        let len = self.string.len();
        self.move_cursor(len);
        self.bind_pressed(Vector2i::new(i32::MIN, i32::MIN), shown, point_idx);
    }

    /// The selection within the shown text, from its earlier to its later
    /// end: the selection's start is cut to the first shown character, its
    /// end to the end of the shown text.
    pub fn select_box_range(&self, shown: ShownText) -> (r: Option<(usize, usize)>)
        requires
            self.selection() matches Some((a, b)) ==> shown.starting_idx <= b && shown.starting_idx
                + shown.shown_len <= usize::MAX,
        ensures
            r == (match self.selection() {
                Some((a, b)) => {
                    let st = shown.starting_idx as int;
                    let start = (if a >= st { a } else { st }) - st;
                    let end = (if b <= st + shown.shown_len { b } else { st + shown.shown_len }) - st;
                    Some(
                        (
                            (if start <= end { start } else { end }) as usize,
                            (if start <= end { end } else { start }) as usize,
                        ),
                    )
                },
                None => None,
            }),
    {
        match (self.select_start_idx, self.select_end_idx) {
            (Some(a), Some(b)) => {
                let st = shown.starting_idx;
                let shown_end = st + shown.shown_len;
                let start = (if a >= st { a } else { st }) - st;
                let end = (if b <= shown_end { b } else { shown_end }) - st;
                Some((if start <= end { start } else { end }, if start <= end { end } else { start }))
            },
            _ => None,
        }
    }

    /// Places the box, keeping its size, so that its anchor is `rcoord`
    /// (see `UIPosition::center_with_size_from_rcoords`).
    pub fn update_position(&mut self, rcoord: Vector2i)
        requires
            old(self).spec_position().center_fits(
                rcoord,
                Vector2i { x: old(self).spec_global_bounds().width, y: old(self).spec_global_bounds().height },
            ),
        ensures
            ({
                let size = Vector2i { x: old(self).spec_global_bounds().width, y: old(self).spec_global_bounds().height };
                final(self).spec_global_bounds() == IntRect::from_vecs_spec(
                    old(self).spec_position().spec_center_from_rcoords(rcoord, size),
                    size,
                )
            }),
            final(self).text() == old(self).text(),
            final(self).cursor() == old(self).cursor(),
            final(self).select_start() == old(self).select_start(),
            final(self).select_end() == old(self).select_end(),
            final(self).spec_rerender() == old(self).spec_rerender(),
            final(self).spec_position() == old(self).spec_position(),
            final(self).spec_event_id() == old(self).spec_event_id(),
            final(self).spec_sync_id() == old(self).spec_sync_id(),
            final(self).spec_hover() == old(self).spec_hover(),
            final(self).spec_selected() == old(self).spec_selected(),
            final(self).bind_pressed_at() == old(self).bind_pressed_at(),
    {
        let size = self.global_bounds.size();
        self.global_bounds = self.position.center_with_size_from_rcoords(rcoord, size);
    }

    /// Moves the box to `position`, whose anchor is then `rcoord`.
    pub fn set_ui_position(&mut self, position: UIPosition, rcoord: Vector2i)
        requires
            position.center_fits(
                rcoord,
                Vector2i { x: old(self).spec_global_bounds().width, y: old(self).spec_global_bounds().height },
            ),
        ensures
            ({
                let size = Vector2i { x: old(self).spec_global_bounds().width, y: old(self).spec_global_bounds().height };
                final(self).spec_global_bounds() == IntRect::from_vecs_spec(
                    position.spec_center_from_rcoords(rcoord, size),
                    size,
                )
            }),
            final(self).spec_position() == position,
            final(self).text() == old(self).text(),
            final(self).cursor() == old(self).cursor(),
            final(self).select_start() == old(self).select_start(),
            final(self).select_end() == old(self).select_end(),
            final(self).spec_rerender() == old(self).spec_rerender(),
            final(self).spec_event_id() == old(self).spec_event_id(),
            final(self).spec_sync_id() == old(self).spec_sync_id(),
            final(self).spec_hover() == old(self).spec_hover(),
            final(self).spec_selected() == old(self).spec_selected(),
            final(self).bind_pressed_at() == old(self).bind_pressed_at(),
    {
        self.position = position;
        self.update_position(rcoord);
    }

    /// The event id and the text that the box reports when it is triggered.
    pub fn triggered_event(&self) -> (r: (u16, Vec<char>))
        ensures
            r.0 == self.spec_event_id(),
            r.1@ == self.text(),
    {
        (self.event_id, copy_chars(&self.string, 0, self.string.len()))
    }
}


/// Typing a character on the last character of the text, or past it, and
/// then pressing backspace gives back the text and the cursor.
pub proof fn lemma_type_then_backspace_restores(s: Seq<char>, cursor: int, c: char)
    requires
        0 <= cursor <= s.len(),
        cursor >= s.len() - 1,
        c != backspace_char(),
        c != delete_char(),
        !is_ignored_char(c),
    ensures
        ({
            let t = entered(s, cursor, None, c);
            entered(t.0, t.1, None, backspace_char()) == (s, cursor)
        }),
{
    let t = entered(s, cursor, None, c);
    assert(t.0 == s.push(c));
    assert(t.0.drop_last() =~= s);
    if cursor < s.len() {
        assert(t.0.remove(cursor + 1) =~= s);
    }
}

/// `k` backspaces from the later end `b` of a selection delete the `k`
/// characters that end at `b`.
proof fn lemma_backspace_steps_from(s: Seq<char>, a: int, b: int, k: nat)
    requires
        0 <= a <= b < s.len(),
        k <= b - a + 1,
    ensures
        backspace_steps((s, b), k) == (
            s.subrange(0, b + 1 - k) + s.subrange(b + 1, s.len() as int),
            cursor_left(b + 1 - k),
        ),
    decreases k,
{
    if k > 0 {
        let k1 = (k - 1) as nat;
        lemma_backspace_steps_from(s, a, b, k1);
        let t = s.subrange(0, b + 1 - k1) + s.subrange(b + 1, s.len() as int);
        let c = cursor_left(b + 1 - k1);
        assert(c == b - k1);
        assert(t.remove(c) =~= s.subrange(0, b + 1 - k) + s.subrange(b + 1, s.len() as int));
    }
}

/// A backspace over a selection that lies within the text deletes exactly
/// the selected characters, whichever end was selected first.
pub proof fn lemma_selection_backspace_deletes_selection(s: Seq<char>, a: int, b: int)
    requires
        0 <= a < s.len(),
        0 <= b < s.len(),
    ensures
        ({
            let start = if a <= b { a } else { b };
            let end = if a <= b { b } else { a };
            selection_backspace(s, a, b).0 == s.subrange(0, start) + s.subrange(end + 1, s.len() as int)
        }),
{
    let start = if a <= b { a } else { b };
    let end = if a <= b { b } else { a };
    lemma_backspace_steps_from(s, start, end, (end - start + 1) as nat);
}


/// What a text box reports after handling an event: the response that was
/// chosen, the events it emits (its event id with its text), whether the
/// screen needs a redraw, and the text cut or copied for the clipboard.
#[derive(Clone, Debug, PartialEq, Eq)]
pub struct TextBoxEventOutcome {
    pub response: TextBoxResponse,
    pub events: Vec<(u16, Vec<char>)>,
    pub rerender: bool,
    pub copied: Option<Vec<char>>,
}

/// Whether a response emits the box's event; a press emits it only when
/// it changed whether the box is selected.
pub open spec fn response_emits(resp: TextBoxResponse, selection_flipped: bool) -> bool {
    match resp {
        TextBoxResponse::Deselect => true,
        TextBoxResponse::Cut => true,
        TextBoxResponse::Paste => true,
        TextBoxResponse::TextEntered => true,
        TextBoxResponse::KeyWhileSelected => true,
        TextBoxResponse::BindPressed => selection_flipped,
        _ => false,
    }
}

/// Whether a response asks for a redraw: a press only when it changed
/// whether the box is selected, a release only while still dragging.
pub open spec fn response_redraws(resp: TextBoxResponse, selection_flipped: bool, dragging_after: bool) -> bool {
    match resp {
        TextBoxResponse::BindPressed => selection_flipped,
        TextBoxResponse::BindReleased => dragging_after,
        TextBoxResponse::KeyWhileSelected => false,
        TextBoxResponse::Ignore => false,
        _ => true,
    }
}

impl FixedSizeOneLineTextbox {
    /// Everything but the hover state is as in `old`.
    pub open spec fn same_but_hover(self, old: Self) -> bool {
        &&& self.text() == old.text()
        &&& self.cursor() == old.cursor()
        &&& self.select_start() == old.select_start()
        &&& self.select_end() == old.select_end()
        &&& self.spec_selected() == old.spec_selected()
        &&& self.spec_rerender() == old.spec_rerender()
        &&& self.bind_pressed_at() == old.bind_pressed_at()
        &&& self.spec_global_bounds() == old.spec_global_bounds()
        &&& self.spec_position() == old.spec_position()
        &&& self.spec_event_id() == old.spec_event_id()
        &&& self.spec_sync_id() == old.spec_sync_id()
    }

    /// The response the box gives to `event`.
    pub open spec fn response_to(self, binds: &Bindings, event: UIEvent) -> TextBoxResponse {
        textbox_response_spec(self.spec_selected(), self.bind_pressed_at() is Some, binds@, event)
    }

    /// The arithmetic and the slicing of the chosen response stay in range.
    pub open spec fn event_fits(
        self,
        resp: TextBoxResponse,
        cursor: Vector2i,
        shown: ShownText,
        pressed_idx: Option<usize>,
        point_idx: Option<usize>,
    ) -> bool {
        match resp {
            TextBoxResponse::Cut | TextBoxResponse::Copy => self.selection() matches Some((a, b))
                ==> self.text().len() > 0 && (if a <= b { a } else { b }) < self.text().len(),
            TextBoxResponse::Drag | TextBoxResponse::BindReleased => drag_fits(
                self.bind_pressed_at(),
                cursor,
                self.cursor(),
                shown,
                pressed_idx,
                point_idx,
            ),
            TextBoxResponse::BindPressed => clicked_index(shown, point_idx) <= usize::MAX,
            _ => true,
        }
    }

    /// Handles a window event: the box follows the cursor at `cursor`, then
    /// does what `textbox_response` picks, with the font's view of the text
    /// in `shown`, `pressed_idx` and `point_idx` (see `drag_mouse`) and the
    /// clipboard's text in `clip` (read on paste only).
    pub fn event_handler(
        &mut self,
        binds: &Bindings,
        event: &UIEvent,
        cursor: Vector2i,
        shown: ShownText,
        pressed_idx: Option<usize>,
        point_idx: Option<usize>,
        clip: &Vec<char>,
    ) -> (r: TextBoxEventOutcome)
        requires
            old(self).wf(),
            binds.wf(),
            old(self).spec_global_bounds().edges_fit(),
            old(self).event_fits(old(self).response_to(binds, *event), cursor, shown, pressed_idx, point_idx),
        ensures
            final(self).wf(),
            r.response == old(self).response_to(binds, *event),
            final(self).spec_hover() == old(self).spec_global_bounds().covers(cursor),
            final(self).spec_global_bounds() == old(self).spec_global_bounds(),
            final(self).spec_position() == old(self).spec_position(),
            final(self).spec_event_id() == old(self).spec_event_id(),
            final(self).spec_sync_id() == old(self).spec_sync_id(),
            ({
                let flipped = final(self).spec_selected() != old(self).spec_selected();
                &&& r.events@.len() == (if response_emits(r.response, flipped) { 1int } else { 0int })
                &&& response_emits(r.response, flipped) ==> r.events@[0].0 == old(self).spec_event_id()
                    && r.events@[0].1@ == final(self).text()
                &&& r.rerender == response_redraws(r.response, flipped, final(self).bind_pressed_at() is Some)
            }),
            (r.response == TextBoxResponse::Cut || r.response == TextBoxResponse::Copy) ==> {
                &&& r.copied is Some <==> old(self).selection() is Some
                &&& r.copied matches Some(v) ==> (old(self).selection() matches Some((a, b)) && v@
                    == old(self).text().subrange(
                    if a <= b { a } else { b },
                    clamp_cursor(if a <= b { b } else { a }, old(self).text().len() - 1) + 1,
                ))
            },
            !(r.response == TextBoxResponse::Cut || r.response == TextBoxResponse::Copy) ==> r.copied is None,
            r.response == TextBoxResponse::Deselect ==> {
                &&& !final(self).spec_selected()
                &&& final(self).select_start() is None
                &&& final(self).select_end() is None
                &&& final(self).text() == old(self).text()
                &&& final(self).cursor() == old(self).cursor()
                &&& final(self).spec_rerender() == old(self).spec_rerender()
                &&& final(self).bind_pressed_at() == old(self).bind_pressed_at()
            },
            r.response == TextBoxResponse::Cut ==> (if old(self).selection() is None {
                final(self).same_but_hover(*old(self))
            } else {
                let st = entered(old(self).text(), old(self).cursor(), old(self).selection(), delete_char());
                &&& final(self).text() == st.0
                &&& final(self).cursor() == clamp_cursor(st.1 + 1, st.0.len() as int)
                &&& final(self).select_start() is None
                &&& final(self).select_end() is None
                &&& final(self).spec_rerender()
                &&& final(self).spec_selected() == old(self).spec_selected()
                &&& final(self).bind_pressed_at() == old(self).bind_pressed_at()
            }),
            (r.response == TextBoxResponse::Copy || r.response == TextBoxResponse::SelectAll || r.response
                == TextBoxResponse::KeyWhileSelected || r.response == TextBoxResponse::Ignore) ==> final(self).same_but_hover(*old(self)),
            r.response == TextBoxResponse::Paste ==> {
                let st0 = match old(self).selection() {
                    Some(_) => entered(old(self).text(), old(self).cursor(), old(self).selection(), backspace_char()),
                    None => (old(self).text(), old(self).cursor()),
                };
                let st1 = entered_all(st0, clip@);
                &&& final(self).text() == st1.0
                &&& final(self).cursor() == (if st1.1 >= st1.0.len() - 1 {
                    clamp_cursor(st1.1 + 1, st1.0.len() as int)
                } else {
                    st1.1
                })
                &&& final(self).spec_rerender() == (old(self).spec_rerender() || old(self).selection() is Some
                    || clip@.len() > 0 || st1.1 >= st1.0.len() - 1)
                &&& (old(self).selection() is Some || clip@.len() > 0 ==> final(self).select_start() is None
                    && final(self).select_end() is None)
                &&& (old(self).selection() is None && clip@.len() == 0 ==> final(self).select_start()
                    == old(self).select_start() && final(self).select_end() == old(self).select_end())
                &&& final(self).spec_selected() == old(self).spec_selected()
                &&& final(self).bind_pressed_at() == old(self).bind_pressed_at()
            },
            r.response == TextBoxResponse::Drag ==> {
                &&& (final(self).cursor(), final(self).select_start(), final(self).select_end()) == old(self).drag_result(cursor, shown, pressed_idx, point_idx)
                &&& final(self).spec_rerender() == (old(self).spec_rerender() || old(self).bind_pressed_at() is Some)
                &&& final(self).text() == old(self).text()
                &&& final(self).spec_selected() == old(self).spec_selected()
                &&& final(self).bind_pressed_at() == old(self).bind_pressed_at()
            },
            r.response == TextBoxResponse::BindPressed ==> {
                &&& final(self).spec_selected() == final(self).spec_hover()
                &&& final(self).select_start() is None
                &&& final(self).select_end() is None
                &&& final(self).text() == old(self).text()
                &&& final(self).spec_rerender() == (old(self).spec_rerender() || old(self).select_start() is Some
                    || final(self).spec_hover())
                &&& final(self).spec_hover() ==> final(self).bind_pressed_at() == Some(cursor)
                    && final(self).cursor() == clamp_cursor(clicked_index(shown, point_idx), old(self).text().len() as int)
                &&& !final(self).spec_hover() ==> final(self).bind_pressed_at() == old(self).bind_pressed_at()
                    && final(self).cursor() == old(self).cursor()
            },
            r.response == TextBoxResponse::BindReleased ==> {
                &&& (final(self).cursor(), final(self).select_start(), final(self).select_end()) == old(self).drag_result(cursor, shown, pressed_idx, point_idx)
                &&& final(self).bind_pressed_at() is None
                &&& final(self).spec_rerender() == (old(self).spec_rerender() || final(self).spec_hover()
                    || old(self).bind_pressed_at() is Some)
                &&& final(self).text() == old(self).text()
                &&& final(self).spec_selected() == old(self).spec_selected()
            },
            r.response == TextBoxResponse::MoveCursorLeft ==> {
                &&& final(self).cursor() == clamp_cursor(cursor_left(old(self).cursor()), old(self).text().len() as int)
                &&& final(self).text() == old(self).text()
                &&& final(self).select_start() is None
                &&& final(self).select_end() is None
                &&& final(self).spec_rerender()
                &&& final(self).spec_selected() == old(self).spec_selected()
                &&& final(self).bind_pressed_at() == old(self).bind_pressed_at()
            },
            r.response == TextBoxResponse::MoveCursorRight ==> {
                &&& final(self).cursor() == clamp_cursor(old(self).cursor() + 1, old(self).text().len() as int)
                &&& final(self).text() == old(self).text()
                &&& final(self).select_start() is None
                &&& final(self).select_end() is None
                &&& final(self).spec_rerender()
                &&& final(self).spec_selected() == old(self).spec_selected()
                &&& final(self).bind_pressed_at() == old(self).bind_pressed_at()
            },
            r.response == TextBoxResponse::TextEntered ==> (*event matches UIEvent::TextEntered { unicode } && {
                &&& (final(self).text(), final(self).cursor()) == entered(
                    old(self).text(),
                    old(self).cursor(),
                    old(self).selection(),
                    unicode,
                )
                &&& final(self).select_start() is None
                &&& final(self).select_end() is None
                &&& final(self).spec_rerender()
                &&& final(self).spec_selected() == old(self).spec_selected()
                &&& final(self).bind_pressed_at() == old(self).bind_pressed_at()
            }),
    {
        let response = textbox_response(self.selected, self.bind_pressed_location.is_some(), binds, event);
        self.set_hover(cursor);
        let was_selected = self.selected;
        let mut emits = false;
        let mut rerender = true;
        let mut copied: Option<Vec<char>> = None;
        match response {
            TextBoxResponse::Deselect => {
                self.deselect();
                emits = true;
            },
            TextBoxResponse::Cut => {
                copied = self.cut();
                emits = true;
            },
            TextBoxResponse::Copy => {
                copied = self.copy();
            },
            TextBoxResponse::Paste => {
                self.paste(clip);
                emits = true;
            },
            TextBoxResponse::SelectAll => {},
            TextBoxResponse::Drag => {
                self.drag_mouse(cursor, shown, pressed_idx, point_idx);
            },
            TextBoxResponse::BindPressed => {
                self.bind_pressed(cursor, shown, point_idx);
                let flipped = was_selected != self.selected;
                emits = flipped;
                rerender = flipped;
            },
            TextBoxResponse::BindReleased => {
                self.bind_released(cursor, shown, pressed_idx, point_idx);
                rerender = self.is_dragging();
            },
            TextBoxResponse::MoveCursorLeft => {
                self.move_cursor_left();
                self.make_select_box_dissappear();
            },
            TextBoxResponse::MoveCursorRight => {
                self.move_cursor_right();
                self.make_select_box_dissappear();
            },
            TextBoxResponse::TextEntered => {
                match *event {
                    UIEvent::TextEntered { unicode } => self.text_entered(unicode),
                    _ => {},
                }
                emits = true;
            },
            TextBoxResponse::KeyWhileSelected => {
                emits = true;
                rerender = false;
            },
            TextBoxResponse::Ignore => {
                rerender = false;
            },
        }
        let mut events: Vec<(u16, Vec<char>)> = Vec::new();
        if emits {
            events.push(self.triggered_event());
        }
        TextBoxEventOutcome { response, events, rerender, copied }
    }
}


/// How moving the cursor to `new` re-centres the part of the text on
/// screen, which starts at `starting_idx` and shows `shown_len` characters
/// of a text `len` long.
#[derive(Clone, Copy, Debug, PartialEq, Eq, Structural)]
pub enum WindowPlan {
    /// The cursor passed the end of the shown part: it goes to `end` (the
    /// new index, at most the end of the text), and the shown part grows to
    /// the left from `end` for as long as it fits.
    GrowLeft { end: usize },
    /// The cursor went before the start of the shown part: the shown part
    /// starts at the cursor, `start`, and grows to the right for as long as
    /// it fits.
    GrowRight { start: usize },
    /// The cursor stays inside the shown part, which keeps its start and,
    /// when `end` is before the end of the text, grows to the right from
    /// `end` for as long as it fits.
    Keep { start: usize, end: usize },
}

/// The plan for moving the cursor to `new`.
pub open spec fn window_plan_spec(new: int, starting_idx: int, shown_len: int, len: int) -> WindowPlan {
    let adjusted = if new >= starting_idx { new - starting_idx } else { 0 };
    if adjusted >= shown_len {
        WindowPlan::GrowLeft { end: (if new < len { new } else { len }) as usize }
    } else if new < starting_idx {
        WindowPlan::GrowRight { start: new as usize }
    } else {
        WindowPlan::Keep {
            start: starting_idx as usize,
            end: (if len < starting_idx + shown_len { len } else { starting_idx + shown_len }) as usize,
        }
    }
}

pub fn window_plan(new: usize, starting_idx: usize, shown_len: usize, len: usize) -> (r: WindowPlan)
    requires
        starting_idx + shown_len <= usize::MAX,
    ensures
        r == window_plan_spec(new as int, starting_idx as int, shown_len as int, len as int),
{
    let adjusted = if new >= starting_idx { new - starting_idx } else { 0 };
    if adjusted >= shown_len {
        WindowPlan::GrowLeft { end: if new < len { new } else { len } }
    } else if new < starting_idx {
        WindowPlan::GrowRight { start: new }
    } else {
        let shown_end = starting_idx + shown_len;
        WindowPlan::Keep { start: starting_idx, end: if len < shown_end { len } else { shown_end } }
    }
}

/// The last index `j <= k` at which `too_big` holds, or -1.
pub open spec fn last_too_big(too_big: Seq<bool>, k: int) -> int
    decreases k + 1,
{
    if k < 0 {
        -1
    } else if too_big[k] {
        k
    } else {
        last_too_big(too_big, k - 1)
    }
}

/// The first index `j` from `k` up to `len` at which `too_big` holds, or
/// `len + 1`.
pub open spec fn first_too_big(too_big: Seq<bool>, k: int, len: int) -> int
    decreases len + 1 - k,
{
    if k > len {
        len + 1
    } else if too_big[k] {
        k
    } else {
        first_too_big(too_big, k + 1, len)
    }
}

/// The start of the shown part when it grows to the left from `end`:
/// `too_big[k]` says whether the characters from `k` to `end` are wider
/// than the box (as the font measures them). The start is just after the
/// last start that is too wide, or the start of the text.
pub fn grow_left(end: usize, too_big: &Vec<bool>) -> (start: usize)
    requires
        too_big@.len() == end + 1,
        !too_big@[end as int],
    ensures
        start == last_too_big(too_big@, end as int) + 1,
        start <= end,
{
    let mut start = end;
    while start > 0 && !too_big[start]
        invariant
            start <= end,
            too_big@.len() == end + 1,
            !too_big@[end as int],
            last_too_big(too_big@, end as int) == last_too_big(too_big@, start as int),
        decreases start,
    {
        start = start - 1;
    }
    if too_big[start] {
        start + 1
    } else {
        proof {
            assert(last_too_big(too_big@, -1) == -1);
        }
        start
    }
}

/// The end of the shown part when it grows to the right from `from`, in a
/// text `len` long: `too_big[k]` says whether the characters from the
/// shown part's start `lower` to `k` are wider than the box (as the font
/// measures them). The end is just before the first end that is too wide,
/// or the end of the text.
pub fn grow_right(lower: usize, from: usize, len: usize, too_big: &Vec<bool>) -> (end: usize)
    requires
        lower <= from <= len,
        too_big@.len() == len + 1,
        too_big@[from as int] ==> lower < from,
    ensures
        end == first_too_big(too_big@, from as int, len as int) - 1,
        lower <= end <= len,
{
    let mut end = from;
    while end < len && !too_big[end]
        invariant
            lower <= from <= end <= len,
            too_big@.len() == len + 1,
            too_big@[from as int] ==> lower < from,
            first_too_big(too_big@, from as int, len as int) == first_too_big(too_big@, end as int, len as int),
            end > from ==> !too_big@[from as int],
        decreases len - end,
    {
        end = end + 1;
    }
    if too_big[end] {
        end - 1
    } else {
        proof {
            assert(first_too_big(too_big@, len as int + 1, len as int) == len + 1);
        }
        end
    }
}

/// The shown part and the cursor after the cursor moves to `new` in a text
/// `len` long, following `plan` (see `window_plan`), with the font's
/// answers in `too_big` (see `grow_left` and `grow_right`): the new start
/// of the shown part, how many characters it shows, and the cursor.
pub fn move_cursor_window(plan: WindowPlan, new: usize, len: usize, too_big: &Vec<bool>) -> (r: (usize, usize, usize))
    requires
        match plan {
            WindowPlan::GrowLeft { end } => too_big@.len() == end + 1 && !too_big@[end as int],
            WindowPlan::GrowRight { start } => start <= len && too_big@.len() == len + 1 && !too_big@[start as int],
            WindowPlan::Keep { start, end } => start <= end <= len && too_big@.len() == len + 1 && (end < len
                && too_big@[end as int] ==> start < end),
        },
    ensures
        match plan {
            WindowPlan::GrowLeft { end } => {
                let start = last_too_big(too_big@, end as int) + 1;
                r == (start as usize, (end - start) as usize, end)
            },
            WindowPlan::GrowRight { start } => {
                let end = first_too_big(too_big@, start as int, len as int) - 1;
                r == (start, (end - start) as usize, start)
            },
            WindowPlan::Keep { start, end } => {
                let new_end = if end < len { first_too_big(too_big@, end as int, len as int) - 1 } else { end as int };
                r == (start, (new_end - start) as usize, new)
            },
        },
{
    match plan {
        WindowPlan::GrowLeft { end } => {
            let start = grow_left(end, too_big);
            (start, end - start, end)
        },
        WindowPlan::GrowRight { start } => {
            let end = grow_right(start, start, len, too_big);
            (start, end - start, start)
        },
        WindowPlan::Keep { start, end } => {
            let new_end = if end < len { grow_right(start, end, len, too_big) } else { end };
            (start, new_end - start, new)
        },
    }
}

} // verus!
