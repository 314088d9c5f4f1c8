use vstd::prelude::*;
use crate::common::Widgetlike;
use crate::dimensions::{LayoutHacks, WidgetDimensions};
use crate::geometry::Size;
use crate::ui::UI;

verus! {

/// The preferred width of an input box with no maximum width: room for a
/// fairly long text.
pub const DEFAULT_INPUT_WIDTH: isize = 80;

/// The editing keys an input box answers to while it has the focus.
#[derive(Clone, Copy, Debug, PartialEq, Eq, Structural)]
pub enum EditKey {
    Backspace,
    Delete,
    Left,
    Right,
    Home,
    End,
    Enter,
}

/// An editable line of text with a cursor, which may span a selection.
/// `cursor_l == cursor_r` is a plain cursor in front of the character at that
/// position; otherwise the characters from `cursor_l` to `cursor_r`, both
/// included, are selected.
pub struct InputBoxState {
    text: Vec<char>,
    cursor_l: usize,
    cursor_r: usize,
    pub max_width: Option<usize>,
    pub layout_hacks: LayoutHacks,
}

/// `s` without the characters from `l` to `r`, both included.
pub open spec fn without_range(s: Seq<char>, l: int, r: int) -> Seq<char> {
    s.subrange(0, l) + s.subrange(r + 1, s.len() as int)
}

/// Where a cursor set to `value` lands in a text of `len` characters.
pub open spec fn clamp_to(value: int, len: int) -> int {
    if value > len { len } else { value }
}

/// The selection `[l, r]` after clamping both ends to the text and pulling a
/// right end that would stand past the last character back onto it.
pub open spec fn fixed_cursors(l: int, r: int, len: int) -> (int, int) {
    let l2 = clamp_to(l, len);
    let r2 = clamp_to(r, len);
    if r2 != l2 && r2 == len { (l2, r2 - 1) } else { (l2, r2) }
}

impl InputBoxState {
    pub closed spec fn view_text(&self) -> Seq<char> {
        self.text@
    }

    pub closed spec fn width_limit(&self) -> Option<usize> {
        self.max_width
    }

    pub closed spec fn hacks(&self) -> LayoutHacks {
        self.layout_hacks
    }

    pub closed spec fn left(&self) -> int {
        self.cursor_l as int
    }

    pub closed spec fn right(&self) -> int {
        self.cursor_r as int
    }

    pub open spec fn has_selection(&self) -> bool {
        self.left() != self.right()
    }

    pub open spec fn wf(&self) -> bool {
        &&& 0 <= self.left() <= self.right() <= self.view_text().len()
        &&& self.has_selection() ==> self.right() < self.view_text().len()
        &&& self.view_text().len() <= isize::MAX
    }

    /// The text once a selection, if any, is removed.
    pub open spec fn text_after_cut(&self) -> Seq<char> {
        if self.has_selection() {
            without_range(self.view_text(), self.left(), self.right())
        } else {
            self.view_text()
        }
    }

    /// Whether no more characters may be typed into a text of `len` characters.
    pub open spec fn full_at(&self, len: int) -> bool {
        len >= isize::MAX || match self.width_limit() {
            Some(mx) => len >= mx,
            None => false,
        }
    }

    /// What Backspace does: removes the selection, or else the character in
    /// front of the cursor, which moves back onto it; nothing at the start.
    pub open spec fn backspace_outcome(before: InputBoxState, after: InputBoxState) -> bool {
        &&& before.has_selection() ==> {
            &&& after.view_text() == before.text_after_cut()
            &&& after.left() == before.left()
            &&& after.right() == before.left()
        }
        &&& !before.has_selection() && before.left() == 0 ==> after == before
        &&& !before.has_selection() && before.left() > 0 ==> {
            &&& after.view_text() == before.view_text().remove(before.left() - 1)
            &&& after.left() == before.left() - 1
            &&& after.right() == before.left() - 1
        }
    }

    /// What Delete does: removes the selection, or else the character at the
    /// cursor; nothing at the end of the text.
    pub open spec fn delete_outcome(before: InputBoxState, after: InputBoxState) -> bool {
        &&& before.has_selection() ==> {
            &&& after.view_text() == before.text_after_cut()
            &&& after.left() == before.left()
            &&& after.right() == before.left()
        }
        &&& !before.has_selection() && before.left() == before.view_text().len() ==> after == before
        &&& !before.has_selection() && before.left() < before.view_text().len() ==> {
            &&& after.view_text() == before.view_text().remove(before.left())
            &&& after.left() == before.left()
            &&& after.right() == before.left()
        }
    }

    /// What moving the cursor by `amount` does: a plain cursor `amount` away
    /// from the right end of a selection (rightwards) or its left end
    /// (otherwise), stopped at either end of the text.
    pub open spec fn move_outcome(before: InputBoxState, amount: int, after: InputBoxState) -> bool {
        let from = if amount > 0 { before.right() } else { before.left() };
        let to = from + amount;
        &&& after.view_text() == before.view_text()
        &&& after.left() == if to < 0 { 0 } else if to > before.view_text().len() {
            before.view_text().len() as int
        } else {
            to
        }
        &&& after.right() == after.left()
    }

    /// What setting the cursor to `value` does: a plain cursor there, or at
    /// the end of the text if `value` lies beyond it.
    pub open spec fn set_cursor_outcome(before: InputBoxState, value: int, after: InputBoxState) -> bool {
        &&& after.view_text() == before.view_text()
        &&& after.left() == clamp_to(value, before.view_text().len() as int)
        &&& after.right() == after.left()
    }

    pub fn new() -> (r: InputBoxState)
        ensures
            r.wf(),
            r.view_text() == Seq::<char>::empty(),
            r.left() == 0,
            r.right() == 0,
            r.width_limit() is None,
            r.hacks() == LayoutHacks::none(),
    {
        InputBoxState {
            text: Vec::new(),
            cursor_l: 0,
            cursor_r: 0,
            max_width: None,
            layout_hacks: LayoutHacks::new(),
        }
    }

    pub fn text(&self) -> (r: &Vec<char>)
        ensures
            r@ == self.view_text(),
    {
        &self.text
    }

    pub fn cursor(&self) -> (r: (usize, usize))
        ensures
            r.0 == self.left(),
            r.1 == self.right(),
    {
        (self.cursor_l, self.cursor_r)
    }

    /// Removes the selected characters and leaves a plain cursor where the
    /// selection began.
    fn cut_selection(&mut self)
        requires
            old(self).wf(),
            old(self).has_selection(),
        ensures
            final(self).wf(),
            final(self).view_text() == old(self).text_after_cut(),
            final(self).left() == old(self).left(),
            final(self).right() == old(self).left(),
            final(self).width_limit() == old(self).width_limit(),
            final(self).hacks() == old(self).hacks(),
    {
        let ghost t = self.text@;
        let mut tail = self.text.split_off(self.cursor_r + 1);
        self.text.truncate(self.cursor_l);
        self.text.append(&mut tail);
        self.cursor_r = self.cursor_l;
        proof {
            assert(self.text@ =~= without_range(t, old(self).left(), old(self).right()));
        }
    }

    /// Types `character`: a selection is replaced, and unless the text is
    /// then full the character goes in at the cursor, which moves past it.
    pub fn type_character(&mut self, character: char)
        requires
            old(self).wf(),
        ensures
            final(self).wf(),
            final(self).width_limit() == old(self).width_limit(),
            final(self).hacks() == old(self).hacks(),
            old(self).full_at(old(self).text_after_cut().len() as int) ==> {
                &&& final(self).view_text() == old(self).text_after_cut()
                &&& final(self).left() == old(self).left()
                &&& final(self).right() == old(self).left()
            },
            !old(self).full_at(old(self).text_after_cut().len() as int) ==> {
                &&& final(self).view_text() == old(self).text_after_cut().insert(old(self).left(), character)
                &&& final(self).left() == old(self).left() + 1
                &&& final(self).right() == old(self).left() + 1
            },
    {
        if self.cursor_l != self.cursor_r {
            self.cut_selection();
        }
        if self.text.len() >= isize::MAX as usize {
            return;
        }
        match self.max_width {
            Some(mx) => {
                if self.text.len() >= mx {
                    return;
                }
            },
            None => {},
        }
        self.text.insert(self.cursor_l, character);
        self.cursor_l = self.cursor_l + 1;
        self.cursor_r = self.cursor_r + 1;
    }

    /// Removes the selection, or else the character in front of the cursor
    /// (nothing at the start of the text).
    pub fn backspace(&mut self)
        requires
            old(self).wf(),
        ensures
            final(self).wf(),
            final(self).width_limit() == old(self).width_limit(),
            final(self).hacks() == old(self).hacks(),
            Self::backspace_outcome(*old(self), *final(self)),
    {
        if self.cursor_l != self.cursor_r {
            self.cut_selection();
            return;
        }
        if self.cursor_l == 0 {
            return;
        }
        self.text.remove(self.cursor_l - 1);
        self.cursor_l = self.cursor_l - 1;
        self.cursor_r = self.cursor_l;
    }

    /// Removes the selection, or else the character at the cursor (nothing
    /// at the end of the text).
    pub fn delete(&mut self)
        requires
            old(self).wf(),
        ensures
            final(self).wf(),
            final(self).width_limit() == old(self).width_limit(),
            final(self).hacks() == old(self).hacks(),
            Self::delete_outcome(*old(self), *final(self)),
    {
        if self.cursor_l != self.cursor_r {
            self.cut_selection();
            return;
        }
        if self.cursor_l >= self.text.len() {
            return;
        }
        self.text.remove(self.cursor_l);
    }

    /// Clamps both ends of the selection to the text, and pulls a right end
    /// that would stand past the last character back onto it.
    fn cursor_fixup(&mut self)
        requires
            old(self).left() <= old(self).right(),
            old(self).view_text().len() <= isize::MAX,
        ensures
            final(self).wf(),
            final(self).view_text() == old(self).view_text(),
            (final(self).left(), final(self).right())
                == fixed_cursors(old(self).left(), old(self).right(), old(self).view_text().len() as int),
            final(self).width_limit() == old(self).width_limit(),
            final(self).hacks() == old(self).hacks(),
    {
        if self.cursor_l > self.text.len() {
            self.cursor_l = self.text.len();
        }
        if self.cursor_r > self.text.len() {
            self.cursor_r = self.text.len();
        }
        if self.cursor_r != self.cursor_l && self.cursor_r == self.text.len() {
            self.cursor_r = self.text.len() - 1;
        }
    }

    /// Puts a plain cursor at `value`, or at the end of the text if `value`
    /// lies beyond it.
    pub fn set_cursor(&mut self, value: usize)
        requires
            old(self).wf(),
        ensures
            final(self).wf(),
            Self::set_cursor_outcome(*old(self), value as int, *final(self)),
            final(self).width_limit() == old(self).width_limit(),
            final(self).hacks() == old(self).hacks(),
    {
        self.cursor_l = value;
        self.cursor_r = value;
        self.cursor_fixup();
    }

    /// Moves the cursor by `amount` (rightwards from the right end of a
    /// selection, leftwards from its left end), stopping at either end of the
    /// text, and leaves a plain cursor there.
    pub fn move_cursor(&mut self, amount: isize)
        requires
            old(self).wf(),
        ensures
            final(self).wf(),
            Self::move_outcome(*old(self), amount as int, *final(self)),
            final(self).width_limit() == old(self).width_limit(),
            final(self).hacks() == old(self).hacks(),
    {
        if amount > 0 {
            self.cursor_l = self.cursor_r;
        }
        let len = self.text.len() as isize;
        let from = self.cursor_l as isize;
        let mut to: isize = if amount > 0 && from > isize::MAX - amount {
            len
        } else if amount < 0 && from < isize::MIN - amount {
            0
        } else {
            from + amount
        };
        if to < 0 {
            to = 0;
        }
        if to > len {
            to = len;
        }
        self.cursor_l = to as usize;
        self.cursor_r = self.cursor_l;
    }

    /// Selects from `i0` to `i1`, both included, in either order, clamped
    /// to the text as `cursor_fixup` does.
    pub fn highlight(&mut self, i0: usize, i1: usize)
        requires
            old(self).wf(),
        ensures
            final(self).wf(),
            final(self).view_text() == old(self).view_text(),
            ({
                let l = if i0 <= i1 { i0 as int } else { i1 as int };
                let r = if i0 <= i1 { i1 as int } else { i0 as int };
                (final(self).left(), final(self).right()) == fixed_cursors(l, r, old(self).view_text().len() as int)
            }),
            final(self).width_limit() == old(self).width_limit(),
            final(self).hacks() == old(self).hacks(),
    {
        let l = if i0 <= i1 { i0 } else { i1 };
        let r = if i0 <= i1 { i1 } else { i0 };
        self.cursor_l = l;
        self.cursor_r = r;
        self.cursor_fixup();
    }
}

impl InputBoxState {
    /// The width the box asks for: its maximum width if one is set (else
    /// a default), widened to the length of its text.
    pub open spec fn wanted_width(&self) -> isize {
        let base: isize = match self.width_limit() {
            Some(mx) => if mx > isize::MAX { isize::MAX } else { mx as isize },
            None => DEFAULT_INPUT_WIDTH,
        };
        let len = self.view_text().len();
        if len > base { if len > isize::MAX { isize::MAX } else { len as isize } } else { base }
    }

    /// What the box wants: exactly its wanted width, two rows, at most its
    /// maximum width if one is set, in quanta of one column and two rows.
    pub open spec fn dimensions_spec(&self) -> WidgetDimensions {
        let w = self.wanted_width();
        WidgetDimensions {
            min: Size { width: w, height: 2 },
            preferred: Size { width: w, height: 2 },
            max: Some(Size {
                width: match self.width_limit() {
                    Some(mx) => if mx > isize::MAX { isize::MAX } else { mx as isize },
                    None => isize::MAX,
                },
                height: 2,
            }),
            align_size_to: Size { width: 1, height: 2 },
            horizontal_spacer_count: 0,
            vertical_spacer_count: 0,
        }
    }

    pub fn dimensions(&self) -> (r: WidgetDimensions)
        ensures
            r == self.dimensions_spec(),
    {
        let limit: isize = match self.max_width {
            Some(mx) => if mx > isize::MAX as usize { isize::MAX } else { mx as isize },
            None => isize::MAX,
        };
        let mut preferred_w: isize = match self.max_width {
            Some(_) => limit,
            None => DEFAULT_INPUT_WIDTH,
        };
        let len = self.text.len();
        if len > preferred_w as usize {
            preferred_w = if len > isize::MAX as usize { isize::MAX } else { len as isize };
        }
        WidgetDimensions {
            min: Size { width: preferred_w, height: 2 },
            preferred: Size { width: preferred_w, height: 2 },
            max: Some(Size { width: limit, height: 2 }),
            align_size_to: Size { width: 1, height: 2 },
            horizontal_spacer_count: 0,
            vertical_spacer_count: 0,
        }
    }

    /// Answers an editing key: Backspace and Delete remove, Left and Right
    /// move by one, Home and End jump to either end of the text. Enter
    /// changes nothing here and returns `true`: the box gives up the focus.
    pub fn handle_key(&mut self, key: EditKey) -> (accept: bool)
        requires
            old(self).wf(),
        ensures
            final(self).wf(),
            accept == (key == EditKey::Enter),
            key == EditKey::Enter ==> *final(self) == *old(self),
            final(self).width_limit() == old(self).width_limit(),
            final(self).hacks() == old(self).hacks(),
            key == EditKey::Backspace ==> Self::backspace_outcome(*old(self), *final(self)),
            key == EditKey::Delete ==> Self::delete_outcome(*old(self), *final(self)),
            key == EditKey::Left ==> Self::move_outcome(*old(self), -1, *final(self)),
            key == EditKey::Right ==> Self::move_outcome(*old(self), 1, *final(self)),
            key == EditKey::Home ==> Self::set_cursor_outcome(*old(self), 0, *final(self)),
            key == EditKey::End ==> Self::set_cursor_outcome(*old(self), old(self).view_text().len() as int, *final(self)),
    {
        match key {
            EditKey::Backspace => { self.backspace(); false },
            EditKey::Delete => { self.delete(); false },
            EditKey::Left => { self.move_cursor(-1); false },
            EditKey::Right => { self.move_cursor(1); false },
            EditKey::Home => { self.set_cursor(0); false },
            EditKey::End => {
                let len = self.text.len();
                self.set_cursor(len);
                false
            },
            EditKey::Enter => true,
        }
    }

    /// A left click at column `x` of the box puts a plain cursor there (at
    /// the start for a column left of the box).
    pub fn click(&mut self, x: isize)
        requires
            old(self).wf(),
        ensures
            final(self).wf(),
            final(self).view_text() == old(self).view_text(),
            final(self).left() == clamp_to(if x < 0 { 0 } else { x as int }, old(self).view_text().len() as int),
            final(self).right() == final(self).left(),
    {
        let at: usize = if x < 0 { 0 } else { x as usize };
        self.set_cursor(at);
    }

    /// A drag with the left button from column `start_x` to column `now_x`
    /// selects the columns in between; a drag that starts left of the box is
    /// ignored. Returns whether the selection changed hands.
    pub fn drag(&mut self, start_x: isize, now_x: isize) -> (r: bool)
        requires
            old(self).wf(),
        ensures
            final(self).wf(),
            final(self).view_text() == old(self).view_text(),
            r == (start_x >= 0),
            !r ==> *final(self) == *old(self),
            r ==> ({
                let n = if now_x < 0 { 0int } else { now_x as int };
                let l = if start_x <= n { start_x as int } else { n };
                let h = if start_x <= n { n } else { start_x as int };
                (final(self).left(), final(self).right()) == fixed_cursors(l, h, old(self).view_text().len() as int)
            }),
    {
        if start_x < 0 {
            return false;
        }
        let now: usize = if now_x < 0 { 0 } else { now_x as usize };
        self.highlight(start_x as usize, now);
        true
    }
}

impl Widgetlike for InputBoxState {
    fn create() -> (r: InputBoxState)
        ensures
            r.wf(),
            r.view_text() == Seq::<char>::empty(),
            r.left() == 0,
            r.right() == 0,
            r.width_limit() is None,
            r.hacks() == LayoutHacks::none(),
    {
        InputBoxState::new()
    }

    fn estimate_dimensions(&mut self, _ui: &UI, _width: isize) -> (r: WidgetDimensions)
        ensures
            r == old(self).dimensions_spec(),
            *final(self) == *old(self),
    {
        self.dimensions()
    }

    fn clear_layout_cache(&mut self, _ui: &UI) {
    }

    open spec fn overrides(&self) -> LayoutHacks {
        self.hacks()
    }

    fn layout_hacks(&self) -> LayoutHacks {
        self.layout_hacks
    }
}

} // verus!
