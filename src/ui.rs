use vstd::prelude::*;

verus! {

/// A widget's claim on the UI-wide focus: zero until the widget is first
/// selected, then an identity that no other widget of the same UI shares.
#[derive(Clone, Copy, Debug, PartialEq, Eq, Structural)]
pub struct Selection {
    pub id: u64,
}

impl Selection {
    pub fn not_selected() -> (r: Selection)
        ensures
            r.id == 0,
    {
        Selection { id: 0 }
    }
}

/// The ambient UI context of a layout or event pass: the layout token, which
/// only ever grows, and the one widget (if any) that holds the focus.
pub struct UI {
    layout_token: u64,
    selected: Option<u64>,
    next_selection: u64,
}

impl UI {
    pub closed spec fn token(&self) -> u64 {
        self.layout_token
    }

    pub closed spec fn focus(&self) -> Option<u64> {
        self.selected
    }

    /// The identity that the next widget selected for the first time gets.
    pub closed spec fn fresh_id(&self) -> u64 {
        self.next_selection
    }

    pub closed spec fn wf(&self) -> bool {
        &&& self.next_selection >= 1
        &&& match self.selected {
            Some(id) => 1 <= id < self.next_selection,
            None => true,
        }
    }

    pub fn new() -> (r: UI)
        ensures
            r.wf(),
            r.token() == 1,
            r.focus() is None,
    {
        UI { layout_token: 1, selected: None, next_selection: 1 }
    }

    pub fn layout_token(&self) -> (r: u64)
        ensures
            r == self.token(),
    {
        self.layout_token
    }

    /// Marks every cached layout as stale by moving the layout token forward
    /// (it stays put only once it can grow no further).
    pub fn recompute_layout(&mut self)
        ensures
            final(self).token() == if old(self).token() < u64::MAX { (old(self).token() + 1) as u64 } else { old(self).token() },
            final(self).focus() == old(self).focus(),
            final(self).wf() == old(self).wf(),
    {
        if self.layout_token < u64::MAX {
            self.layout_token = self.layout_token + 1;
        }
    }

    /// Whether `sel` can be handed to `select`: it was never selected, or
    /// it got its identity from this UI.
    pub fn knows(&self, sel: &Selection) -> (r: bool)
        ensures
            r == (sel.id < self.fresh_id()),
    {
        sel.id < self.next_selection
    }

    /// Gives the focus to the widget that holds `sel`, taking it from any
    /// other; a widget selected for the first time gets a fresh identity.
    /// Returns whether the widget now holds the focus (only an exhausted
    /// supply of identities prevents it).
    pub fn select(&mut self, sel: &mut Selection) -> (r: bool)
        requires
            old(self).wf(),
            old(sel).id < old(self).fresh_id(),
        ensures
            final(self).wf(),
            final(self).token() == old(self).token(),
            final(sel).id < final(self).fresh_id(),
            old(sel).id != 0 ==> r && *final(sel) == *old(sel),
            r == (old(sel).id != 0 || old(self).fresh_id() < u64::MAX),
            r ==> final(self).focus() == Some(final(sel).id) && final(sel).id != 0,
            !r ==> final(self).focus() == old(self).focus() && *final(sel) == *old(sel),
            old(sel).id == 0 && r ==> final(sel).id == old(self).fresh_id(),
    {
        if sel.id == 0 {
            if self.next_selection == u64::MAX {
                return false;
            }
            sel.id = self.next_selection;
            self.next_selection = self.next_selection + 1;
        }
        self.selected = Some(sel.id);
        true
    }

    /// Takes the focus from the widget that holds `sel`, if it has it.
    pub fn deselect(&mut self, sel: &Selection)
        ensures
            final(self).token() == old(self).token(),
            old(self).wf() ==> final(self).wf(),
            final(self).fresh_id() == old(self).fresh_id(),
            final(self).focus() == if sel.id != 0 && old(self).focus() == Some(sel.id) { None } else { old(self).focus() },
    {
        if sel.id != 0 && self.selected == Some(sel.id) {
            self.selected = None;
        }
    }

    pub fn is_selected(&self, sel: &Selection) -> (r: bool)
        ensures
            r == (sel.id != 0 && self.focus() == Some(sel.id)),
    {
        sel.id != 0 && self.selected == Some(sel.id)
    }
}

} // verus!
