use vstd::prelude::*;
use crate::dimensions::{LayoutHacks, WidgetDimensions};
use crate::ui::{Selection, UI};

verus! {

/// What every widget's own state offers to the shared layer above it.
pub trait Widgetlike: Sized {
    /// The state of a widget that has just been created.
    fn create() -> Self;

    /// What the widget wants when offered `width` cells across (never
    /// negative); the shared layer brings the answer into shape and caches it.
    fn estimate_dimensions(&mut self, ui: &UI, width: isize) -> WidgetDimensions;

    /// Drops what the widget has cached of its layout, and passes the request
    /// on to its children.
    fn clear_layout_cache(&mut self, ui: &UI);

    /// The overrides the widget asks for.
    spec fn overrides(&self) -> LayoutHacks;

    /// The overrides to apply on top of what the widget reports.
    fn layout_hacks(&self) -> (r: LayoutHacks)
        ensures
            r == self.overrides();
}

/// The handle through which a container reaches one of its children.
pub trait WidgetHandle {
    fn estimate_dimensions(&self, ui: &UI, width: isize) -> WidgetDimensions;

    fn clear_layout_cache_if_needed(&self, ui: &UI);
}

/// A widget's own state together with what the shared layer keeps about
/// it: its focus identity, the layout token it last saw, and the last width
/// it was asked about with the answer given.
pub struct WidgetCommon<T> {
    pub unique: T,
    pub selection: Selection,
    pub layout_token: u64,
    pub last_dimensions: (isize, WidgetDimensions),
}

pub open spec fn clamp_width(width: isize) -> isize {
    if width < 0 { 0 } else { width }
}

impl<T: Widgetlike> WidgetCommon<T> {
    pub open spec fn last_width(&self) -> isize {
        self.last_dimensions.0
    }

    pub open spec fn last_dims(&self) -> WidgetDimensions {
        self.last_dimensions.1
    }

    pub open spec fn wf(&self) -> bool {
        self.last_dimensions.1.wf()
    }

    /// Whether a query at `width` would be answered from the cache.
    pub open spec fn memo_hit(&self, width: isize) -> bool {
        self.last_dimensions.0 == clamp_width(width)
    }

    /// How one `estimate_dimensions` at `width` goes from `before` to `after`
    /// returning `r`: a query at the cached width returns the cached answer
    /// and changes nothing; any other query caches its well-formed answer
    /// under the width (negative widths count as zero), an answer of the
    /// widget with its overrides applied.
    pub open spec fn estimate_outcome(before: WidgetCommon<T>, width: isize, r: WidgetDimensions, after: WidgetCommon<T>) -> bool {
        &&& r.wf()
        &&& after.wf()
        &&& after.last_dimensions == (clamp_width(width), r)
        &&& after.selection == before.selection
        &&& after.layout_token == before.layout_token
        &&& before.memo_hit(width) ==> r == before.last_dimensions.1 && after == before
        &&& !before.memo_hit(width) ==> exists|raw: WidgetDimensions| r == after.unique.overrides().apply_spec(raw)
    }

    /// How `clear_layout_cache_if_needed` goes from `before` to `after`: a
    /// widget behind the UI's layout token forgets its cached answer and
    /// catches up with the token; any other is left as it was.
    pub open spec fn clear_outcome(before: WidgetCommon<T>, ui_token: u64, after: WidgetCommon<T>) -> bool {
        &&& after.wf()
        &&& after.selection == before.selection
        &&& before.layout_token < ui_token ==> {
            &&& after.last_dimensions == (-1isize, WidgetDimensions::zero_spec())
            &&& after.layout_token == ui_token
        }
        &&& before.layout_token >= ui_token ==> after == before
    }
}

impl<T: Widgetlike> WidgetCommon<T> {
    pub fn new(value: T) -> (r: WidgetCommon<T>)
        ensures
            r.unique == value,
            r.selection.id == 0,
            r.layout_token == 0,
            r.last_width() == -1,
            r.wf(),
    {
        WidgetCommon {
            unique: value,
            selection: Selection::not_selected(),
            layout_token: 0,
            last_dimensions: (-1, WidgetDimensions::zero()),
        }
    }

    /// What the widget wants at `width`: the cached answer when `width`
    /// (negative counts as zero) is the width last asked about, otherwise the
    /// widget's own answer with its overrides applied, which is then cached.
    pub fn estimate_dimensions(&mut self, ui: &UI, width: isize) -> (r: WidgetDimensions)
        requires
            old(self).wf(),
        ensures
            Self::estimate_outcome(*old(self), width, r, *final(self)),
    {
        let width: isize = if width < 0 { 0 } else { width };
        if self.last_dimensions.0 == width {
            return self.last_dimensions.1;
        }
        let raw = self.unique.estimate_dimensions(ui, width);
        let new_dims = self.unique.layout_hacks().apply(raw);
        self.last_dimensions = (width, new_dims);
        new_dims
    }

    /// The dimensions `wd` with this widget's overrides in force.
    pub fn apply_layout_hacks(&self, wd: WidgetDimensions) -> (r: WidgetDimensions)
        ensures
            r == self.unique.overrides().apply_spec(wd),
            r.wf(),
    {
        self.unique.layout_hacks().apply(wd)
    }

    /// Brings the widget up to the UI's layout token: if it is behind, its
    /// cached answer is dropped and the widget clears its own caches.
    pub fn clear_layout_cache_if_needed(&mut self, ui: &UI)
        requires
            old(self).wf(),
        ensures
            Self::clear_outcome(*old(self), ui.token(), *final(self)),
    {
        let token = ui.layout_token();
        if self.layout_token < token {
            self.last_dimensions = (-1, WidgetDimensions::zero());
            self.unique.clear_layout_cache(ui);
            self.layout_token = token;
        }
    }
}

/// Asking the same widget twice in a row at the same width gives the same
/// answer, and the second query leaves the widget untouched: the widget's own
/// estimate runs at most once.
pub proof fn lemma_estimate_idempotent<T: Widgetlike>(
    c0: WidgetCommon<T>,
    width: isize,
    r1: WidgetDimensions,
    c1: WidgetCommon<T>,
    r2: WidgetDimensions,
    c2: WidgetCommon<T>,
)
    requires
        WidgetCommon::estimate_outcome(c0, width, r1, c1),
        WidgetCommon::estimate_outcome(c1, width, r2, c2),
    ensures
        c1.memo_hit(width),
        r2 == r1,
        c2 == c1,
{
}

/// Once the layout token has moved past the one a widget last saw, clearing
/// its cache makes the next query at any width, the previous one included,
/// miss the cache and ask the widget again.
pub proof fn lemma_clear_forces_recompute<T: Widgetlike>(
    c0: WidgetCommon<T>,
    ui_token: u64,
    c1: WidgetCommon<T>,
    width: isize,
)
    requires
        c0.layout_token < ui_token,
        WidgetCommon::clear_outcome(c0, ui_token, c1),
    ensures
        !c1.memo_hit(width),
        c1.layout_token == ui_token,
{
}

} // verus!
