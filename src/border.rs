use vstd::prelude::*;
use crate::common::{WidgetHandle, Widgetlike};
use crate::dimensions::{Axis, LayoutHacks, WidgetDimensions};
use crate::geometry::Size;
use crate::row::{compute_plots_desired, compute_plots_practical, desired_spec, practical_outcome};
use crate::ui::UI;

verus! {

/// The five places of a border layout.
#[derive(Clone, Copy, Debug, PartialEq, Eq, Structural)]
pub enum BorderSlot {
    North,
    West,
    East,
    South,
    Center,
}

/// A layout of up to five children: one across the top, one across the
/// bottom, and between them a row of one on the left, one in the center
/// that takes up any room left, and one on the right.
pub struct BorderState<W> {
    pub north: Option<W>,
    pub west: Option<W>,
    pub center: Option<W>,
    pub east: Option<W>,
    pub south: Option<W>,
    pub layout_hacks: LayoutHacks,
}

/// The overrides of the center place: it grows in both directions.
pub open spec fn center_hacks() -> LayoutHacks {
    LayoutHacks { expand_horizontally: true, expand_vertically: true, preferred_width: None, preferred_height: None }
}

/// The middle row of a border, given what its three children want.
pub open spec fn middle_spec(west: WidgetDimensions, center: WidgetDimensions, east: WidgetDimensions) -> WidgetDimensions {
    desired_spec(seq![west, center_hacks().apply_spec(center), east], Axis::Horizontal)
}

/// What a border wants, given what its five children want: a column of the
/// north child, the middle row and the south child.
pub open spec fn border_spec(
    north: WidgetDimensions,
    west: WidgetDimensions,
    center: WidgetDimensions,
    east: WidgetDimensions,
    south: WidgetDimensions,
) -> WidgetDimensions {
    desired_spec(seq![north, middle_spec(west, center, east), south], Axis::Vertical)
}

fn center_overrides() -> (r: LayoutHacks)
    ensures
        r == center_hacks(),
{
    LayoutHacks { expand_horizontally: true, expand_vertically: true, preferred_width: None, preferred_height: None }
}

/// What a border wants, given what its five children want (an empty place
/// wants nothing).
pub fn border_dimensions(
    north: WidgetDimensions,
    west: WidgetDimensions,
    center: WidgetDimensions,
    east: WidgetDimensions,
    south: WidgetDimensions,
) -> (r: WidgetDimensions)
    requires
        north.wf(),
        west.wf(),
        east.wf(),
        south.wf(),
    ensures
        r == border_spec(north, west, center, east, south),
        r.wf(),
{
    let c = center_overrides().apply(center);
    let row = vec![west, c, east];
    proof {
        assert(row@ =~= seq![west, center_hacks().apply_spec(center), east]);
    }
    let middle = compute_plots_desired(&row, Axis::Horizontal).1;
    let col = vec![north, middle, south];
    proof {
        assert(col@ =~= seq![north, middle_spec(west, center, east), south]);
    }
    compute_plots_desired(&col, Axis::Vertical).1
}

/// How a border of size `size` shares its room out: the heights of the
/// north child, the middle row and the south child, and the widths of the
/// west, center and east children.
pub fn border_plots(
    north: WidgetDimensions,
    west: WidgetDimensions,
    center: WidgetDimensions,
    east: WidgetDimensions,
    south: WidgetDimensions,
    size: Size,
) -> (r: (Vec<isize>, Vec<isize>))
    requires
        north.wf(),
        west.wf(),
        east.wf(),
        south.wf(),
    ensures
        practical_outcome(seq![north, middle_spec(west, center, east), south], size.height, Axis::Vertical, r.0@),
        practical_outcome(seq![west, center_hacks().apply_spec(center), east], size.width, Axis::Horizontal, r.1@),
{
    let c = center_overrides().apply(center);
    let row = vec![west, c, east];
    proof {
        assert(row@ =~= seq![west, center_hacks().apply_spec(center), east]);
    }
    let middle = compute_plots_desired(&row, Axis::Horizontal).1;
    let col = vec![north, middle, south];
    proof {
        assert(col@ =~= seq![north, middle_spec(west, center, east), south]);
    }
    let heights = compute_plots_practical(&col, size.height, Axis::Vertical);
    let widths = compute_plots_practical(&row, size.width, Axis::Horizontal);
    (heights.to_vec(), widths.to_vec())
}

impl<W> BorderState<W> {
    pub fn new() -> (r: BorderState<W>)
        ensures
            r.north is None,
            r.west is None,
            r.center is None,
            r.east is None,
            r.south is None,
            r.layout_hacks == LayoutHacks::none(),
    {
        BorderState {
            north: None,
            west: None,
            center: None,
            east: None,
            south: None,
            layout_hacks: LayoutHacks::new(),
        }
    }

    /// The child in `slot`, if any.
    pub open spec fn slot(&self, slot: BorderSlot) -> Option<W> {
        match slot {
            BorderSlot::North => self.north,
            BorderSlot::West => self.west,
            BorderSlot::East => self.east,
            BorderSlot::South => self.south,
            BorderSlot::Center => self.center,
        }
    }

    /// Puts `w` in `slot`, in place of any child that was there.
    pub fn set(&mut self, slot: BorderSlot, w: W)
        ensures
            final(self).slot(slot) == Some(w),
            forall|s: BorderSlot| s != slot ==> final(self).slot(s) == old(self).slot(s),
            final(self).layout_hacks == old(self).layout_hacks,
    {
        match slot {
            BorderSlot::North => { self.north = Some(w); },
            BorderSlot::West => { self.west = Some(w); },
            BorderSlot::East => { self.east = Some(w); },
            BorderSlot::South => { self.south = Some(w); },
            BorderSlot::Center => { self.center = Some(w); },
        }
    }

    pub fn set_north(&mut self, w: W)
        ensures
            final(self).slot(BorderSlot::North) == Some(w),
            forall|s: BorderSlot| s != BorderSlot::North ==> final(self).slot(s) == old(self).slot(s),
            final(self).layout_hacks == old(self).layout_hacks,
    {
        self.set(BorderSlot::North, w)
    }

    pub fn set_west(&mut self, w: W)
        ensures
            final(self).slot(BorderSlot::West) == Some(w),
            forall|s: BorderSlot| s != BorderSlot::West ==> final(self).slot(s) == old(self).slot(s),
            final(self).layout_hacks == old(self).layout_hacks,
    {
        self.set(BorderSlot::West, w)
    }

    pub fn set_east(&mut self, w: W)
        ensures
            final(self).slot(BorderSlot::East) == Some(w),
            forall|s: BorderSlot| s != BorderSlot::East ==> final(self).slot(s) == old(self).slot(s),
            final(self).layout_hacks == old(self).layout_hacks,
    {
        self.set(BorderSlot::East, w)
    }

    pub fn set_south(&mut self, w: W)
        ensures
            final(self).slot(BorderSlot::South) == Some(w),
            forall|s: BorderSlot| s != BorderSlot::South ==> final(self).slot(s) == old(self).slot(s),
            final(self).layout_hacks == old(self).layout_hacks,
    {
        self.set(BorderSlot::South, w)
    }

    pub fn set_center(&mut self, w: W)
        ensures
            final(self).slot(BorderSlot::Center) == Some(w),
            forall|s: BorderSlot| s != BorderSlot::Center ==> final(self).slot(s) == old(self).slot(s),
            final(self).layout_hacks == old(self).layout_hacks,
    {
        self.set(BorderSlot::Center, w)
    }
}

fn slot_dimensions<W: WidgetHandle>(slot: &Option<W>, ui: &UI, width: isize) -> (r: WidgetDimensions)
    ensures
        r.wf(),
        slot is None ==> r == WidgetDimensions::zero_spec(),
{
    match slot {
        Some(w) => w.estimate_dimensions(ui, width).fixup(),
        None => WidgetDimensions::zero(),
    }
}

fn clear_slot<W: WidgetHandle>(slot: &Option<W>, ui: &UI) {
    match slot {
        Some(w) => w.clear_layout_cache_if_needed(ui),
        None => {},
    }
}

impl<W: WidgetHandle> BorderState<W> {
    /// What each place's child wants at `width`, north, west, center, east,
    /// south; an empty place wants nothing.
    pub fn slot_dimensions(&self, ui: &UI, width: isize) -> (r: (WidgetDimensions, WidgetDimensions, WidgetDimensions, WidgetDimensions, WidgetDimensions))
        ensures
            r.0.wf() && r.1.wf() && r.2.wf() && r.3.wf() && r.4.wf(),
    {
        (
            slot_dimensions(&self.north, ui, width),
            slot_dimensions(&self.west, ui, width),
            slot_dimensions(&self.center, ui, width),
            slot_dimensions(&self.east, ui, width),
            slot_dimensions(&self.south, ui, width),
        )
    }
}

impl<W: WidgetHandle> Widgetlike for BorderState<W> {
    fn create() -> (r: BorderState<W>)
        ensures
            r.north is None,
            r.west is None,
            r.center is None,
            r.east is None,
            r.south is None,
            r.layout_hacks == LayoutHacks::none(),
    {
        BorderState::new()
    }

    fn estimate_dimensions(&mut self, ui: &UI, width: isize) -> WidgetDimensions {
        let (n, w, c, e, s) = self.slot_dimensions(ui, width);
        border_dimensions(n, w, c, e, s)
    }

    fn clear_layout_cache(&mut self, ui: &UI) {
        clear_slot(&self.north, ui);
        clear_slot(&self.west, ui);
        clear_slot(&self.center, ui);
        clear_slot(&self.east, ui);
        clear_slot(&self.south, ui);
    }

    open spec fn overrides(&self) -> LayoutHacks {
        self.layout_hacks
    }

    fn layout_hacks(&self) -> LayoutHacks {
        self.layout_hacks
    }
}

} // verus!
