use vstd::prelude::*;
use crate::geometry::Size;

verus! {

/// Which axis of the grid a length is measured along.
#[derive(Clone, Copy, Debug, PartialEq, Eq, Structural)]
pub enum Axis {
    Horizontal,
    Vertical,
}

/// What a widget wants and tolerates: its minimum, preferred and (optional)
/// maximum size, the quantum its lengths come in, and how many units of
/// elasticity it contributes along each axis.
#[derive(Clone, Copy, Debug, PartialEq, Eq, Structural)]
pub struct WidgetDimensions {
    pub min: Size,
    pub preferred: Size,
    pub max: Option<Size>,
    pub align_size_to: Size,
    pub horizontal_spacer_count: usize,
    pub vertical_spacer_count: usize,
}

/// Per-widget overrides applied on top of what a widget reports.
#[derive(Clone, Copy, Debug, PartialEq, Eq, Structural)]
pub struct LayoutHacks {
    pub expand_horizontally: bool,
    pub expand_vertically: bool,
    pub preferred_width: Option<isize>,
    pub preferred_height: Option<isize>,
}

pub open spec fn length_along(s: Size, axis: Axis) -> isize {
    match axis {
        Axis::Horizontal => s.width,
        Axis::Vertical => s.height,
    }
}

pub open spec fn size_with(primary: isize, cross: isize, axis: Axis) -> Size {
    match axis {
        Axis::Horizontal => Size { width: primary, height: cross },
        Axis::Vertical => Size { width: cross, height: primary },
    }
}

/// A well-formed pair of lengths along one axis: `0 <= min <= preferred`, a
/// positive quantum, and `preferred` reachable from `min` in whole quanta.
pub open spec fn lengths_ok(min: isize, preferred: isize, align: isize) -> bool {
    &&& 0 <= min <= preferred
    &&& align >= 1
    &&& (preferred - min) % (align as int) == 0
}

impl WidgetDimensions {
    pub open spec fn wf(&self) -> bool {
        &&& lengths_ok(self.min.width, self.preferred.width, self.align_size_to.width)
        &&& lengths_ok(self.min.height, self.preferred.height, self.align_size_to.height)
        &&& match self.max {
            Some(m) => self.preferred.width <= m.width && self.preferred.height <= m.height,
            None => true,
        }
    }

    pub open spec fn spacers_along(&self, axis: Axis) -> usize {
        match axis {
            Axis::Horizontal => self.horizontal_spacer_count,
            Axis::Vertical => self.vertical_spacer_count,
        }
    }

    /// The dimensions of a widget that wants nothing.
    pub fn zero() -> (r: WidgetDimensions)
        ensures
            r == WidgetDimensions::zero_spec(),
            r.wf(),
    {
        WidgetDimensions {
            min: Size { width: 0, height: 0 },
            preferred: Size { width: 0, height: 0 },
            max: None,
            align_size_to: Size { width: 1, height: 1 },
            horizontal_spacer_count: 0,
            vertical_spacer_count: 0,
        }
    }

    pub open spec fn zero_spec() -> WidgetDimensions {
        WidgetDimensions {
            min: Size { width: 0, height: 0 },
            preferred: Size { width: 0, height: 0 },
            max: None,
            align_size_to: Size { width: 1, height: 1 },
            horizontal_spacer_count: 0,
            vertical_spacer_count: 0,
        }
    }

    /// Brings arbitrary dimensions into shape: negative minimums become zero, the
    /// quantum becomes at least one, the preferred length is raised to the
    /// minimum and then lowered to the nearest whole number of quanta above it,
    /// and a maximum is raised to the preferred length.
    pub fn fixup(&self) -> (r: WidgetDimensions)
        ensures
            r == self.fixup_spec(),
            r.wf(),
    {
        let (min_w, pref_w, align_w) = fix_lengths(self.min.width, self.preferred.width, self.align_size_to.width);
        let (min_h, pref_h, align_h) = fix_lengths(self.min.height, self.preferred.height, self.align_size_to.height);
        let max = match self.max {
            Some(m) => Some(Size {
                width: if m.width < pref_w { pref_w } else { m.width },
                height: if m.height < pref_h { pref_h } else { m.height },
            }),
            None => None,
        };
        WidgetDimensions {
            min: Size { width: min_w, height: min_h },
            preferred: Size { width: pref_w, height: pref_h },
            max,
            align_size_to: Size { width: align_w, height: align_h },
            horizontal_spacer_count: self.horizontal_spacer_count,
            vertical_spacer_count: self.vertical_spacer_count,
        }
    }

    pub open spec fn fixup_spec(&self) -> WidgetDimensions {
        let (min_w, pref_w, align_w) = fix_lengths_spec(self.min.width, self.preferred.width, self.align_size_to.width);
        let (min_h, pref_h, align_h) = fix_lengths_spec(self.min.height, self.preferred.height, self.align_size_to.height);
        WidgetDimensions {
            min: Size { width: min_w, height: min_h },
            preferred: Size { width: pref_w, height: pref_h },
            max: match self.max {
                Some(m) => Some(Size {
                    width: if m.width < pref_w { pref_w } else { m.width },
                    height: if m.height < pref_h { pref_h } else { m.height },
                }),
                None => None,
            },
            align_size_to: Size { width: align_w, height: align_h },
            horizontal_spacer_count: self.horizontal_spacer_count,
            vertical_spacer_count: self.vertical_spacer_count,
        }
    }
}

pub open spec fn fix_lengths_spec(min: isize, preferred: isize, align: isize) -> (isize, isize, isize) {
    let m = if min < 0 { 0isize } else { min };
    let a = if align < 1 { 1isize } else { align };
    let p = if preferred < m { m } else { preferred };
    (m, (p - (p - m) % (a as int)) as isize, a)
}

fn fix_lengths(min: isize, preferred: isize, align: isize) -> (r: (isize, isize, isize))
    ensures
        r == fix_lengths_spec(min, preferred, align),
        lengths_ok(r.0, r.1, r.2),
{
    let m: isize = if min < 0 { 0 } else { min };
    let a: isize = if align < 1 { 1 } else { align };
    let p: isize = if preferred < m { m } else { preferred };
    let excess: isize = p - m;
    let rem: isize = excess % a;
    proof {
        assert(0 <= rem < a && rem <= excess) by (nonlinear_arith)
            requires excess >= 0, a >= 1, rem == excess % a;
        assert((excess - rem) % (a as int) == 0) by (nonlinear_arith)
            requires excess >= 0, a >= 1, rem == excess % a;
        assert((p - rem) - m == excess - rem);
    }
    (m, p - rem, a)
}

impl LayoutHacks {
    /// No overrides at all.
    pub open spec fn none() -> LayoutHacks {
        LayoutHacks { expand_horizontally: false, expand_vertically: false, preferred_width: None, preferred_height: None }
    }

    pub fn new() -> (r: LayoutHacks)
        ensures
            r == LayoutHacks::none(),
    {
        LayoutHacks {
            expand_horizontally: false,
            expand_vertically: false,
            preferred_width: None,
            preferred_height: None,
        }
    }

    /// The dimensions with these overrides in force, brought back into shape.
    pub open spec fn apply_spec(&self, wd: WidgetDimensions) -> WidgetDimensions {
        WidgetDimensions {
            preferred: Size {
                width: match self.preferred_width { Some(p) => p, None => wd.preferred.width },
                height: match self.preferred_height { Some(p) => p, None => wd.preferred.height },
            },
            horizontal_spacer_count: if self.expand_horizontally && wd.horizontal_spacer_count == 0 {
                1
            } else {
                wd.horizontal_spacer_count
            },
            vertical_spacer_count: if self.expand_vertically && wd.vertical_spacer_count == 0 {
                1
            } else {
                wd.vertical_spacer_count
            },
            ..wd
        }.fixup_spec()
    }

    /// Overrides the preferred lengths that are set, makes the widget elastic
    /// along each axis it is forced to expand on, and brings the result into
    /// shape.
    pub fn apply(&self, wd: WidgetDimensions) -> (r: WidgetDimensions)
        ensures
            r == self.apply_spec(wd),
            r.wf(),
    {
        let mut d = wd;
        match self.preferred_width {
            Some(p) => { d.preferred.width = p; },
            None => {},
        }
        match self.preferred_height {
            Some(p) => { d.preferred.height = p; },
            None => {},
        }
        if self.expand_horizontally && d.horizontal_spacer_count == 0 {
            d.horizontal_spacer_count = 1;
        }
        if self.expand_vertically && d.vertical_spacer_count == 0 {
            d.vertical_spacer_count = 1;
        }
        d.fixup()
    }
}

} // verus!
