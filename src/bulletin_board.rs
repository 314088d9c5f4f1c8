use vstd::prelude::*;
use crate::common::{WidgetHandle, Widgetlike};
use crate::dimensions::{LayoutHacks, WidgetDimensions};
use crate::geometry::{Point, Rect, Size};
use crate::ui::UI;

verus! {

/// A board on which each child is pinned at an offset of its own.
pub struct BulletinBoardState<W> {
    pub widgets: Vec<(Point, W)>,
    pub layout_hacks: LayoutHacks,
}

pub open spec fn sat_add(a: isize, b: isize) -> isize {
    let s = a + b;
    if s > isize::MAX { isize::MAX } else if s < isize::MIN { isize::MIN } else { s as isize }
}

pub open spec fn max_len(a: isize, b: isize) -> isize {
    if b > a { b } else { a }
}

/// What a board wants when its children, pinned at the given offsets, want
/// the given dimensions: as much as the largest child needs at the least (a
/// child is pushed back onto the board rather than cut off), and room for
/// every child at its offset by preference. Lengths never fall below zero.
pub open spec fn board_spec(es: Seq<(Point, WidgetDimensions)>) -> WidgetDimensions
    decreases es.len(),
{
    if es.len() == 0 {
        WidgetDimensions::zero_spec()
    } else {
        let rest = board_spec(es.drop_last());
        let (o, d) = es.last();
        WidgetDimensions {
            min: Size {
                width: max_len(rest.min.width, d.min.width),
                height: max_len(rest.min.height, d.min.height),
            },
            preferred: Size {
                width: max_len(rest.preferred.width, sat_add(d.preferred.width, o.x)),
                height: max_len(rest.preferred.height, sat_add(d.preferred.height, o.y)),
            },
            ..rest
        }
    }
}

fn saturating_add(a: isize, b: isize) -> (r: isize)
    ensures
        r == sat_add(a, b),
{
    if b > 0 && a > isize::MAX - b {
        isize::MAX
    } else if b < 0 && a < isize::MIN - b {
        isize::MIN
    } else {
        a + b
    }
}

/// What a board wants, given where each child is pinned and what it wants.
pub fn board_dimensions(es: &Vec<(Point, WidgetDimensions)>) -> (r: WidgetDimensions)
    ensures
        r == board_spec(es@),
{
    let mut acc = WidgetDimensions::zero();
    let mut i: usize = 0;
    while i < es.len()
        invariant
            0 <= i <= es@.len(),
            acc == board_spec(es@.take(i as int)),
        decreases es@.len() - i,
    {
        let (o, d) = es[i];
        proof {
            assert(es@.take(i + 1).drop_last() =~= es@.take(i as int));
        }
        let pw = saturating_add(d.preferred.width, o.x);
        let ph = saturating_add(d.preferred.height, o.y);
        acc = WidgetDimensions {
            min: Size {
                width: if d.min.width > acc.min.width { d.min.width } else { acc.min.width },
                height: if d.min.height > acc.min.height { d.min.height } else { acc.min.height },
            },
            preferred: Size {
                width: if pw > acc.preferred.width { pw } else { acc.preferred.width },
                height: if ph > acc.preferred.height { ph } else { acc.preferred.height },
            },
            ..acc
        };
        i = i + 1;
    }
    proof {
        assert(es@.take(es@.len() as int) =~= es@);
    }
    acc
}

pub open spec fn min_len(a: int, b: int) -> int {
    if a < b { a } else { b }
}

/// Where a child pinned at `offset` that prefers `preferred` is drawn on a
/// board of size `area`: at its offset, pushed back left and up so that it
/// fits where it can, never past the top-left corner, and cut to the board.
pub open spec fn placement_spec(offset: Point, preferred: Size, area: Size) -> Rect {
    let x = if min_len(offset.x as int, area.width - preferred.width) < 0 { 0 } else { min_len(offset.x as int, area.width - preferred.width) };
    let y = if min_len(offset.y as int, area.height - preferred.height) < 0 { 0 } else { min_len(offset.y as int, area.height - preferred.height) };
    Rect {
        origin: Point { x: x as isize, y: y as isize },
        size: Size {
            width: min_len(preferred.width as int, area.width - x) as isize,
            height: min_len(preferred.height as int, area.height - y) as isize,
        },
    }
}

fn place_along(offset: isize, preferred: isize, area: isize) -> (r: (isize, isize))
    requires
        preferred >= 0,
        area >= 0,
    ensures
        r.0 == (if min_len(offset as int, area - preferred) < 0 { 0 } else { min_len(offset as int, area - preferred) }),
        r.1 == min_len(preferred as int, area - r.0),
        0 <= r.0 <= area,
        0 <= r.1,
        r.0 + r.1 <= area,
{
    let room = area - preferred;
    let mut x = if offset < room { offset } else { room };
    if x < 0 {
        x = 0;
    }
    let rest = area - x;
    (x, if preferred < rest { preferred } else { rest })
}

/// Where a child pinned at `offset` and preferring `preferred` is drawn on a
/// board of size `area`; the rectangle lies within the board.
pub fn placement(offset: Point, preferred: Size, area: Size) -> (r: Rect)
    requires
        preferred.width >= 0,
        preferred.height >= 0,
        area.width >= 0,
        area.height >= 0,
    ensures
        r == placement_spec(offset, preferred, area),
        0 <= r.origin.x,
        0 <= r.origin.y,
        0 <= r.size.width,
        0 <= r.size.height,
        r.origin.x + r.size.width <= area.width,
        r.origin.y + r.size.height <= area.height,
{
    let (x, w) = place_along(offset.x, preferred.width, area.width);
    let (y, h) = place_along(offset.y, preferred.height, area.height);
    Rect { origin: Point { x, y }, size: Size { width: w, height: h } }
}

impl<W> BulletinBoardState<W> {
    pub fn new() -> (r: BulletinBoardState<W>)
        ensures
            r.widgets@.len() == 0,
            r.layout_hacks == LayoutHacks::none(),
    {
        BulletinBoardState { widgets: Vec::new(), layout_hacks: LayoutHacks::new() }
    }

    /// Pins `w` at `at`, above the children already there.
    pub fn add(&mut self, at: Point, w: W)
        ensures
            final(self).widgets@ == old(self).widgets@.push((at, w)),
            final(self).layout_hacks == old(self).layout_hacks,
    {
        self.widgets.push((at, w));
    }
}

impl<W: WidgetHandle> Widgetlike for BulletinBoardState<W> {
    fn create() -> (r: BulletinBoardState<W>)
        ensures
            r.widgets@.len() == 0,
            r.layout_hacks == LayoutHacks::none(),
    {
        BulletinBoardState::new()
    }

    /// What the board wants, given what each child answers when offered the
    /// width left of the board's at its offset, each answer brought into shape.
    fn estimate_dimensions(&mut self, ui: &UI, width: isize) -> (r: WidgetDimensions)
        ensures
            *final(self) == *old(self),
            exists|es: Seq<(Point, WidgetDimensions)>| {
                &&& es.len() == old(self).widgets@.len()
                &&& forall|k: int| 0 <= k < es.len() ==> (#[trigger] es[k]).0 == old(self).widgets@[k].0 && es[k].1.wf()
                &&& r == board_spec(es)
            },
    {
        let mut es: Vec<(Point, WidgetDimensions)> = Vec::new();
        let mut i: usize = 0;
        while i < self.widgets.len()
            invariant
                0 <= i <= self.widgets@.len(),
                es@.len() == i,
                forall|k: int| 0 <= k < i ==> (#[trigger] es@[k]).0 == self.widgets@[k].0 && es@[k].1.wf(),
            decreases self.widgets@.len() - i,
        {
            let offset = self.widgets[i].0;
            let room = saturating_add(width, if offset.x == isize::MIN { isize::MAX } else { -offset.x });
            let d = self.widgets[i].1.estimate_dimensions(ui, room).fixup();
            es.push((offset, d));
            i = i + 1;
        }
        board_dimensions(&es)
    }

    fn clear_layout_cache(&mut self, ui: &UI) {
        let mut i: usize = 0;
        while i < self.widgets.len()
            invariant
                0 <= i <= self.widgets@.len(),
            decreases self.widgets@.len() - i,
        {
            self.widgets[i].1.clear_layout_cache_if_needed(ui);
            i = i + 1;
        }
    }

    open spec fn overrides(&self) -> LayoutHacks {
        self.layout_hacks
    }

    fn layout_hacks(&self) -> LayoutHacks {
        self.layout_hacks
    }
}

} // verus!
