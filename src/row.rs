use vstd::prelude::*;
use crate::dimensions::{Axis, LayoutHacks, WidgetDimensions, length_along, size_with, lengths_ok};
use crate::geometry::Size;
use crate::plot_buffer::{MAX_PLOTS, PlotBuffer, plot_items, buffer_new, buffer_push, buffer_len, buffer_get, buffer_set};
use crate::common::{Widgetlike, WidgetHandle};
use crate::ui::UI;
use crate::sums::{sum_of, count_in, max_of, min_count_of, count_sum, saturate_isize, saturate_usize, lemma_take_step, lemma_sum_update, lemma_sum_bounds, lemma_elem_le_sum, lemma_count_take, lemma_count_nonneg};

verus! {

/// The lengths allotted to the children of a linear container along its
/// primary axis, one per child, in container order.
pub struct Plots {
    pub plot_size: PlotBuffer,
}

impl Plots {
    pub open spec fn view(&self) -> Seq<isize> {
        plot_items(self.plot_size)
    }

    pub fn new() -> (r: Plots)
        ensures
            r@ == Seq::<isize>::empty(),
    {
        Plots { plot_size: buffer_new() }
    }

    pub fn len(&self) -> (r: usize)
        ensures
            r == self@.len(),
    {
        buffer_len(&self.plot_size)
    }

    pub fn to_vec(&self) -> (r: Vec<isize>)
        ensures
            r@ == self@,
    {
        let mut out: Vec<isize> = Vec::new();
        let mut i: usize = 0;
        while i < self.len()
            invariant
                0 <= i <= self@.len(),
                out@ == self@.take(i as int),
            decreases self@.len() - i,
        {
            out.push(self.get(i));
            i = i + 1;
            proof {
                assert(out@ =~= self@.take(i as int));
            }
        }
        proof {
            assert(self@.take(self@.len() as int) =~= self@);
        }
        out
    }

    pub fn get(&self, i: usize) -> (r: isize)
        requires
            i < self@.len(),
        ensures
            r == self@[i as int],
    {
        buffer_get(&self.plot_size, i)
    }
}

pub fn along(s: Size, axis: Axis) -> (r: isize)
    ensures
        r == length_along(s, axis),
{
    match axis {
        Axis::Horizontal => s.width,
        Axis::Vertical => s.height,
    }
}

fn spacers(d: &WidgetDimensions, axis: Axis) -> (r: usize)
    ensures
        r == d.spacers_along(axis),
{
    match axis {
        Axis::Horizontal => d.horizontal_spacer_count,
        Axis::Vertical => d.vertical_spacer_count,
    }
}

pub open spec fn other_axis(axis: Axis) -> Axis {
    match axis {
        Axis::Horizontal => Axis::Vertical,
        Axis::Vertical => Axis::Horizontal,
    }
}

pub open spec fn all_wf(ds: Seq<WidgetDimensions>) -> bool {
    forall|i: int| 0 <= i < ds.len() ==> (#[trigger] ds[i]).wf()
}

pub open spec fn mins_along(ds: Seq<WidgetDimensions>, axis: Axis) -> Seq<isize> {
    Seq::new(ds.len(), |i: int| length_along(ds[i].min, axis))
}

pub open spec fn prefs_along(ds: Seq<WidgetDimensions>, axis: Axis) -> Seq<isize> {
    Seq::new(ds.len(), |i: int| length_along(ds[i].preferred, axis))
}

pub open spec fn aligns_along(ds: Seq<WidgetDimensions>, axis: Axis) -> Seq<isize> {
    Seq::new(ds.len(), |i: int| length_along(ds[i].align_size_to, axis))
}

pub open spec fn spacer_counts(ds: Seq<WidgetDimensions>, axis: Axis) -> Seq<usize> {
    Seq::new(ds.len(), |i: int| ds[i].spacers_along(axis))
}

/// What a linear container wants along `axis` when its children want `ds`:
/// the sums of their minimum and preferred lengths along the axis (saturating),
/// the largest of them across it, elasticity summed along the axis and the
/// least of it across (none at all without children).
pub open spec fn desired_spec(ds: Seq<WidgetDimensions>, axis: Axis) -> WidgetDimensions {
    let cross = other_axis(axis);
    let along_count = saturate_usize(count_sum(spacer_counts(ds, axis)));
    let across_count = min_count_of(spacer_counts(ds, cross));
    WidgetDimensions {
        min: size_with(saturate_isize(sum_of(mins_along(ds, axis))), max_of(mins_along(ds, cross)), axis),
        preferred: size_with(saturate_isize(sum_of(prefs_along(ds, axis))), max_of(prefs_along(ds, cross)), axis),
        max: None,
        align_size_to: Size { width: 1, height: 1 },
        horizontal_spacer_count: if axis == Axis::Horizontal { along_count } else { across_count },
        vertical_spacer_count: if axis == Axis::Vertical { along_count } else { across_count },
    }
}

proof fn lemma_desired_step(ds: Seq<WidgetDimensions>, axis: Axis, i: int)
    requires
        0 <= i < ds.len(),
    ensures
        sum_of(mins_along(ds.take(i + 1), axis)) == sum_of(mins_along(ds.take(i), axis)) + length_along(ds[i].min, axis),
        sum_of(prefs_along(ds.take(i + 1), axis)) == sum_of(prefs_along(ds.take(i), axis)) + length_along(ds[i].preferred, axis),
        count_sum(spacer_counts(ds.take(i + 1), axis)) == count_sum(spacer_counts(ds.take(i), axis)) + ds[i].spacers_along(axis),
        max_of(mins_along(ds.take(i + 1), axis)) == if length_along(ds[i].min, axis) > max_of(mins_along(ds.take(i), axis)) {
            length_along(ds[i].min, axis)
        } else {
            max_of(mins_along(ds.take(i), axis))
        },
        max_of(prefs_along(ds.take(i + 1), axis)) == if length_along(ds[i].preferred, axis) > max_of(prefs_along(ds.take(i), axis)) {
            length_along(ds[i].preferred, axis)
        } else {
            max_of(prefs_along(ds.take(i), axis))
        },
        i == 0 ==> min_count_of(spacer_counts(ds.take(i + 1), axis)) == ds[i].spacers_along(axis),
        i > 0 ==> min_count_of(spacer_counts(ds.take(i + 1), axis)) == if ds[i].spacers_along(axis) < min_count_of(spacer_counts(ds.take(i), axis)) {
            ds[i].spacers_along(axis)
        } else {
            min_count_of(spacer_counts(ds.take(i), axis))
        },
{
    assert(mins_along(ds.take(i + 1), axis).drop_last() =~= mins_along(ds.take(i), axis));
    assert(prefs_along(ds.take(i + 1), axis).drop_last() =~= prefs_along(ds.take(i), axis));
    assert(spacer_counts(ds.take(i + 1), axis).drop_last() =~= spacer_counts(ds.take(i), axis));
}

proof fn lemma_max_of_nonneg(s: Seq<isize>)
    ensures
        max_of(s) >= 0,
        forall|k: int| 0 <= k < s.len() ==> s[k] <= max_of(s),
    decreases s.len(),
{
    if s.len() > 0 {
        lemma_max_of_nonneg(s.drop_last());
        assert forall|k: int| 0 <= k < s.len() implies s[k] <= max_of(s) by {
            if k < s.len() - 1 {
                assert(s[k] == s.drop_last()[k]);
            }
        }
    }
}

fn saturating_add_len(acc: isize, x: isize) -> (r: isize)
    requires
        acc >= 0,
        x >= 0,
    ensures
        r == saturate_isize(acc + x),
{
    if acc > isize::MAX - x { isize::MAX } else { acc + x }
}

/// What a linear container wants along `axis`, given what each of its
/// children wants: the children's preferred lengths along the axis, to serve
/// as the starting allotment, and the container's own dimensions.
pub fn compute_plots_desired(dims: &Vec<WidgetDimensions>, axis: Axis) -> (r: (Plots, WidgetDimensions))
    requires
        all_wf(dims@),
        dims@.len() <= MAX_PLOTS,
    ensures
        r.0@ == prefs_along(dims@, axis),
        r.1 == desired_spec(dims@, axis),
        r.1.wf(),
{
    let ghost ds = dims@;
    let ghost cross = other_axis(axis);
    let cross_axis = match axis { Axis::Horizontal => Axis::Vertical, Axis::Vertical => Axis::Horizontal };
    let mut preferred = buffer_new();
    let mut min_cross: isize = 0;
    let mut preferred_cross: isize = 0;
    let mut min_along: isize = 0;
    let mut preferred_along: isize = 0;
    let mut along_count: usize = 0;
    let mut across_count: usize = 0;
    let n = dims.len();
    let mut i: usize = 0;
    while i < n
        invariant
            n == ds.len(),
            ds == dims@,
            all_wf(ds),
            cross == cross_axis,
            cross == other_axis(axis),
            0 <= i <= n,
            plot_items(preferred) == prefs_along(ds, axis).take(i as int),
            n <= MAX_PLOTS,
            min_along == saturate_isize(sum_of(mins_along(ds.take(i as int), axis))),
            preferred_along == saturate_isize(sum_of(prefs_along(ds.take(i as int), axis))),
            min_cross == max_of(mins_along(ds.take(i as int), cross)),
            preferred_cross == max_of(prefs_along(ds.take(i as int), cross)),
            along_count == saturate_usize(count_sum(spacer_counts(ds.take(i as int), axis))),
            across_count == min_count_of(spacer_counts(ds.take(i as int), cross)),
            0 <= sum_of(mins_along(ds.take(i as int), axis)) <= sum_of(prefs_along(ds.take(i as int), axis)),
            min_cross <= preferred_cross,
            count_sum(spacer_counts(ds.take(i as int), axis)) >= 0,
        decreases n - i,
    {
        let d = dims[i];
        proof {
            lemma_desired_step(ds, axis, i as int);
            lemma_desired_step(ds, cross, i as int);
            assert(d.wf());
            assert(prefs_along(ds, axis).take(i + 1) =~= prefs_along(ds, axis).take(i as int).push(length_along(d.preferred, axis)));
        }
        let p = along(d.preferred, axis);
        let m = along(d.min, axis);
        buffer_push(&mut preferred, p);
        min_along = saturating_add_len(min_along, m);
        preferred_along = saturating_add_len(preferred_along, p);
        let mc = along(d.min, cross_axis);
        let pc = along(d.preferred, cross_axis);
        if mc > min_cross { min_cross = mc; }
        if pc > preferred_cross { preferred_cross = pc; }
        let c = spacers(&d, axis);
        along_count = if along_count > usize::MAX - c { usize::MAX } else { along_count + c };
        let cc = spacers(&d, cross_axis);
        if i == 0 || cc < across_count { across_count = cc; }
        i = i + 1;
    }
    proof {
        assert(ds.take(n as int) =~= ds);
        assert(prefs_along(ds, axis).take(n as int) =~= prefs_along(ds, axis));
        lemma_max_of_nonneg(mins_along(ds, cross));
    }
    let dims_out = WidgetDimensions {
        min: match axis {
            Axis::Horizontal => Size { width: min_along, height: min_cross },
            Axis::Vertical => Size { width: min_cross, height: min_along },
        },
        preferred: match axis {
            Axis::Horizontal => Size { width: preferred_along, height: preferred_cross },
            Axis::Vertical => Size { width: preferred_cross, height: preferred_along },
        },
        max: None,
        align_size_to: Size { width: 1, height: 1 },
        horizontal_spacer_count: match axis { Axis::Horizontal => along_count, Axis::Vertical => across_count },
        vertical_spacer_count: match axis { Axis::Horizontal => across_count, Axis::Vertical => along_count },
    };
    (Plots { plot_size: preferred }, dims_out)
}

/// The indices of the children that take part in sharing out slack, among
/// the first `k`: each child's index once per unit of its elasticity along
/// `axis`, in container order.
pub open spec fn resizable_upto(ds: Seq<WidgetDimensions>, axis: Axis, k: int) -> Seq<usize>
    decreases k,
{
    if k <= 0 {
        Seq::empty()
    } else {
        resizable_upto(ds, axis, k - 1) + Seq::new(ds[k - 1].spacers_along(axis) as nat, |_j: int| (k - 1) as usize)
    }
}

/// The children that share out slack: those with elasticity along `axis`, or
/// every child once if none has any.
pub open spec fn resizable(ds: Seq<WidgetDimensions>, axis: Axis) -> Seq<usize> {
    let r = resizable_upto(ds, axis, ds.len() as int);
    if r.len() == 0 {
        Seq::new(ds.len(), |i: int| i as usize)
    } else {
        r
    }
}

/// The allotment when the preferred lengths leave slack: the slack, divided
/// evenly over the entries of `resizable`, goes to each entry's child, and
/// the remainder goes one unit each to the first entries.
pub open spec fn grown_spec(ds: Seq<WidgetDimensions>, axis: Axis, available: isize) -> Seq<isize> {
    let prefs = prefs_along(ds, axis);
    let r = resizable(ds, axis);
    let surplus = available - sum_of(prefs);
    let q = surplus / (r.len() as int);
    let m = surplus % (r.len() as int);
    Seq::new(ds.len(), |i: int| (prefs[i] + q * count_in(r, i as usize) + count_in(r.take(m), i as usize)) as isize)
}

/// Whether child `i`, at length `p[i]`, gives up a quantum in a sweep: it is
/// above its minimum (or the sweep is desperate) and above zero.
pub open spec fn gives(p: Seq<isize>, mins: Seq<isize>, desperate: bool, i: int) -> bool {
    (desperate || p[i] > mins[i]) && p[i] > 0
}

/// A length `p` less one quantum `a`, but never below zero.
pub open spec fn less_quantum(p: isize, a: isize) -> isize {
    if p - a < 0 { 0 } else { (p - a) as isize }
}

/// One sweep over the children before `i`, last first, starting from
/// lengths `p` that sum to `s`: each child that gives loses one quantum (or
/// what it has left, if that is less), and the sweep stops as soon as the
/// lengths fit in `available`.
pub open spec fn sweep(p: Seq<isize>, mins: Seq<isize>, aligns: Seq<isize>, available: int, desperate: bool, i: int, s: int) -> Seq<isize>
    decreases i,
{
    if i <= 0 || s <= available {
        p
    } else if gives(p, mins, desperate, i - 1) {
        let v = less_quantum(p[i - 1], aligns[i - 1]);
        sweep(p.update(i - 1, v), mins, aligns, available, desperate, i - 1, s - (p[i - 1] - v))
    } else {
        sweep(p, mins, aligns, available, desperate, i - 1, s)
    }
}

/// Sweeps repeated, at most `fuel` of them, until the lengths `p` fit in
/// `available`; once a sweep takes nothing, the sweeps after it are desperate.
pub open spec fn shrink(p: Seq<isize>, mins: Seq<isize>, aligns: Seq<isize>, available: int, desperate: bool, fuel: nat) -> Seq<isize>
    decreases fuel,
{
    if fuel == 0 || sum_of(p) <= available {
        p
    } else {
        let q = sweep(p, mins, aligns, available, desperate, p.len() as int, sum_of(p));
        shrink(q, mins, aligns, available, desperate || sum_of(q) == sum_of(p), (fuel - 1) as nat)
    }
}

/// More sweeps than the shrinking of the preferred lengths of `ds` can take.
pub open spec fn shrink_fuel(ds: Seq<WidgetDimensions>, axis: Axis) -> nat {
    (2 * sum_of(prefs_along(ds, axis)) + 2) as nat
}

/// The allotment when the preferred lengths do not fit: the preferred
/// lengths, swept until they fit.
pub open spec fn shrunk_spec(ds: Seq<WidgetDimensions>, axis: Axis, available: isize) -> Seq<isize> {
    shrink(prefs_along(ds, axis), mins_along(ds, axis), aligns_along(ds, axis), available as int, false, shrink_fuel(ds, axis))
}

/// What holds of the allotment when the preferred lengths do not fit: it
/// fits, every length lies between zero and the preferred one, where the
/// minimums fit every child keeps at least its minimum, and with quanta of
/// one cell the lengths fill the room exactly.
pub open spec fn shrunk_ok(ds: Seq<WidgetDimensions>, axis: Axis, available: isize, r: Seq<isize>) -> bool {
    let prefs = prefs_along(ds, axis);
    let mins = mins_along(ds, axis);
    &&& r.len() == ds.len()
    &&& sum_of(r) <= available
    &&& forall|k: int| 0 <= k < r.len() ==> r[k] <= prefs[k]
    &&& forall|k: int| 0 <= k < r.len() ==> 0 <= r[k]
    &&& available >= sum_of(mins) ==> forall|k: int| 0 <= k < r.len() ==> mins[k] <= r[k]
    &&& (forall|k: int| 0 <= k < ds.len() ==> #[trigger] aligns_along(ds, axis)[k] == 1) ==> sum_of(r) == available
}

/// Negative room counts as none.
pub open spec fn room(available: isize) -> isize {
    if available < 0 { 0 } else { available }
}

proof fn lemma_quantum_step(v: int, m: int, a: int)
    requires
        a >= 1,
        v > m,
        (v - m) % a == 0,
    ensures
        v - a >= m,
        (v - a - m) % a == 0,
{
    assert(v - a >= m) by (nonlinear_arith)
        requires a >= 1, v > m, (v - m) % a == 0;
    assert((v - a - m) % a == 0) by (nonlinear_arith)
        requires a >= 1, (v - m) % a == 0;
}

proof fn lemma_resizable_bound(ds: Seq<WidgetDimensions>, axis: Axis, k: int)
    requires
        0 <= k <= ds.len(),
    ensures
        forall|j: int| 0 <= j < resizable_upto(ds, axis, k).len() ==> resizable_upto(ds, axis, k)[j] < k,
    decreases k,
{
    if k > 0 {
        lemma_resizable_bound(ds, axis, k - 1);
        let prev = resizable_upto(ds, axis, k - 1);
        let tail = Seq::new(ds[k - 1].spacers_along(axis) as nat, |_j: int| (k - 1) as usize);
        assert forall|j: int| 0 <= j < (prev + tail).len() implies (prev + tail)[j] < k by {
            if j < prev.len() {
            } else {
                assert((prev + tail)[j] == tail[j - prev.len()]);
            }
        }
    }
}

/// How a linear container shares out `available` cells along `axis` among
/// children that want `ds`. Each child starts from its preferred length.
/// Slack goes evenly to the elastic children (to every child if none is
/// elastic), the remainder one unit each to the first of them. A deficit is
/// taken back one quantum at a time, sweeping from the last child to the
/// first and stopping as soon as the lengths fit; children already at their
/// minimum are spared until a sweep takes nothing, after which only a length
/// of zero is spared, and no length goes below zero. Negative room counts as
/// none.
pub fn compute_plots_practical(dims: &Vec<WidgetDimensions>, available: isize, axis: Axis) -> (r: Plots)
    requires
        all_wf(dims@),
        dims@.len() <= MAX_PLOTS,
    ensures
        practical_outcome(dims@, available, axis, r@),
{
    let available: isize = if available < 0 { 0 } else { available };
    let ghost ds = dims@;
    let ghost prefs = prefs_along(ds, axis);
    let ghost mins = mins_along(ds, axis);
    let ghost aligns = aligns_along(ds, axis);
    let n = dims.len();
    let mut likes: Vec<usize> = Vec::new();
    let mut practical = buffer_new();
    let mut w: usize = 0;
    while w < n
        invariant
            ds == dims@,
            n == ds.len(),
            prefs == prefs_along(ds, axis),
            0 <= w <= n,
            likes@ == resizable_upto(ds, axis, w as int),
            plot_items(practical) == prefs.take(w as int),
            n <= MAX_PLOTS,
        decreases n - w,
    {
        let d = dims[w];
        let c = spacers(&d, axis);
        let mut j: usize = 0;
        while j < c
            invariant
                ds == dims@,
                n == ds.len(),
                0 <= w < n,
                d == ds[w as int],
                c == d.spacers_along(axis),
                0 <= j <= c,
                likes@ == resizable_upto(ds, axis, w as int) + Seq::new(j as nat, |_k: int| w),
            decreases c - j,
        {
            likes.push(w);
            j = j + 1;
            proof {
                assert(likes@ =~= resizable_upto(ds, axis, w as int) + Seq::new(j as nat, |_k: int| w));
            }
        }
        proof {
            assert(likes@ =~= resizable_upto(ds, axis, w + 1));
            assert(prefs.take(w + 1) =~= prefs.take(w as int).push(length_along(d.preferred, axis)));
        }
        buffer_push(&mut practical, along(d.preferred, axis));
        w = w + 1;
    }
    proof {
        assert(prefs.take(n as int) =~= prefs);
        lemma_resizable_bound(ds, axis, n as int);
        assert forall|k: int| 0 <= k < n implies 0 <= #[trigger] prefs[k] <= isize::MAX by {
            assert(ds[k].wf());
        }
        lemma_sum_bounds(prefs, 0, isize::MAX as int);
        assert(n * 0 == 0) by (nonlinear_arith);
    }
    if n == 0 {
        return Plots { plot_size: practical };
    }
    let mut sum: i128 = 0;
    let mut i: usize = 0;
    while i < n
        invariant
            ds == dims@,
            all_wf(ds),
            n == ds.len(),
            prefs == prefs_along(ds, axis),
            plot_items(practical) == prefs,
            0 <= i <= n,
            sum == sum_of(prefs.take(i as int)),
            0 <= sum_of(prefs),
        decreases n - i,
    {
        let v = buffer_get(&practical, i);
        proof {
            lemma_take_step(prefs, i as int);
            assert(ds[i as int].wf());
            assert forall|k: int| 0 <= k < prefs.take(i + 1).len() implies 0 <= #[trigger] prefs.take(i + 1)[k] <= isize::MAX by {
                assert(ds[k].wf());
            }
            lemma_sum_bounds(prefs.take(i + 1), 0, isize::MAX as int);
            assert((i + 1) * (isize::MAX as int) <= 0x1_0000_0000_0000_0000 * 0x7fff_ffff_ffff_ffff) by (nonlinear_arith)
                requires i + 1 <= 0x1_0000_0000_0000_0000;
        }
        sum = sum + v as i128;
        i = i + 1;
    }
    proof {
        assert(prefs.take(n as int) =~= prefs);
        assert forall|k: int| 0 <= k < n implies 0 <= #[trigger] prefs[k]
            && lengths_ok(mins[k], prefs[k], aligns[k]) && aligns[k] <= isize::MAX by {
            assert(ds[k].wf());
        }
    }
    if sum < available as i128 {
        if likes.len() == 0 {
            let mut k: usize = 0;
            while k < n
                invariant
                    0 <= k <= n,
                    likes@ == Seq::new(k as nat, |j: int| j as usize),
                decreases n - k,
            {
                likes.push(k);
                k = k + 1;
                proof {
                    assert(likes@ =~= Seq::new(k as nat, |j: int| j as usize));
                }
            }
        }
        let ghost r = likes@;
        proof {
            assert(r == resizable(ds, axis));
            assert forall|j: int| 0 <= j < r.len() implies r[j] < n by {}
        }
        let surplus: usize = (available as i128 - sum) as usize;
        let cnt = likes.len();
        let portion = surplus / cnt;
        let rem = surplus % cnt;
        proof {
            assert(portion * cnt + rem == surplus && 0 <= rem < cnt) by (nonlinear_arith)
                requires portion == surplus / cnt, rem == surplus % cnt, cnt > 0;
        }
        let mut j: usize = 0;
        while j < cnt
            invariant
                r == likes@,
                cnt == r.len(),
                forall|t: int| 0 <= t < r.len() ==> r[t] < n,
                n == prefs.len(),
                plot_items(practical).len() == n,
                0 <= j <= cnt,
                forall|k: int| 0 <= k < n ==> 0 <= #[trigger] prefs[k],
                forall|k: int| 0 <= k < n ==>
                    #[trigger] plot_items(practical)[k] == prefs[k] + portion * count_in(r.take(j as int), k as usize),
                sum_of(plot_items(practical)) == sum + portion * j,
                sum == sum_of(prefs),
                portion * cnt + rem == surplus,
                0 <= rem < cnt,
                surplus == available - sum,
                available >= 0,
            decreases cnt - j,
        {
            let idx = likes[j];
            let v = buffer_get(&practical, idx);
            let ghost before = plot_items(practical);
            proof {
                assert forall|k: int| 0 <= k < n implies 0 <= #[trigger] before[k] by {
                    lemma_count_nonneg(r.take(j as int), k as usize);
                    let c = count_in(r.take(j as int), k as usize);
                    assert(portion * c >= 0) by (nonlinear_arith)
                        requires c >= 0;
                }
                lemma_elem_le_sum(before, idx as int);
                assert(portion * (j + 1) <= portion * cnt) by (nonlinear_arith)
                    requires j + 1 <= cnt;
                assert(portion * j + portion == portion * (j + 1)) by (nonlinear_arith);
            }
            buffer_set(&mut practical, idx, v + portion as isize);
            proof {
                lemma_sum_update(before, idx as int, (v + portion) as isize);
                assert forall|k: int| 0 <= k < n implies
                    #[trigger] plot_items(practical)[k] == prefs[k] + portion * count_in(r.take(j + 1), k as usize) by {
                    lemma_count_take(r, j as int, k as usize);
                    let c = count_in(r.take(j as int), k as usize);
                    assert(portion * (c + 1) == portion * c + portion) by (nonlinear_arith);
                }
            }
            j = j + 1;
        }
        proof {
            lemma_take_step(r, 0);
        }
        let mut j: usize = 0;
        while j < rem
            invariant
                r == likes@,
                cnt == r.len(),
                forall|t: int| 0 <= t < r.len() ==> r[t] < n,
                n == prefs.len(),
                plot_items(practical).len() == n,
                0 <= j <= rem,
                0 <= rem < cnt,
                forall|k: int| 0 <= k < n ==> 0 <= #[trigger] prefs[k],
                forall|k: int| 0 <= k < n ==>
                    #[trigger] plot_items(practical)[k] == prefs[k] + portion * count_in(r, k as usize)
                        + count_in(r.take(j as int), k as usize),
                sum_of(plot_items(practical)) == sum + portion * cnt + j,
                sum == sum_of(prefs),
                portion * cnt + rem == surplus,
                surplus == available - sum,
                available >= 0,
            decreases rem - j,
        {
            let idx = likes[j];
            let v = buffer_get(&practical, idx);
            let ghost before = plot_items(practical);
            proof {
                assert forall|k: int| 0 <= k < n implies 0 <= #[trigger] before[k] by {
                    lemma_count_nonneg(r, k as usize);
                    lemma_count_nonneg(r.take(j as int), k as usize);
                    let c = count_in(r, k as usize);
                    assert(portion * c >= 0) by (nonlinear_arith)
                        requires c >= 0;
                }
                lemma_elem_le_sum(before, idx as int);
            }
            buffer_set(&mut practical, idx, v + 1);
            proof {
                lemma_sum_update(before, idx as int, (v + 1) as isize);
                assert forall|k: int| 0 <= k < n implies
                    #[trigger] plot_items(practical)[k] == prefs[k] + portion * count_in(r, k as usize)
                        + count_in(r.take(j + 1), k as usize) by {
                    lemma_count_take(r, j as int, k as usize);
                }
            }
            j = j + 1;
        }
        proof {
            assert(plot_items(practical) =~= grown_spec(ds, axis, available));
        }
        return Plots { plot_size: practical };
    }
    let mut desperate = false;
    let mut psum: i128 = sum;
    let ghost bound: int = n * (isize::MAX as int);
    let ghost mut fuel: nat = shrink_fuel(ds, axis);
    proof {
        lemma_sum_bounds(prefs, 0, isize::MAX as int);
        assert(n * 0 == 0) by (nonlinear_arith);
    }
    while psum > available as i128
        invariant
            ds == dims@,
            n == ds.len(),
            n > 0,
            prefs == prefs_along(ds, axis),
            mins == mins_along(ds, axis),
            aligns == aligns_along(ds, axis),
            bound == n * (isize::MAX as int),
            available >= 0,
            forall|k: int| 0 <= k < n ==> 0 <= #[trigger] prefs[k]
                && lengths_ok(mins[k], prefs[k], aligns[k]) && aligns[k] <= isize::MAX,
            plot_items(practical).len() == n,
            psum == sum_of(plot_items(practical)),
            forall|k: int| 0 <= k < n ==> #[trigger] plot_items(practical)[k] <= prefs[k]
                && plot_items(practical)[k] >= 0,
            available >= sum_of(mins) ==> !desperate && forall|k: int| 0 <= k < n ==>
                mins[k] <= #[trigger] plot_items(practical)[k] && (plot_items(practical)[k] - mins[k]) % (aligns[k] as int) == 0,
            sum_of(prefs) <= available ==> plot_items(practical) == prefs,
            (forall|k: int| 0 <= k < n ==> #[trigger] aligns[k] == 1) ==> psum >= available,
            fuel > 2 * psum + if desperate { 0int } else { 1int },
            shrink(plot_items(practical), mins, aligns, available as int, desperate, fuel)
                == shrink(prefs, mins, aligns, available as int, false, shrink_fuel(ds, axis)),
        decreases 2 * psum + if desperate { 0int } else { 1int },
    {
        proof {
            lemma_sum_bounds(plot_items(practical), -(isize::MAX as int), isize::MAX as int);
            assert(n * -(isize::MAX as int) == -bound) by (nonlinear_arith)
                requires bound == n * (isize::MAX as int);
        }
        proof {
            lemma_sum_bounds(plot_items(practical), 0, isize::MAX as int);
            assert(n * 0 == 0) by (nonlinear_arith);
        }
        let prev = psum;
        let ghost was_desperate = desperate;
        let ghost start = plot_items(practical);
        let mut i: usize = n;
        while i > 0 && psum > available as i128
            invariant
                ds == dims@,
                n == ds.len(),
                prefs == prefs_along(ds, axis),
                mins == mins_along(ds, axis),
                aligns == aligns_along(ds, axis),
                available >= 0,
                0 <= i <= n,
                forall|k: int| 0 <= k < n ==> 0 <= #[trigger] prefs[k]
                    && lengths_ok(mins[k], prefs[k], aligns[k]) && aligns[k] <= isize::MAX,
                plot_items(practical).len() == n,
                psum == sum_of(plot_items(practical)),
                psum <= prev,
                psum == prev ==> plot_items(practical) == start,
                (forall|k: int| 0 <= k < n ==> #[trigger] aligns[k] == 1) ==> psum >= available,
                prev == sum_of(start),
                start.len() == n,
                sweep(plot_items(practical), mins, aligns, available as int, desperate, i as int, psum as int)
                    == sweep(start, mins, aligns, available as int, desperate, n as int, prev as int),
                psum == prev ==> forall|k: int| i <= k < n ==>
                    (!desperate && #[trigger] plot_items(practical)[k] <= mins[k]) || plot_items(practical)[k] <= 0,
                forall|k: int| 0 <= k < n ==> #[trigger] plot_items(practical)[k] <= prefs[k]
                    && plot_items(practical)[k] >= 0,
                available >= sum_of(mins) ==> !desperate && forall|k: int| 0 <= k < n ==>
                    mins[k] <= #[trigger] plot_items(practical)[k] && (plot_items(practical)[k] - mins[k]) % (aligns[k] as int) == 0,
            decreases i,
        {
            i = i - 1;
            let v = buffer_get(&practical, i);
            let m = along(dims[i].min, axis);
            if (desperate || v > m) && v > 0 {
                let a = along(dims[i].align_size_to, axis);
                let ghost before = plot_items(practical);
                proof {
                    if available >= sum_of(mins) {
                        lemma_quantum_step(v as int, m as int, a as int);
                    }
                }
                let rest: isize = if v - a < 0 { 0 } else { v - a };
                buffer_set(&mut practical, i, rest);
                proof {
                    lemma_sum_update(before, i as int, rest);
                }
                psum = psum - (v - rest) as i128;
            }
        }
        proof {
            assert(sweep(plot_items(practical), mins, aligns, available as int, desperate, i as int, psum as int) == plot_items(practical));
            assert(shrink(start, mins, aligns, available as int, was_desperate, fuel)
                == shrink(plot_items(practical), mins, aligns, available as int, was_desperate || psum == prev, (fuel - 1) as nat));
            fuel = (fuel - 1) as nat;
        }
        if prev == psum {
            proof {
                assert forall|k: int| 0 <= k < n implies #[trigger] plot_items(practical)[k] <= 0 || !desperate by {}
                if desperate {
                    lemma_sum_bounds(plot_items(practical), -(isize::MAX as int), 0);
                    assert(n * 0 == 0) by (nonlinear_arith);
                }
                if available >= sum_of(mins) {
                    assert(plot_items(practical) =~= mins);
                }
            }
            desperate = true;
        }
        proof {
            assert(prev + bound >= 0);
            lemma_sum_bounds(plot_items(practical), -(isize::MAX as int), isize::MAX as int);
            assert(n * -(isize::MAX as int) == -bound) by (nonlinear_arith)
                requires bound == n * (isize::MAX as int);
            lemma_sum_bounds(plot_items(practical), 0, isize::MAX as int);
            assert(n * 0 == 0) by (nonlinear_arith);
            assert(psum >= 0);
            assert(psum < prev || (psum == prev && !was_desperate && desperate));
        }
    }
    proof {
        assert(shrink(plot_items(practical), mins, aligns, available as int, desperate, fuel) == plot_items(practical));
        if sum_of(prefs) >= available {
            assert(shrunk_ok(ds, axis, available, plot_items(practical)));
        }
    }
    Plots { plot_size: practical }
}

/// Asks each child what it wants at `width`, each answer brought into shape.
pub fn child_dimensions<W: WidgetHandle>(widgets: &Vec<W>, ui: &UI, width: isize) -> (r: Vec<WidgetDimensions>)
    ensures
        r@.len() == widgets@.len(),
        all_wf(r@),
{
    let mut out: Vec<WidgetDimensions> = Vec::new();
    let mut i: usize = 0;
    while i < widgets.len()
        invariant
            0 <= i <= widgets@.len(),
            out@.len() == i,
            all_wf(out@),
        decreases widgets@.len() - i,
    {
        let d = widgets[i].estimate_dimensions(ui, width).fixup();
        out.push(d);
        i = i + 1;
    }
    out
}

/// A linear container: its children in order, the axis it lays them out
/// along, and its two caches, what it wants at a given width and how it
/// shares out a given size.
pub struct RowState<W> {
    pub widgets: Vec<W>,
    pub axis: Axis,
    pub plots_desired: (isize, (Plots, WidgetDimensions)),
    pub plots_practical: (Size, Plots),
    pub layout_hacks: LayoutHacks,
}

impl<W> RowState<W> {
    pub open spec fn wf(&self) -> bool {
        self.plots_desired.1.1.wf()
    }

    pub open spec fn desired_cached(&self, width: isize) -> bool {
        self.plots_desired.0 == width && self.plots_desired.1.0@.len() == self.widgets@.len()
    }

    pub open spec fn practical_cached(&self, size: Size) -> bool {
        self.plots_practical.0 == size && self.plots_practical.1@.len() == self.widgets@.len()
    }

    /// An empty container laying its children out along `axis`.
    pub fn new_along(axis: Axis) -> (r: RowState<W>)
        ensures
            r.wf(),
            r.widgets@.len() == 0,
            r.axis == axis,
            r.plots_desired.0 == -1,
            r.plots_practical.0 == (Size { width: -1isize, height: -1isize }),
            r.layout_hacks == LayoutHacks::none(),
    {
        RowState {
            widgets: Vec::new(),
            axis,
            plots_desired: (-1, (Plots::new(), WidgetDimensions::zero())),
            plots_practical: (Size { width: -1, height: -1 }, Plots::new()),
            layout_hacks: LayoutHacks::new(),
        }
    }

    /// Appends a child at the end.
    pub fn add(&mut self, w: W)
        ensures
            final(self).widgets@ == old(self).widgets@.push(w),
            final(self).axis == old(self).axis,
            final(self).plots_desired == old(self).plots_desired,
            final(self).plots_practical == old(self).plots_practical,
            final(self).layout_hacks == old(self).layout_hacks,
    {
        self.widgets.push(w);
    }
}

impl<W: WidgetHandle> RowState<W> {
    /// What the container wants at `width`, and the preferred length of each
    /// child along its axis. Answered from the cache when it was made for
    /// `width` and for as many children as there are now; otherwise the
    /// children are asked anew and the cache is refilled.
    pub fn get_plots_desired(&mut self, ui: &UI, width: isize) -> (r: WidgetDimensions)
        requires
            old(self).widgets@.len() <= MAX_PLOTS,
        ensures
            old(self).wf() ==> final(self).wf(),
            final(self).desired_cached(width),
            final(self).widgets == old(self).widgets,
            final(self).axis == old(self).axis,
            final(self).plots_practical == old(self).plots_practical,
            final(self).layout_hacks == old(self).layout_hacks,
            r == final(self).plots_desired.1.1,
            old(self).desired_cached(width) ==> *final(self) == *old(self),
            !old(self).desired_cached(width) ==> exists|ds: Seq<WidgetDimensions>|
                ds.len() == old(self).widgets@.len() && all_wf(ds)
                && #[trigger] final(self).plots_desired.1.0@ == prefs_along(ds, old(self).axis)
                && r == desired_spec(ds, old(self).axis) && r.wf(),
    {
        if self.plots_desired.0 == width && self.plots_desired.1.0.len() == self.widgets.len() {
            return self.plots_desired.1.1;
        }
        let dims = child_dimensions(&self.widgets, ui, width);
        let computed = compute_plots_desired(&dims, self.axis);
        let d = computed.1;
        self.plots_desired = (width, computed);
        d
    }

    /// The length each child gets along the container's axis when the
    /// container is drawn at `size`. Answered from the cache when it was made
    /// for `size` and for as many children as there are now; otherwise the
    /// children are asked anew at `size.width` and the cache is refilled.
    pub fn get_plots_practical(&mut self, ui: &UI, size: Size) -> (r: Vec<isize>)
        requires
            old(self).widgets@.len() <= MAX_PLOTS,
        ensures
            final(self).practical_cached(size),
            final(self).widgets == old(self).widgets,
            final(self).axis == old(self).axis,
            final(self).plots_desired == old(self).plots_desired,
            final(self).layout_hacks == old(self).layout_hacks,
            r@ == final(self).plots_practical.1@,
            r@.len() == old(self).widgets@.len(),
            old(self).practical_cached(size) ==> *final(self) == *old(self),
            !old(self).practical_cached(size) ==> exists|ds: Seq<WidgetDimensions>|
                ds.len() == old(self).widgets@.len() && all_wf(ds)
                && #[trigger] practical_outcome(ds, length_along(size, old(self).axis), old(self).axis, r@),
    {
        let ghost mut witness: Seq<WidgetDimensions> = Seq::empty();
        if !(self.plots_practical.0 == size && self.plots_practical.1.len() == self.widgets.len()) {
            let dims = child_dimensions(&self.widgets, ui, size.width);
            let computed = compute_plots_practical(&dims, along(size, self.axis), self.axis);
            proof {
                witness = dims@;
            }
            self.plots_practical = (size, computed);
        }
        let out = self.plots_practical.1.to_vec();
        proof {
            if !old(self).practical_cached(size) {
                assert(practical_outcome(witness, length_along(size, old(self).axis), old(self).axis, out@));
            }
        }
        out
    }
}

/// What `compute_plots_practical` promises of the allotment `r` of
/// `available` cells (none if negative) among children that want `ds`.
pub open spec fn practical_outcome(ds: Seq<WidgetDimensions>, available: isize, axis: Axis, r: Seq<isize>) -> bool {
    let a = room(available);
    &&& r.len() == ds.len()
    &&& ds.len() > 0 && sum_of(prefs_along(ds, axis)) < a ==> r == grown_spec(ds, axis, a)
    &&& ds.len() > 0 && sum_of(prefs_along(ds, axis)) >= a
        ==> r == shrunk_spec(ds, axis, a) && shrunk_ok(ds, axis, a, r)
    &&& ds.len() > 0 && sum_of(prefs_along(ds, axis)) <= a ==> sum_of(r) == a
}

impl<W: WidgetHandle> Widgetlike for RowState<W> {
    fn create() -> (r: RowState<W>)
        ensures
            r.wf(),
            r.widgets@.len() == 0,
            r.axis == Axis::Horizontal,
            r.layout_hacks == LayoutHacks::none(),
    {
        RowState::new_along(Axis::Horizontal)
    }

    /// What the row wants at `width`, as `get_plots_desired` answers it;
    /// a row with more children than plots can hold wants nothing.
    fn estimate_dimensions(&mut self, ui: &UI, width: isize) -> (r: WidgetDimensions)
        ensures
            old(self).widgets@.len() > MAX_PLOTS ==> r == WidgetDimensions::zero_spec() && *final(self) == *old(self),
            old(self).widgets@.len() <= MAX_PLOTS ==> {
                &&& r == final(self).plots_desired.1.1
                &&& final(self).desired_cached(width)
                &&& final(self).widgets == old(self).widgets
                &&& final(self).axis == old(self).axis
                &&& final(self).plots_practical == old(self).plots_practical
                &&& final(self).layout_hacks == old(self).layout_hacks
                &&& old(self).desired_cached(width) ==> *final(self) == *old(self)
                &&& !old(self).desired_cached(width) ==> exists|ds: Seq<WidgetDimensions>|
                    ds.len() == old(self).widgets@.len() && all_wf(ds)
                    && #[trigger] final(self).plots_desired.1.0@ == prefs_along(ds, old(self).axis)
                    && r == desired_spec(ds, old(self).axis) && r.wf()
            },
    {
        if self.widgets.len() > MAX_PLOTS {
            return WidgetDimensions::zero();
        }
        self.get_plots_desired(ui, width)
    }

    /// Empties both caches and passes the request on to every child.
    fn clear_layout_cache(&mut self, ui: &UI)
        ensures
            final(self).plots_desired.0 == -1,
            final(self).plots_desired.1.0@.len() == 0,
            final(self).plots_desired.1.1 == WidgetDimensions::zero_spec(),
            final(self).plots_practical.0 == (Size { width: -1isize, height: -1isize }),
            final(self).plots_practical.1@.len() == 0,
            final(self).widgets == old(self).widgets,
            final(self).axis == old(self).axis,
            final(self).layout_hacks == old(self).layout_hacks,
    {
        self.plots_desired = (-1, (Plots::new(), WidgetDimensions::zero()));
        self.plots_practical = (Size { width: -1, height: -1 }, Plots::new());
        let ghost cleared = *self;
        let mut i: usize = 0;
        while i < self.widgets.len()
            invariant
                0 <= i <= self.widgets@.len(),
                *self == cleared,
            decreases self.widgets@.len() - i,
        {
            self.widgets[i].clear_layout_cache_if_needed(ui);
            i = i + 1;
        }
    }

    open spec fn overrides(&self) -> LayoutHacks {
        self.layout_hacks
    }

    fn layout_hacks(&self) -> LayoutHacks {
        self.layout_hacks
    }
}

} // verus!
