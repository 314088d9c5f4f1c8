use vstd::prelude::*;
use smallvec::SmallVec;

verus! {

/// The most lengths a plot buffer is asked to hold: past about this many,
/// growing the buffer would ask for more than `isize::MAX` bytes.
pub const MAX_PLOTS: usize = usize::MAX / 64;

/// An inline buffer of plot lengths, one per child of a linear container: a
/// `smallvec::SmallVec` that keeps up to 32 lengths inline, reached only
/// through the functions below.
#[verifier::external_body]
pub struct PlotBuffer {
    items: SmallVec<[isize; 32]>,
}

/// The lengths held by an inline buffer of plot lengths, in order.
pub uninterp spec fn plot_items(v: PlotBuffer) -> Seq<isize>;

/// Relies on `smallvec::SmallVec::new`: the new vector is empty.
#[verifier::external_body]
pub(crate) fn buffer_new() -> (r: PlotBuffer)
    ensures
        plot_items(r) == Seq::<isize>::empty(),
{
    PlotBuffer { items: SmallVec::new() }
}

/// Relies on `smallvec::SmallVec::push`: appends one item at the end (it
/// panics only when the grown capacity would overflow, far above `MAX_PLOTS`).
#[verifier::external_body]
pub(crate) fn buffer_push(v: &mut PlotBuffer, x: isize)
    requires
        plot_items(*old(v)).len() < MAX_PLOTS,
    ensures
        plot_items(*final(v)) == plot_items(*old(v)).push(x),
{
    v.items.push(x)
}

/// Relies on `smallvec::SmallVec::len`: the number of items held.
#[verifier::external_body]
pub(crate) fn buffer_len(v: &PlotBuffer) -> (r: usize)
    ensures
        r == plot_items(*v).len(),
{
    v.items.len()
}

/// Relies on `smallvec::SmallVec`'s `Index`: the item at position `i`.
#[verifier::external_body]
pub(crate) fn buffer_get(v: &PlotBuffer, i: usize) -> (r: isize)
    requires
        i < plot_items(*v).len(),
    ensures
        r == plot_items(*v)[i as int],
{
    v.items[i]
}

/// Relies on `smallvec::SmallVec`'s `IndexMut`: overwrites the item at position `i`.
#[verifier::external_body]
pub(crate) fn buffer_set(v: &mut PlotBuffer, i: usize, x: isize)
    requires
        i < plot_items(*old(v)).len(),
    ensures
        plot_items(*final(v)) == plot_items(*old(v)).update(i as int, x),
{
    v.items[i] = x;
}

} // verus!
