use chiroptui::{compute_plots_desired, compute_plots_practical, Axis, LayoutHacks, RowState, Size, WidgetDimensions, WidgetHandle, UI};

fn dims(min_w: isize, pref_w: isize, spacers: usize) -> WidgetDimensions {
    WidgetDimensions {
        min: Size { width: min_w, height: 1 },
        preferred: Size { width: pref_w, height: 1 },
        max: None,
        align_size_to: Size { width: 1, height: 1 },
        horizontal_spacer_count: spacers,
        vertical_spacer_count: 0,
    }
}

fn practical(ds: &Vec<WidgetDimensions>, available: isize) -> Vec<isize> {
    compute_plots_practical(ds, available, Axis::Horizontal).to_vec()
}

#[test]
fn row_grows_evenly_without_elastic_children() {
    let ds = vec![dims(2, 5, 0), dims(2, 5, 0), dims(2, 5, 0)];
    assert_eq!(practical(&ds, 18), vec![6, 6, 6]);
}

#[test]
fn row_shrinks_to_nine() {
    let ds = vec![dims(2, 5, 0), dims(2, 5, 0), dims(2, 5, 0)];
    let r = practical(&ds, 9);
    assert!(r.iter().sum::<isize>() <= 9);
    assert_eq!(r, vec![3, 3, 3]);
}

#[test]
fn row_shrinks_last_child_first() {
    let ds = vec![dims(2, 5, 0), dims(2, 5, 0), dims(2, 5, 0)];
    assert_eq!(practical(&ds, 13), vec![5, 4, 4]);
    assert_eq!(practical(&ds, 10), vec![4, 3, 3]);
}

#[test]
fn row_growth_goes_to_elastic_children_with_remainder_first() {
    // slack 4 over the entries [1, 1, 2]: one each, then the one left over to the first entry
    let ds = vec![dims(0, 1, 0), dims(0, 2, 2), dims(0, 3, 1)];
    let r = practical(&ds, 10);
    assert_eq!(r, vec![1, 5, 4]);
    assert_eq!(r.iter().sum::<isize>(), 10);
}

#[test]
fn row_growth_remainder_goes_to_first_children() {
    let ds = vec![dims(0, 0, 0), dims(0, 0, 0), dims(0, 0, 0)];
    assert_eq!(practical(&ds, 8), vec![3, 3, 2]);
}

#[test]
fn row_exact_fit_is_unchanged() {
    let ds = vec![dims(1, 4, 0), dims(1, 6, 1)];
    assert_eq!(practical(&ds, 10), vec![4, 6]);
}

#[test]
fn row_desperate_mode_goes_below_minimum() {
    let ds = vec![dims(5, 5, 0), dims(5, 5, 0)];
    let r = practical(&ds, 6);
    assert_eq!(r, vec![3, 3]);
}

#[test]
fn row_shrink_keeps_minimums_when_they_fit() {
    let ds = vec![dims(3, 9, 0), dims(4, 4, 0), dims(1, 7, 0)];
    let r = practical(&ds, 9);
    assert!(r.iter().sum::<isize>() <= 9);
    assert!(r[0] >= 3 && r[1] >= 4 && r[2] >= 1);
    assert_eq!(r, vec![4, 4, 1]);
}

#[test]
fn row_shrink_in_quanta() {
    let mut a = dims(1, 7, 0);
    a.align_size_to = Size { width: 3, height: 1 };
    let ds = vec![dims(0, 2, 0), a];
    assert_eq!(practical(&ds, 5), vec![1, 4]);
}

#[test]
fn row_negative_room_counts_as_none() {
    let ds = vec![dims(2, 5, 0), dims(2, 5, 0)];
    assert_eq!(practical(&ds, -3), vec![0, 0]);
    assert_eq!(practical(&ds, 0), vec![0, 0]);
}

#[test]
fn desperate_shrink_never_goes_below_zero() {
    let mut a = dims(2, 5, 0);
    a.align_size_to = Size { width: 3, height: 1 };
    assert_eq!(practical(&vec![a], 1), vec![0]);
}

#[test]
fn unit_quanta_fill_the_room_exactly() {
    let ds = vec![dims(4, 6, 0), dims(3, 9, 0), dims(5, 5, 0)];
    let r = practical(&ds, 7);
    assert_eq!(r.iter().sum::<isize>(), 7);
    assert!(r.iter().all(|x| *x >= 0));
}

#[test]
fn row_without_children_has_no_plots() {
    let ds: Vec<WidgetDimensions> = Vec::new();
    assert_eq!(practical(&ds, 20), Vec::<isize>::new());
    let (plots, d) = compute_plots_desired(&ds, Axis::Horizontal);
    assert_eq!(plots.len(), 0);
    assert_eq!(d.vertical_spacer_count, 0);
    assert_eq!(d.horizontal_spacer_count, 0);
    assert_eq!(d.preferred, Size { width: 0, height: 0 });
}

#[test]
fn row_desired_sums_along_and_maxes_across() {
    let mut a = dims(2, 5, 1);
    a.min.height = 3;
    a.preferred.height = 4;
    a.vertical_spacer_count = 2;
    let mut b = dims(1, 3, 2);
    b.preferred.height = 7;
    b.vertical_spacer_count = 1;
    let (plots, d) = compute_plots_desired(&vec![a, b], Axis::Horizontal);
    assert_eq!(plots.to_vec(), vec![5, 3]);
    assert_eq!(d.min, Size { width: 3, height: 3 });
    assert_eq!(d.preferred, Size { width: 8, height: 7 });
    assert_eq!(d.horizontal_spacer_count, 3);
    assert_eq!(d.vertical_spacer_count, 1);
    assert_eq!(d.max, None);
}

#[test]
fn column_desired_sums_heights() {
    let mut a = dims(2, 5, 1);
    a.preferred.height = 4;
    a.vertical_spacer_count = 2;
    let b = dims(1, 3, 0);
    let (plots, d) = compute_plots_desired(&vec![a, b], Axis::Vertical);
    assert_eq!(plots.to_vec(), vec![4, 1]);
    assert_eq!(d.min, Size { width: 2, height: 2 });
    assert_eq!(d.preferred, Size { width: 5, height: 5 });
    assert_eq!(d.vertical_spacer_count, 2);
    assert_eq!(d.horizontal_spacer_count, 0);
}

#[test]
fn column_practical_shares_height() {
    let ds = vec![dims(0, 0, 0), dims(0, 0, 0)];
    assert_eq!(compute_plots_practical(&ds, 7, Axis::Vertical).to_vec(), vec![4, 3]);
}

#[test]
fn fixup_brings_dimensions_into_shape() {
    let raw = WidgetDimensions {
        min: Size { width: -4, height: 3 },
        preferred: Size { width: 7, height: 1 },
        max: Some(Size { width: 2, height: 2 }),
        align_size_to: Size { width: 3, height: 0 },
        horizontal_spacer_count: 1,
        vertical_spacer_count: 0,
    };
    let d = raw.fixup();
    assert_eq!(d.min, Size { width: 0, height: 3 });
    assert_eq!(d.preferred, Size { width: 6, height: 3 });
    assert_eq!(d.align_size_to, Size { width: 3, height: 1 });
    assert_eq!(d.max, Some(Size { width: 6, height: 3 }));
}

#[test]
fn layout_hacks_override_and_expand() {
    let mut h = LayoutHacks::new();
    h.expand_horizontally = true;
    h.preferred_height = Some(9);
    let d = h.apply(dims(2, 5, 0));
    assert_eq!(d.horizontal_spacer_count, 1);
    assert_eq!(d.vertical_spacer_count, 0);
    assert_eq!(d.preferred, Size { width: 5, height: 9 });
    let below = LayoutHacks { expand_horizontally: false, expand_vertically: false, preferred_width: Some(1), preferred_height: None };
    assert_eq!(below.apply(dims(2, 5, 0)).preferred.width, 2);
}

struct Fixed(WidgetDimensions);

impl WidgetHandle for Fixed {
    fn estimate_dimensions(&self, _ui: &UI, _width: isize) -> WidgetDimensions {
        self.0
    }

    fn clear_layout_cache_if_needed(&self, _ui: &UI) {}
}

#[test]
fn row_state_plots_follow_child_count() {
    let ui = UI::new();
    let mut row: RowState<Fixed> = RowState::new_along(Axis::Horizontal);
    assert_eq!(row.get_plots_practical(&ui, Size { width: 18, height: 1 }), Vec::<isize>::new());
    for _ in 0..3 {
        row.add(Fixed(dims(2, 5, 0)));
    }
    assert_eq!(row.get_plots_practical(&ui, Size { width: 18, height: 1 }), vec![6, 6, 6]);
    let d = row.get_plots_desired(&ui, 40);
    assert_eq!(d.preferred, Size { width: 15, height: 1 });
    assert_eq!(d.min, Size { width: 6, height: 1 });
    row.add(Fixed(dims(1, 1, 0)));
    assert_eq!(row.get_plots_practical(&ui, Size { width: 18, height: 1 }).len(), 4);
    assert_eq!(row.get_plots_desired(&ui, 40).preferred.width, 16);
}
