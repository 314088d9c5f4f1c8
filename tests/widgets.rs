use chiroptui::border::{border_dimensions, border_plots};
use chiroptui::bulletin_board::{board_dimensions, placement};
use chiroptui::{
    BorderSlot, BorderState, BulletinBoardState, EditKey, InputBoxState, LayoutHacks, Point, Rect, Size, WidgetCommon,
    WidgetDimensions, WidgetHandle, Widgetlike, UI,
};

fn text_of(ib: &InputBoxState) -> String {
    ib.text().iter().collect()
}

fn typed(s: &str) -> InputBoxState {
    let mut ib = InputBoxState::new();
    for c in s.chars() {
        ib.type_character(c);
    }
    ib
}

#[test]
fn typing_backspace_select_and_replace() {
    let mut ib = typed("abc");
    assert_eq!(text_of(&ib), "abc");
    assert_eq!(ib.cursor(), (3, 3));
    ib.backspace();
    assert_eq!(text_of(&ib), "ab");
    assert_eq!(ib.cursor(), (2, 2));
    // the right end of [0, 2] lands on the end of "ab" and is pulled back onto "b"
    ib.highlight(0, 2);
    assert_eq!(ib.cursor(), (0, 1));
    ib.type_character('X');
    assert_eq!(text_of(&ib), "X");
    assert_eq!(ib.cursor(), (1, 1));
}

#[test]
fn replacing_a_selection_of_two() {
    let mut ib = typed("abc");
    ib.highlight(0, 1);
    ib.type_character('X');
    assert_eq!(text_of(&ib), "Xc");
    assert_eq!(ib.cursor(), (1, 1));
}

#[test]
fn typing_stops_at_max_width() {
    let mut ib = InputBoxState::new();
    ib.max_width = Some(2);
    for c in "abc".chars() {
        ib.type_character(c);
    }
    assert_eq!(text_of(&ib), "ab");
    assert_eq!(ib.cursor(), (2, 2));
}

#[test]
fn typing_inserts_at_cursor() {
    let mut ib = typed("ac");
    ib.set_cursor(1);
    ib.type_character('b');
    assert_eq!(text_of(&ib), "abc");
    assert_eq!(ib.cursor(), (2, 2));
}

#[test]
fn backspace_at_start_and_delete_at_end_do_nothing() {
    let mut ib = typed("ab");
    ib.delete();
    assert_eq!(text_of(&ib), "ab");
    ib.set_cursor(0);
    ib.backspace();
    assert_eq!(text_of(&ib), "ab");
    assert_eq!(ib.cursor(), (0, 0));
    ib.delete();
    assert_eq!(text_of(&ib), "b");
    assert_eq!(ib.cursor(), (0, 0));
}

#[test]
fn delete_and_backspace_remove_a_selection() {
    let mut ib = typed("abcde");
    ib.highlight(3, 1);
    assert_eq!(ib.cursor(), (1, 3));
    ib.delete();
    assert_eq!(text_of(&ib), "ae");
    assert_eq!(ib.cursor(), (1, 1));
    let mut ib = typed("abcde");
    ib.highlight(0, 0);
    ib.backspace();
    assert_eq!(text_of(&ib), "abcde");
    ib.highlight(2, 3);
    ib.backspace();
    assert_eq!(text_of(&ib), "abe");
    assert_eq!(ib.cursor(), (2, 2));
}

#[test]
fn moving_from_a_selection() {
    let mut ib = typed("abcd");
    ib.highlight(1, 2);
    ib.move_cursor(1);
    assert_eq!(ib.cursor(), (3, 3));
    ib.highlight(1, 2);
    ib.move_cursor(-1);
    assert_eq!(ib.cursor(), (0, 0));
    ib.move_cursor(-5);
    assert_eq!(ib.cursor(), (0, 0));
    ib.move_cursor(99);
    assert_eq!(ib.cursor(), (4, 4));
}

#[test]
fn cursor_and_selection_are_clamped() {
    let mut ib = typed("abcd");
    ib.set_cursor(100);
    assert_eq!(ib.cursor(), (4, 4));
    ib.highlight(1, 9);
    assert_eq!(ib.cursor(), (1, 3));
    ib.highlight(7, 9);
    assert_eq!(ib.cursor(), (4, 4));
}

#[test]
fn editing_keys() {
    let mut ib = typed("abc");
    assert!(!ib.handle_key(EditKey::Home));
    assert_eq!(ib.cursor(), (0, 0));
    assert!(!ib.handle_key(EditKey::Right));
    assert_eq!(ib.cursor(), (1, 1));
    assert!(!ib.handle_key(EditKey::Delete));
    assert_eq!(text_of(&ib), "ac");
    assert!(!ib.handle_key(EditKey::End));
    assert_eq!(ib.cursor(), (2, 2));
    assert!(!ib.handle_key(EditKey::Backspace));
    assert_eq!(text_of(&ib), "a");
    assert!(!ib.handle_key(EditKey::Left));
    assert_eq!(ib.cursor(), (0, 0));
    assert!(ib.handle_key(EditKey::Enter));
    assert_eq!(text_of(&ib), "a");
}

#[test]
fn mouse_click_and_drag() {
    let mut ib = typed("abcd");
    ib.click(-5);
    assert_eq!(ib.cursor(), (0, 0));
    ib.click(2);
    assert_eq!(ib.cursor(), (2, 2));
    assert!(!ib.drag(-1, 3));
    assert_eq!(ib.cursor(), (2, 2));
    assert!(ib.drag(3, -2));
    assert_eq!(ib.cursor(), (0, 3));
}

#[test]
fn input_box_dimensions() {
    let mut ib = InputBoxState::new();
    let d = ib.dimensions();
    assert_eq!(d.preferred, Size { width: 80, height: 2 });
    assert_eq!(d.min, Size { width: 80, height: 2 });
    assert_eq!(d.max, Some(Size { width: isize::MAX, height: 2 }));
    assert_eq!(d.align_size_to, Size { width: 1, height: 2 });
    ib.max_width = Some(3);
    let d = ib.dimensions();
    assert_eq!(d.preferred, Size { width: 3, height: 2 });
    assert_eq!(d.max, Some(Size { width: 3, height: 2 }));
    ib.max_width = None;
    for c in "abcde".chars() {
        ib.type_character(c);
    }
    ib.max_width = Some(3);
    assert_eq!(ib.dimensions().preferred.width, 5);
}

struct Counting {
    calls: u32,
}

impl Widgetlike for Counting {
    fn create() -> Counting {
        Counting { calls: 0 }
    }

    fn estimate_dimensions(&mut self, _ui: &UI, width: isize) -> WidgetDimensions {
        self.calls += 1;
        WidgetDimensions {
            min: Size { width: 1, height: 1 },
            preferred: Size { width, height: 2 },
            max: None,
            align_size_to: Size { width: 1, height: 1 },
            horizontal_spacer_count: 0,
            vertical_spacer_count: 0,
        }
    }

    fn clear_layout_cache(&mut self, _ui: &UI) {}

    fn overrides(&self) -> LayoutHacks {
        LayoutHacks { expand_horizontally: false, expand_vertically: true, preferred_width: None, preferred_height: None }
    }

    fn layout_hacks(&self) -> LayoutHacks {
        self.overrides()
    }
}

#[test]
fn estimate_is_cached_per_width() {
    let ui = UI::new();
    let mut c = WidgetCommon::new(Counting::create());
    let a = c.estimate_dimensions(&ui, 10);
    let b = c.estimate_dimensions(&ui, 10);
    assert_eq!(a, b);
    assert_eq!(c.unique.calls, 1);
    assert_eq!(a.preferred, Size { width: 10, height: 2 });
    assert_eq!(a.vertical_spacer_count, 1);
    c.estimate_dimensions(&ui, 11);
    assert_eq!(c.unique.calls, 2);
}

#[test]
fn negative_width_is_asked_as_zero() {
    let ui = UI::new();
    let mut c = WidgetCommon::new(Counting::create());
    let d = c.estimate_dimensions(&ui, -7);
    assert_eq!(d.min, Size { width: 1, height: 1 });
    assert_eq!(d.preferred, Size { width: 1, height: 2 });
    c.estimate_dimensions(&ui, 0);
    assert_eq!(c.unique.calls, 1);
}

#[test]
fn bumped_token_forces_recompute() {
    let mut ui = UI::new();
    let mut c = WidgetCommon::new(Counting::create());
    c.clear_layout_cache_if_needed(&ui);
    assert_eq!(c.layout_token, ui.layout_token());
    c.estimate_dimensions(&ui, 10);
    c.clear_layout_cache_if_needed(&ui);
    c.estimate_dimensions(&ui, 10);
    assert_eq!(c.unique.calls, 1);
    let before = ui.layout_token();
    ui.recompute_layout();
    assert_eq!(ui.layout_token(), before + 1);
    c.clear_layout_cache_if_needed(&ui);
    c.estimate_dimensions(&ui, 10);
    assert_eq!(c.unique.calls, 2);
}

#[test]
fn layout_hacks_of_the_widget() {
    let c = WidgetCommon::new(Counting::create());
    let d = c.apply_layout_hacks(WidgetDimensions::zero());
    assert_eq!(d.vertical_spacer_count, 1);
    assert_eq!(d.horizontal_spacer_count, 0);
}

#[test]
fn focus_is_held_by_one_widget() {
    let mut ui = UI::new();
    let mut a = WidgetCommon::new(InputBoxState::new());
    let mut b = WidgetCommon::new(InputBoxState::new());
    assert!(!ui.is_selected(&a.selection));
    assert!(ui.select(&mut a.selection));
    assert!(ui.is_selected(&a.selection));
    assert!(ui.select(&mut b.selection));
    assert!(ui.is_selected(&b.selection));
    assert!(!ui.is_selected(&a.selection));
    ui.deselect(&a.selection);
    assert!(ui.is_selected(&b.selection));
    ui.deselect(&b.selection);
    assert!(!ui.is_selected(&b.selection));
}

fn d(min_w: isize, min_h: isize, pref_w: isize, pref_h: isize) -> WidgetDimensions {
    WidgetDimensions {
        min: Size { width: min_w, height: min_h },
        preferred: Size { width: pref_w, height: pref_h },
        max: None,
        align_size_to: Size { width: 1, height: 1 },
        horizontal_spacer_count: 0,
        vertical_spacer_count: 0,
    }
}

#[test]
fn border_wants_column_of_row() {
    let r = border_dimensions(d(0, 1, 10, 1), d(2, 1, 3, 2), d(0, 0, 4, 4), d(1, 1, 1, 1), d(0, 1, 6, 1));
    assert_eq!(r.min, Size { width: 3, height: 3 });
    assert_eq!(r.preferred, Size { width: 10, height: 6 });
    assert_eq!(r.horizontal_spacer_count, 0);
    assert_eq!(r.vertical_spacer_count, 0);
}

#[test]
fn border_center_takes_spare_width() {
    let (heights, widths) =
        border_plots(d(0, 1, 10, 1), d(2, 1, 3, 2), d(0, 0, 4, 4), d(1, 1, 1, 1), d(0, 1, 6, 1), Size { width: 20, height: 10 });
    assert_eq!(heights, vec![3, 5, 2]);
    assert_eq!(widths, vec![3, 16, 1]);
}

struct Fixed(WidgetDimensions);

impl WidgetHandle for Fixed {
    fn estimate_dimensions(&self, _ui: &UI, _width: isize) -> WidgetDimensions {
        self.0
    }

    fn clear_layout_cache_if_needed(&self, _ui: &UI) {}
}

#[test]
fn border_slots() {
    let ui = UI::new();
    let mut b: BorderState<Fixed> = BorderState::new();
    b.set(BorderSlot::North, Fixed(d(0, 1, 10, 1)));
    b.set_west(Fixed(d(2, 1, 3, 2)));
    b.set_center(Fixed(d(0, 0, 4, 4)));
    b.set_east(Fixed(d(1, 1, 1, 1)));
    b.set_south(Fixed(d(0, 1, 6, 1)));
    let r = b.estimate_dimensions(&ui, 30);
    assert_eq!(r.preferred, Size { width: 10, height: 6 });
    b.set_north(Fixed(d(0, 1, 12, 3)));
    assert_eq!(b.estimate_dimensions(&ui, 30).preferred, Size { width: 12, height: 8 });
    assert!(b.south.is_some());
}

#[test]
fn board_wants_room_for_every_child() {
    let r = board_dimensions(&vec![(Point { x: 2, y: 3 }, d(1, 1, 4, 2)), (Point { x: -1, y: 0 }, d(5, 2, 5, 2))]);
    assert_eq!(r.min, Size { width: 5, height: 2 });
    assert_eq!(r.preferred, Size { width: 6, height: 5 });
    let empty = board_dimensions(&Vec::new());
    assert_eq!(empty, WidgetDimensions::zero());
}

#[test]
fn board_placement_pushes_children_back() {
    let r = placement(Point { x: 8, y: 1 }, Size { width: 4, height: 2 }, Size { width: 10, height: 5 });
    assert_eq!(r, Rect { origin: Point { x: 6, y: 1 }, size: Size { width: 4, height: 2 } });
    let r = placement(Point { x: 3, y: 3 }, Size { width: 12, height: 1 }, Size { width: 10, height: 2 });
    assert_eq!(r, Rect { origin: Point { x: 0, y: 1 }, size: Size { width: 10, height: 1 } });
}

#[test]
fn board_state_asks_children() {
    let ui = UI::new();
    let mut bb: BulletinBoardState<Fixed> = BulletinBoardState::new();
    bb.add(Point { x: 2, y: 3 }, Fixed(d(1, 1, 4, 2)));
    bb.add(Point { x: -1, y: 0 }, Fixed(d(5, 2, 5, 2)));
    let r = bb.estimate_dimensions(&ui, 20);
    assert_eq!(r.preferred, Size { width: 6, height: 5 });
}

#[test]
fn new_containers_have_no_overrides() {
    let b: BorderState<Fixed> = Widgetlike::create();
    assert_eq!(b.layout_hacks, LayoutHacks::new());
    assert!(b.north.is_none() && b.center.is_none());
    let bb: BulletinBoardState<Fixed> = Widgetlike::create();
    assert_eq!(bb.layout_hacks, LayoutHacks::new());
    assert_eq!(bb.widgets.len(), 0);
    let ib = InputBoxState::create();
    assert_eq!(ib.layout_hacks, LayoutHacks::new());
    assert_eq!(ib.cursor(), (0, 0));
}

#[test]
fn row_clear_empties_both_caches() {
    let ui = UI::new();
    let mut row: chiroptui::RowState<Fixed> = Widgetlike::create();
    row.add(Fixed(d(1, 1, 4, 1)));
    assert_eq!(row.estimate_dimensions(&ui, 10).preferred, Size { width: 4, height: 1 });
    row.get_plots_practical(&ui, Size { width: 10, height: 1 });
    row.clear_layout_cache(&ui);
    assert_eq!(row.plots_desired.0, -1);
    assert_eq!(row.plots_desired.1 .0.len(), 0);
    assert_eq!(row.plots_practical.0, Size { width: -1, height: -1 });
    assert_eq!(row.plots_practical.1.len(), 0);
    assert_eq!(row.widgets.len(), 1);
}

#[test]
fn editing_keys_match_the_edits() {
    let mut a = typed("abcd");
    a.highlight(1, 2);
    assert!(!a.handle_key(EditKey::Delete));
    assert_eq!(text_of(&a), "ad");
    assert_eq!(a.cursor(), (1, 1));
    assert!(!a.handle_key(EditKey::Right));
    assert_eq!(a.cursor(), (2, 2));
    assert!(!a.handle_key(EditKey::Right));
    assert_eq!(a.cursor(), (2, 2));
}

#[test]
fn selection_identities_belong_to_their_ui() {
    let mut ui = UI::new();
    let mut a = WidgetCommon::new(InputBoxState::new());
    assert!(ui.knows(&a.selection));
    assert!(ui.select(&mut a.selection));
    assert!(ui.knows(&a.selection));
    let other = UI::new();
    assert!(!other.knows(&a.selection));
}

#[test]
fn input_box_estimate_ignores_width() {
    let ui = UI::new();
    let mut ib = typed("abc");
    ib.max_width = Some(10);
    let d = Widgetlike::estimate_dimensions(&mut ib, &ui, 3);
    assert_eq!(d, ib.dimensions());
    assert_eq!(d.preferred, Size { width: 10, height: 2 });
}
