use white_dragon::decimal::decimal_string;
use white_dragon::drag_session::{DragOperation, DragOutcome};
use white_dragon::drag_view::{label_text, DragView, Orientation};
use white_dragon::geometry::{Point, Rect, Size};
use white_dragon::icon::{generic_type_tag, Icon};

fn paths(names: &[&str]) -> Vec<String> {
    names.iter().map(|n| n.to_string()).collect()
}

#[test]
fn decimal_of_small_and_large_numbers() {
    assert_eq!(decimal_string(0), "0");
    assert_eq!(decimal_string(7), "7");
    assert_eq!(decimal_string(10), "10");
    assert_eq!(decimal_string(405), "405");
    assert_eq!(decimal_string(1_000_000), "1000000");
    assert_eq!(decimal_string(usize::MAX), format!("{}", usize::MAX));
}

#[test]
fn label_is_singular_for_exactly_one_file() {
    assert_eq!(label_text(1), "1 file");
}

#[test]
fn label_is_plural_for_any_other_count() {
    assert_eq!(label_text(0), "0 files");
    assert_eq!(label_text(2), "2 files");
    assert_eq!(label_text(3), "3 files");
    assert_eq!(label_text(11), "11 files");
    assert_eq!(label_text(100), "100 files");
    assert_eq!(label_text(12345), "12345 files");
}

#[test]
fn label_matches_formatting_for_many_counts() {
    for n in 2..2000usize {
        assert_eq!(label_text(n), format!("{} files", n));
    }
}

#[test]
fn generic_glyph_is_looked_up_as_public_data() {
    assert_eq!(generic_type_tag(), "public.data");
}

#[test]
fn new_view_has_fixed_frame_and_no_completed_drag() {
    let view = DragView::new(paths(&["/tmp/a.txt"]), false, false);
    assert_eq!(
        view.frame(),
        Rect { origin: Point { x: 0, y: 0 }, size: Size { width: 150, height: 40 } }
    );
    assert!(!view.drag_completed());
    assert!(!view.and_exit());
    assert_eq!(view.all_files(), &paths(&["/tmp/a.txt"]));
}

#[test]
fn layout_is_a_centered_horizontal_stack_of_icon_and_label() {
    let view = DragView::new(paths(&["/tmp/a.txt", "/tmp/b.txt"]), true, false);
    let layout = view.subviews();
    assert_eq!(layout.icon, Icon::Generic);
    assert_eq!(layout.icon_size, Size { width: 32, height: 32 });
    assert_eq!(layout.label.as_deref(), Some("2 files"));
    assert_eq!(layout.orientation, Orientation::Horizontal);
    assert_eq!(layout.spacing, 8);
    assert!(layout.centered_horizontally);
    assert!(layout.centered_vertically);
}

#[test]
fn single_file_view_shows_one_file() {
    let view = DragView::new(paths(&["/tmp/a.txt"]), false, false);
    assert_eq!(view.subviews().label.as_deref(), Some("1 file"));
}

#[test]
fn icon_only_view_has_no_label_whatever_the_count() {
    for n in 0..5usize {
        let layout = DragView::setup_subviews(n, true);
        assert!(layout.label.is_none());
        assert_eq!(layout.icon, Icon::Generic);
    }
    let names: Vec<String> = (0..7).map(|i| format!("/tmp/f{}", i)).collect();
    let view = DragView::new(names, false, true);
    assert!(view.subviews().label.is_none());
}

#[test]
fn setup_subviews_labels_by_count() {
    assert_eq!(DragView::setup_subviews(1, false).label.as_deref(), Some("1 file"));
    assert_eq!(DragView::setup_subviews(42, false).label.as_deref(), Some("42 files"));
}

#[test]
fn only_copy_is_offered() {
    let view = DragView::new(paths(&["/tmp/a.txt"]), false, false);
    assert_eq!(view.dragging_session_source_operation_mask(), DragOperation::Copy);
}

#[test]
fn press_starts_a_session_and_move_starts_none() {
    let view = DragView::new(paths(&["/tmp/a.txt", "/tmp/b.txt"]), false, false);
    let session = view.mouse_down().expect("a press starts a session");
    assert_eq!(session.len(), 2);
    assert!(view.mouse_dragged().is_none());
    let again = view.start_drag().expect("a view can be dragged from again");
    assert_eq!(again.len(), 2);
}

#[test]
fn view_without_files_starts_no_session() {
    let view = DragView::new(Vec::new(), true, false);
    assert!(view.mouse_down().is_none());
    assert!(view.start_drag().is_none());
}

#[test]
fn no_operation_never_terminates() {
    for and_exit in [false, true] {
        let mut view = DragView::new(paths(&["/tmp/a.txt"]), and_exit, false);
        assert!(!view.dragging_session_ended(DragOutcome::NoOperation));
        assert!(!view.drag_completed());
        assert!(!view.dragging_session_ended(DragOutcome::NoOperation));
        assert!(!view.drag_completed());
    }
}

#[test]
fn copy_terminates_only_with_exit_on_drop() {
    let mut stays = DragView::new(paths(&["/tmp/a.txt"]), false, false);
    assert!(!stays.dragging_session_ended(DragOutcome::Copy));
    assert!(stays.drag_completed());

    let mut exits = DragView::new(paths(&["/tmp/a.txt"]), true, false);
    assert!(exits.dragging_session_ended(DragOutcome::Copy));
    assert!(exits.drag_completed());
}

#[test]
fn termination_is_asked_for_once_only() {
    let mut view = DragView::new(paths(&["/tmp/a.txt"]), true, false);
    assert!(!view.dragging_session_ended(DragOutcome::NoOperation));
    assert!(view.dragging_session_ended(DragOutcome::Copy));
    assert!(!view.dragging_session_ended(DragOutcome::Copy));
    assert!(!view.dragging_session_ended(DragOutcome::NoOperation));
    assert!(!view.dragging_session_ended(DragOutcome::Copy));
    assert!(view.drag_completed());
}
