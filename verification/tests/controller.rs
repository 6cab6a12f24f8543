use white_dragon::app::{run, Action, ActivationPolicy, AppDelegate, Event};
use white_dragon::args::{validate, Candidate};
use white_dragon::drag_session::DragOutcome;
use white_dragon::geometry::{Point, PointerLocation};
use white_dragon::window::WindowLifecycleState;

fn files(n: usize) -> Vec<String> {
    (0..n).map(|i| format!("/tmp/file{}", i)).collect()
}

fn launched(n: usize, and_exit: bool, icon_only: bool) -> AppDelegate {
    let mut delegate = AppDelegate::new(files(n), and_exit, icon_only);
    let shown = delegate.handle(Event::DidFinishLaunching(PointerLocation { x: 300, y: 200 }));
    assert!(matches!(shown, Action::ShowWindow));
    delegate
}

fn state(delegate: &AppDelegate) -> WindowLifecycleState {
    delegate.window().as_ref().expect("a window").state()
}

#[test]
fn run_sets_up_an_accessory_with_a_fresh_controller() {
    let application = run(files(2), true, false);
    assert_eq!(application.activation_policy, ActivationPolicy::Accessory);
    assert_eq!(application.delegate.files(), &files(2));
    assert!(application.delegate.and_exit());
    assert!(!application.delegate.icon_only());
    assert!(application.delegate.window().is_none());
    assert!(!application.delegate.is_terminated());
    assert!(application.delegate.should_terminate_after_last_window_closed());
}

#[test]
fn nothing_happens_before_the_launch_completes() {
    let mut delegate = AppDelegate::new(files(1), true, false);
    for event in [
        Event::KeyDown(53),
        Event::CloseRequested,
        Event::MouseDown,
        Event::MouseDragged,
        Event::DragEnded(DragOutcome::Copy),
        Event::LastWindowClosed,
    ] {
        assert!(matches!(delegate.handle(event), Action::Nothing));
        assert!(delegate.window().is_none());
        assert!(!delegate.is_terminated());
    }
}

#[test]
fn window_is_made_exactly_once() {
    let mut delegate = AppDelegate::new(files(1), false, false);
    assert!(delegate.did_finish_launching(PointerLocation { x: 10, y: 20 }));
    assert!(!delegate.did_finish_launching(PointerLocation { x: 900, y: 900 }));
    let again = delegate.handle(Event::DidFinishLaunching(PointerLocation { x: 5, y: 5 }));
    assert!(matches!(again, Action::Nothing));
    let frame = delegate.window().as_ref().expect("a window").frame();
    assert_eq!(frame.origin, Point { x: 10 - 75, y: 20 - 30 });
}

#[test]
fn one_file_no_flags_shows_one_file_and_stays_open_after_a_drop() {
    let mut delegate = launched(1, false, false);
    {
        let window = delegate.window().as_ref().expect("a window");
        assert_eq!(window.frame().origin, Point { x: 225, y: 170 });
        assert_eq!(window.state(), WindowLifecycleState::Visible);
        let view = window.content_view().as_ref().expect("content");
        assert_eq!(view.subviews().label.as_deref(), Some("1 file"));
    }
    match delegate.handle(Event::MouseDown) {
        Action::BeginDrag(items) => assert_eq!(items.len(), 1),
        _ => panic!("a press starts a drag"),
    }
    assert!(matches!(delegate.handle(Event::DragEnded(DragOutcome::Copy)), Action::Nothing));
    assert_eq!(state(&delegate), WindowLifecycleState::Visible);
    assert!(!delegate.is_terminated());
}

#[test]
fn three_files_and_exit_terminates_on_a_taken_drop_only() {
    let mut delegate = launched(3, true, false);
    match delegate.handle(Event::MouseDown) {
        Action::BeginDrag(items) => {
            assert_eq!(items.len(), 3);
            assert_eq!(items[0].path, "/tmp/file0");
            assert_eq!(items[1].path, "/tmp/file1");
            assert_eq!(items[2].path, "/tmp/file2");
        },
        _ => panic!("a press starts a drag"),
    }
    let missed = delegate.handle(Event::DragEnded(DragOutcome::NoOperation));
    assert!(matches!(missed, Action::Nothing));
    assert!(!delegate.is_terminated());
    assert_eq!(state(&delegate), WindowLifecycleState::Visible);

    assert!(matches!(delegate.handle(Event::MouseDown), Action::BeginDrag(_)));
    let taken = delegate.handle(Event::DragEnded(DragOutcome::Copy));
    assert!(matches!(taken, Action::Terminate));
    assert!(delegate.is_terminated());
    assert_eq!(state(&delegate), WindowLifecycleState::Closing);
}

#[test]
fn icon_only_shows_no_label() {
    for n in [1usize, 2, 5] {
        let delegate = launched(n, false, true);
        let window = delegate.window().as_ref().expect("a window");
        let view = window.content_view().as_ref().expect("content");
        assert!(view.subviews().label.is_none());
    }
}

#[test]
fn missing_path_is_dropped_and_the_window_stands_for_the_rest() {
    let validation = validate(
        &vec![
            Candidate { path: "/tmp/here".to_string(), exists: true },
            Candidate { path: "/tmp/gone".to_string(), exists: false },
        ],
        false,
        false,
    );
    assert_eq!(validation.missing, vec!["/tmp/gone".to_string()]);
    let args = validation.outcome.ok().expect("one file exists");
    let mut application = run(args.files, args.and_exit, args.icon_only);
    let shown = application
        .delegate
        .handle(Event::DidFinishLaunching(PointerLocation { x: 0, y: 0 }));
    assert!(matches!(shown, Action::ShowWindow));
    let window = application.delegate.window().as_ref().expect("a window");
    let view = window.content_view().as_ref().expect("content");
    assert_eq!(view.all_files(), &vec!["/tmp/here".to_string()]);
    assert_eq!(view.subviews().label.as_deref(), Some("1 file"));
}

#[test]
fn escape_closes_and_the_closed_window_ends_the_process() {
    for and_exit in [false, true] {
        let mut delegate = launched(2, and_exit, false);
        assert!(matches!(delegate.handle(Event::KeyDown(12)), Action::Nothing));
        assert!(matches!(delegate.handle(Event::KeyDown(53)), Action::CloseWindow));
        assert_eq!(state(&delegate), WindowLifecycleState::Closing);
        assert!(matches!(delegate.handle(Event::LastWindowClosed), Action::Terminate));
        assert_eq!(state(&delegate), WindowLifecycleState::Destroyed);
        assert!(delegate.is_terminated());
    }
}

#[test]
fn close_box_closes_the_window() {
    let mut delegate = launched(1, false, false);
    assert!(matches!(delegate.handle(Event::CloseRequested), Action::CloseWindow));
    assert_eq!(state(&delegate), WindowLifecycleState::Closing);
    assert!(matches!(delegate.handle(Event::LastWindowClosed), Action::Terminate));
}

#[test]
fn process_is_asked_to_end_once_whatever_follows() {
    let mut delegate = launched(2, true, false);
    assert!(matches!(delegate.handle(Event::DragEnded(DragOutcome::Copy)), Action::Terminate));
    for event in [
        Event::DragEnded(DragOutcome::Copy),
        Event::LastWindowClosed,
        Event::KeyDown(53),
        Event::CloseRequested,
        Event::MouseDown,
        Event::DragEnded(DragOutcome::NoOperation),
        Event::DidFinishLaunching(PointerLocation { x: 1, y: 1 }),
    ] {
        assert!(matches!(delegate.handle(event), Action::Nothing));
        assert!(delegate.is_terminated());
    }
}

#[test]
fn escape_during_a_drag_then_a_taken_drop_terminates_once() {
    let mut delegate = launched(1, true, false);
    assert!(matches!(delegate.handle(Event::MouseDown), Action::BeginDrag(_)));
    assert!(matches!(delegate.handle(Event::KeyDown(53)), Action::CloseWindow));
    assert!(matches!(delegate.handle(Event::DragEnded(DragOutcome::Copy)), Action::Terminate));
    assert!(matches!(delegate.handle(Event::LastWindowClosed), Action::Nothing));
}

#[test]
fn pointer_move_does_nothing() {
    let mut delegate = launched(1, true, false);
    assert!(matches!(delegate.handle(Event::MouseDragged), Action::Nothing));
    assert_eq!(state(&delegate), WindowLifecycleState::Visible);
    assert!(!delegate.is_terminated());
}
