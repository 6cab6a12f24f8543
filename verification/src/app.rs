//! The application controller: it makes the one host window when the launch
//! completes, routes every later event to the window, and sees to it that
//! the process is asked to end at most once.

use vstd::prelude::*;
use crate::drag_session::{DragItem, DragItemView, DragOutcome};
use crate::geometry::PointerLocation;
use crate::window::{
    create_window, host_window, KeyHandlingWindow, KeyHandlingWindowModel, WindowLifecycleState,
    ESCAPE_KEY_CODE,
};

verus! {

/// How far the process shows in the platform's list of running
/// applications.
#[derive(Clone, Copy, Debug, PartialEq, Eq, Structural)]
pub enum ActivationPolicy {
    Regular,
    /// No presence in the Dock or the task bar.
    Accessory,
    Prohibited,
}

/// What the platform reports to the application.
#[derive(Clone, Copy, Debug, PartialEq, Eq, Structural)]
pub enum Event {
    /// The launch is complete; the pointer stands at the given location.
    DidFinishLaunching(PointerLocation),
    /// A key with the given code went down in the window.
    KeyDown(u16),
    /// The window manager asks whether the window may close.
    CloseRequested,
    /// The last window has closed.
    LastWindowClosed,
    /// The pointer was pressed on the proxy view.
    MouseDown,
    /// The pointer moved over the proxy view with the button held.
    MouseDragged,
    /// A drag session ended.
    DragEnded(DragOutcome),
}

/// What the application is to do in answer to an event.
pub enum Action {
    /// Nothing.
    Nothing,
    /// Put the window that was just made on screen, in front, and make the
    /// application active.
    ShowWindow,
    /// Close the window.
    CloseWindow,
    /// Start one drag session that carries these items together.
    BeginDrag(Vec<DragItem>),
    /// End the process.
    Terminate,
}

/// The mathematical content of an [`Action`].
pub enum ActionView {
    Nothing,
    ShowWindow,
    CloseWindow,
    BeginDrag(Seq<DragItemView>),
    Terminate,
}

impl DeepView for Action {
    type V = ActionView;

    open spec fn deep_view(&self) -> ActionView {
        match self {
            Action::Nothing => ActionView::Nothing,
            Action::ShowWindow => ActionView::ShowWindow,
            Action::CloseWindow => ActionView::CloseWindow,
            Action::BeginDrag(items) => ActionView::BeginDrag(items.deep_view()),
            Action::Terminate => ActionView::Terminate,
        }
    }
}

/// What the controller is made with.
pub struct AppDelegateIvars {
    files: Vec<String>,
    and_exit: bool,
    icon_only: bool,
}

/// The application controller. It owns the host window, which owns its
/// delegate and the proxy view.
pub struct AppDelegate {
    ivars: AppDelegateIvars,
    window: Option<KeyHandlingWindow>,
    terminated: bool,
}

/// The mathematical content of an [`AppDelegate`].
pub struct AppDelegateModel {
    pub files: Seq<Seq<char>>,
    pub and_exit: bool,
    pub icon_only: bool,
    /// The host window, once the launch is complete.
    pub window: Option<KeyHandlingWindowModel>,
    /// Whether the process has been asked to end.
    pub terminated: bool,
}

impl View for AppDelegate {
    type V = AppDelegateModel;

    closed spec fn view(&self) -> AppDelegateModel {
        AppDelegateModel {
            files: self.ivars.files.deep_view(),
            and_exit: self.ivars.and_exit,
            icon_only: self.ivars.icon_only,
            window: match self.window {
                Some(window) => Some(window@),
                None => None,
            },
            terminated: self.terminated,
        }
    }
}

impl AppDelegateModel {
    /// The controller after the launch completed with the pointer at
    /// `pointer`: the window is made if there is none yet, and never again.
    pub open spec fn launched(self, pointer: PointerLocation) -> AppDelegateModel {
        if self.window is None {
            AppDelegateModel {
                window: Some(host_window(pointer, self.files, self.and_exit, self.icon_only)),
                ..self
            }
        } else {
            self
        }
    }

    /// The controller after `event`, and what is to be done about it.
    ///
    /// Once the process has been asked to end, nothing is done any more.
    /// Before the window is made, only the end of the launch does anything.
    pub open spec fn step(self, event: Event) -> (AppDelegateModel, ActionView) {
        if self.terminated {
            (self, ActionView::Nothing)
        } else {
            match self.window {
                None => match event {
                    Event::DidFinishLaunching(pointer) => (
                        self.launched(pointer),
                        ActionView::ShowWindow,
                    ),
                    _ => (self, ActionView::Nothing),
                },
                Some(window) => match event {
                    Event::DidFinishLaunching(_) => (self, ActionView::Nothing),
                    Event::KeyDown(key_code) => if key_code == ESCAPE_KEY_CODE {
                        (
                            AppDelegateModel {
                                window: Some(
                                    KeyHandlingWindowModel {
                                        state: window.state.close_requested(),
                                        ..window
                                    },
                                ),
                                ..self
                            },
                            ActionView::CloseWindow,
                        )
                    } else {
                        (self, ActionView::Nothing)
                    },
                    Event::CloseRequested => (
                        AppDelegateModel {
                            window: Some(
                                KeyHandlingWindowModel {
                                    state: window.state.close_requested(),
                                    ..window
                                },
                            ),
                            ..self
                        },
                        ActionView::CloseWindow,
                    ),
                    Event::LastWindowClosed => (
                        AppDelegateModel {
                            window: Some(
                                KeyHandlingWindowModel {
                                    state: WindowLifecycleState::Destroyed,
                                    ..window
                                },
                            ),
                            terminated: true,
                            ..self
                        },
                        ActionView::Terminate,
                    ),
                    Event::MouseDown => (
                        self,
                        match window.session_on_press() {
                            Some(items) => ActionView::BeginDrag(items),
                            None => ActionView::Nothing,
                        },
                    ),
                    Event::MouseDragged => (self, ActionView::Nothing),
                    Event::DragEnded(outcome) => (
                        AppDelegateModel {
                            window: Some(window.after(outcome)),
                            terminated: window.terminates_on(outcome),
                            ..self
                        },
                        if window.terminates_on(outcome) {
                            ActionView::Terminate
                        } else {
                            ActionView::Nothing
                        },
                    ),
                },
            }
        }
    }

    /// The controller after `events`, in turn.
    pub open spec fn after_all(self, events: Seq<Event>) -> AppDelegateModel
        decreases events.len(),
    {
        if events.len() == 0 {
            self
        } else {
            self.after_all(events.drop_last()).step(events.last()).0
        }
    }

    /// The actions that `events` bring about, in turn.
    pub open spec fn actions(self, events: Seq<Event>) -> Seq<ActionView>
        decreases events.len(),
    {
        if events.len() == 0 {
            Seq::empty()
        } else {
            self.actions(events.drop_last()).push(
                self.after_all(events.drop_last()).step(events.last()).1,
            )
        }
    }
}

/// How often `action` occurs among `actions`.
pub open spec fn occurrences(actions: Seq<ActionView>, action: ActionView) -> nat
    decreases actions.len(),
{
    if actions.len() == 0 {
        0
    } else if actions.last() == action {
        occurrences(actions.drop_last(), action) + 1
    } else {
        occurrences(actions.drop_last(), action)
    }
}

impl AppDelegate {
    /// Makes the controller for `files`: no window yet, and the process not
    /// asked to end.
    pub fn new(files: Vec<String>, and_exit: bool, icon_only: bool) -> (delegate: AppDelegate)
        ensures
            delegate@ == (AppDelegateModel {
                files: files.deep_view(),
                and_exit,
                icon_only,
                window: None,
                terminated: false,
            }),
    {
        AppDelegate {
            ivars: AppDelegateIvars { files, and_exit, icon_only },
            window: None,
            terminated: false,
        }
    }

    /// The files that the controller was made with.
    pub fn files(&self) -> (files: &Vec<String>)
        ensures
            files.deep_view() == self@.files,
    {
        &self.ivars.files
    }

    /// Whether the first drop that is taken ends the process.
    pub fn and_exit(&self) -> (and_exit: bool)
        ensures
            and_exit == self@.and_exit,
    {
        self.ivars.and_exit
    }

    /// Whether the proxy view shows no label.
    pub fn icon_only(&self) -> (icon_only: bool)
        ensures
            icon_only == self@.icon_only,
    {
        self.ivars.icon_only
    }

    /// The host window, once it has been made.
    pub fn window(&self) -> (window: &Option<KeyHandlingWindow>)
        ensures
            window is Some <==> self@.window is Some,
            window matches Some(w) ==> self@.window == Some(w@),
    {
        &self.window
    }

    /// Whether the process has been asked to end.
    pub fn is_terminated(&self) -> (terminated: bool)
        ensures
            terminated == self@.terminated,
    {
        self.terminated
    }

    /// Makes the host window at the pointer, unless it has been made
    /// before. The result says whether a window was made.
    pub fn did_finish_launching(&mut self, pointer: PointerLocation) -> (made: bool)
        ensures
            made <==> old(self)@.window is None,
            final(self)@ == old(self)@.launched(pointer),
    {
        if self.window.is_none() {
            let window = create_window(
                pointer,
                self.ivars.files.as_slice(),
                self.ivars.and_exit,
                self.ivars.icon_only,
            );
            self.window = Some(window);
            true
        } else {
            false
        }
    }

    /// The process ends when its last window has closed: there is nothing
    /// for it to do without one.
    pub fn should_terminate_after_last_window_closed(&self) -> (terminate: bool)
        ensures
            terminate,
    {
        true
    }

    /// Takes one event to the window and says what is to be done.
    pub fn handle(&mut self, event: Event) -> (action: Action)
        ensures
            (final(self)@, action.deep_view()) == old(self)@.step(event),
    {
        if self.terminated {
            return Action::Nothing;
        }
        if self.window.is_none() {
            return match event {
                Event::DidFinishLaunching(pointer) => {
                    self.did_finish_launching(pointer);
                    Action::ShowWindow
                },
                _ => Action::Nothing,
            };
        }
        let policy = self.should_terminate_after_last_window_closed();
        match &mut self.window {
            None => Action::Nothing,
            Some(window) => match event {
                Event::DidFinishLaunching(_) => Action::Nothing,
                Event::KeyDown(key_code) => {
                    if window.key_down(key_code) {
                        Action::CloseWindow
                    } else {
                        Action::Nothing
                    }
                },
                Event::CloseRequested => {
                    window.perform_close();
                    Action::CloseWindow
                },
                Event::LastWindowClosed => {
                    window.did_close();
                    if policy {
                        self.terminated = true;
                        Action::Terminate
                    } else {
                        Action::Nothing
                    }
                },
                Event::MouseDown => match window.mouse_down() {
                    Some(items) => Action::BeginDrag(items),
                    None => Action::Nothing,
                },
                Event::MouseDragged => Action::Nothing,
                Event::DragEnded(outcome) => {
                    if window.dragging_session_ended(outcome) {
                        self.terminated = true;
                        Action::Terminate
                    } else {
                        Action::Nothing
                    }
                },
            },
        }
    }
}

proof fn lemma_actions_unfold(delegate: AppDelegateModel, events: Seq<Event>)
    requires
        events.len() > 0,
    ensures
        delegate.actions(events).len() > 0,
        delegate.actions(events).drop_last() == delegate.actions(events.drop_last()),
        delegate.actions(events).last() == delegate.after_all(events.drop_last()).step(
            events.last(),
        ).1,
{
    assert(delegate.actions(events).drop_last() =~= delegate.actions(events.drop_last()));
}

/// Whatever events arrive and in whatever order, the process is asked to
/// end at most once, and once it has been asked nothing is done any more.
pub proof fn lemma_terminates_at_most_once(delegate: AppDelegateModel, events: Seq<Event>)
    ensures
        occurrences(delegate.actions(events), ActionView::Terminate) <= 1,
        delegate.terminated ==> delegate.after_all(events) == delegate && occurrences(
            delegate.actions(events),
            ActionView::Terminate,
        ) == 0,
        !delegate.terminated ==> (delegate.after_all(events).terminated <==> occurrences(
            delegate.actions(events),
            ActionView::Terminate,
        ) == 1),
        forall|event: Event|
            delegate.after_all(events).terminated ==> #[trigger] delegate.after_all(events).step(
                event,
            ) == (delegate.after_all(events), ActionView::Nothing),
    decreases events.len(),
{
    if events.len() > 0 {
        lemma_terminates_at_most_once(delegate, events.drop_last());
        lemma_actions_unfold(delegate, events);
    }
}

/// Whatever events arrive and in whatever order, the host window is made at
/// most once: by the first end of a launch, and never while a window
/// exists.
pub proof fn lemma_window_made_at_most_once(delegate: AppDelegateModel, events: Seq<Event>)
    ensures
        occurrences(delegate.actions(events), ActionView::ShowWindow) <= 1,
        delegate.window is Some ==> delegate.after_all(events).window is Some && occurrences(
            delegate.actions(events),
            ActionView::ShowWindow,
        ) == 0,
        occurrences(delegate.actions(events), ActionView::ShowWindow) == 1 ==> delegate.after_all(
            events,
        ).window is Some,
    decreases events.len(),
{
    if events.len() > 0 {
        lemma_window_made_at_most_once(delegate, events.drop_last());
        lemma_actions_unfold(delegate, events);
    }
}

/// Whatever events arrive and in whatever order, a window that exists goes
/// on existing and only ever moves forward through the stages of its life:
/// once closing it is never visible again, and once destroyed it stays so.
pub proof fn lemma_window_only_moves_forward(delegate: AppDelegateModel, events: Seq<Event>)
    requires
        delegate.window is Some,
    ensures
        delegate.after_all(events).window is Some,
        delegate.window->0.state.rank() <= delegate.after_all(events).window->0.state.rank(),
    decreases events.len(),
{
    if events.len() > 0 {
        lemma_window_only_moves_forward(delegate, events.drop_last());
    }
}

/// A drag that ends without an operation changes nothing and never ends the
/// process, whether or not exit-on-drop is set.
pub proof fn lemma_no_operation_is_ignored(delegate: AppDelegateModel)
    ensures
        delegate.step(Event::DragEnded(DragOutcome::NoOperation)) == (
            delegate,
            ActionView::Nothing,
        ),
{
    if !delegate.terminated && delegate.window is Some {
        let window = delegate.window->0;
        assert(window.after(DragOutcome::NoOperation) == window);
    }
}

/// While the process runs and the window exists, Escape closes the window,
/// whatever the flags are and whatever drag has completed or not.
pub proof fn lemma_escape_closes(delegate: AppDelegateModel)
    requires
        !delegate.terminated,
        delegate.window is Some,
    ensures
        delegate.step(Event::KeyDown(ESCAPE_KEY_CODE)).1 == ActionView::CloseWindow,
        delegate.step(Event::KeyDown(ESCAPE_KEY_CODE)).0.window->0.state
            == delegate.window->0.state.close_requested(),
{
}

/// What [`run`] sets up before the platform's event loop starts.
pub struct Application {
    pub activation_policy: ActivationPolicy,
    pub delegate: AppDelegate,
}

/// Sets the application up for `files`: as an accessory, with a fresh
/// controller.
pub fn run(files: Vec<String>, and_exit: bool, icon_only: bool) -> (application: Application)
    ensures
        application.activation_policy == ActivationPolicy::Accessory,
        application.delegate@ == (AppDelegateModel {
            files: files.deep_view(),
            and_exit,
            icon_only,
            window: None,
            terminated: false,
        }),
{
    Application {
        activation_policy: ActivationPolicy::Accessory,
        delegate: AppDelegate::new(files, and_exit, icon_only),
    }
}

} // verus!
