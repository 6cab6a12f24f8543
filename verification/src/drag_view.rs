//! The proxy view: the surface that shows an icon and a file count, turns a
//! pointer press into a drag session, and decides from the session's outcome
//! whether the process is to end.

use vstd::prelude::*;
use crate::decimal::{decimal, decimal_string};
use crate::drag_session::{begin_session, session_items, DragItem, DragOperation, DragOutcome};
use crate::geometry::{Point, Rect, Size};
use crate::icon::Icon;

verus! {

/// Width of the proxy view.
pub const VIEW_WIDTH: u32 = 150;

/// Height of the proxy view.
pub const VIEW_HEIGHT: u32 = 40;

/// Edge length of the square in which the view's icon is drawn.
pub const VIEW_ICON_EDGE: u32 = 32;

/// Gap between the icon and the label.
pub const STACK_SPACING: u32 = 8;

/// The direction in which a stack arranges its parts.
#[derive(Clone, Copy, Debug, PartialEq, Eq, Structural)]
pub enum Orientation {
    Horizontal,
    Vertical,
}

/// What the proxy view shows: an icon and, unless suppressed, a label, in
/// one stack that is pinned to the center of the view on both axes, so that
/// it stays centered however the view is resized.
pub struct ProxyLayout {
    pub icon: Icon,
    pub icon_size: Size,
    /// The label's text; `None` when no label is shown.
    pub label: Option<String>,
    pub orientation: Orientation,
    pub spacing: u32,
    /// The stack's horizontal center is tied to the view's.
    pub centered_horizontally: bool,
    /// The stack's vertical center is tied to the view's.
    pub centered_vertically: bool,
}

/// The mathematical content of a [`ProxyLayout`].
pub struct ProxyLayoutView {
    pub icon: Icon,
    pub icon_size: Size,
    pub label: Option<Seq<char>>,
    pub orientation: Orientation,
    pub spacing: u32,
    pub centered_horizontally: bool,
    pub centered_vertically: bool,
}

impl DeepView for ProxyLayout {
    type V = ProxyLayoutView;

    open spec fn deep_view(&self) -> ProxyLayoutView {
        ProxyLayoutView {
            icon: self.icon,
            icon_size: self.icon_size,
            label: self.label.deep_view(),
            orientation: self.orientation,
            spacing: self.spacing,
            centered_horizontally: self.centered_horizontally,
            centered_vertically: self.centered_vertically,
        }
    }
}

/// The label for `file_count` files: "1 file" for exactly one, and the
/// count in decimal followed by " files" for any other number.
pub open spec fn label_of(file_count: nat) -> Seq<char> {
    if file_count == 1 {
        seq!['1', ' ', 'f', 'i', 'l', 'e']
    } else {
        decimal(file_count) + seq![' ', 'f', 'i', 'l', 'e', 's']
    }
}

/// The layout of a proxy view over `file_count` files.
pub open spec fn proxy_layout(file_count: nat, icon_only: bool) -> ProxyLayoutView {
    ProxyLayoutView {
        icon: Icon::Generic,
        icon_size: Size { width: VIEW_ICON_EDGE, height: VIEW_ICON_EDGE },
        label: if icon_only {
            None
        } else {
            Some(label_of(file_count))
        },
        orientation: Orientation::Horizontal,
        spacing: STACK_SPACING,
        centered_horizontally: true,
        centered_vertically: true,
    }
}

/// The frame that a proxy view is made with.
pub open spec fn view_frame() -> Rect {
    Rect { origin: Point { x: 0, y: 0 }, size: Size { width: VIEW_WIDTH, height: VIEW_HEIGHT } }
}

/// Writes the label for `file_count` files.
pub fn label_text(file_count: usize) -> (text: String)
    ensures
        text@ == label_of(file_count as nat),
{
    proof {
        reveal_strlit("1 file");
        reveal_strlit(" files");
    }
    if file_count == 1 {
        let text = String::from_str("1 file");
        assert(text@ =~= label_of(1));
        text
    } else {
        let mut text = decimal_string(file_count);
        text.append(" files");
        assert(text@ =~= label_of(file_count as nat));
        text
    }
}

/// The state that a proxy view keeps.
pub struct DragViewIvars {
    all_files: Vec<String>,
    and_exit: bool,
    drag_completed: bool,
}

/// The proxy view.
pub struct DragView {
    ivars: DragViewIvars,
    frame: Rect,
    subviews: ProxyLayout,
}

/// The mathematical content of a [`DragView`].
pub struct DragViewModel {
    /// The files that the view stands for, in order.
    pub files: Seq<Seq<char>>,
    /// Whether the first completed drag ends the process.
    pub and_exit: bool,
    /// Whether a drag has ever completed.
    pub drag_completed: bool,
    pub frame: Rect,
    pub layout: ProxyLayoutView,
}

impl DragViewModel {
    /// Whether a session that ends with `outcome` makes the view ask for the
    /// process to end: a drop that was taken, with exit-on-drop set, and
    /// only the first time.
    pub open spec fn terminates_on(self, outcome: DragOutcome) -> bool {
        outcome != DragOutcome::NoOperation && self.and_exit && !self.drag_completed
    }

    /// The view after a session that ended with `outcome`.
    pub open spec fn after(self, outcome: DragOutcome) -> DragViewModel {
        if outcome == DragOutcome::NoOperation {
            self
        } else {
            DragViewModel { drag_completed: true, ..self }
        }
    }

    /// The view after the sessions that ended with `outcomes`, in turn.
    pub open spec fn after_all(self, outcomes: Seq<DragOutcome>) -> DragViewModel
        decreases outcomes.len(),
    {
        if outcomes.len() == 0 {
            self
        } else {
            self.after_all(outcomes.drop_last()).after(outcomes.last())
        }
    }

    /// How often the view asks for the process to end over the sessions
    /// that ended with `outcomes`, in turn.
    pub open spec fn terminations(self, outcomes: Seq<DragOutcome>) -> nat
        decreases outcomes.len(),
    {
        if outcomes.len() == 0 {
            0
        } else {
            let before = self.terminations(outcomes.drop_last());
            if self.after_all(outcomes.drop_last()).terminates_on(outcomes.last()) {
                before + 1
            } else {
                before
            }
        }
    }
}

impl View for DragView {
    type V = DragViewModel;

    closed spec fn view(&self) -> DragViewModel {
        DragViewModel {
            files: self.ivars.all_files.deep_view(),
            and_exit: self.ivars.and_exit,
            drag_completed: self.ivars.drag_completed,
            frame: self.frame,
            layout: self.subviews.deep_view(),
        }
    }
}

impl DragView {
    /// Makes the proxy view for `all_files`: no drag has completed, and the
    /// subviews are laid out for the number of files.
    pub fn new(all_files: Vec<String>, and_exit: bool, icon_only: bool) -> (view: DragView)
        ensures
            view@ == (DragViewModel {
                files: all_files.deep_view(),
                and_exit,
                drag_completed: false,
                frame: view_frame(),
                layout: proxy_layout(all_files.len() as nat, icon_only),
            }),
    {
        let frame = Rect {
            origin: Point { x: 0, y: 0 },
            size: Size { width: VIEW_WIDTH, height: VIEW_HEIGHT },
        };
        let subviews = Self::setup_subviews(all_files.len(), icon_only);
        DragView {
            ivars: DragViewIvars { all_files, and_exit, drag_completed: false },
            frame,
            subviews,
        }
    }

    /// Lays out the icon and the label for `file_count` files.
    pub fn setup_subviews(file_count: usize, icon_only: bool) -> (layout: ProxyLayout)
        ensures
            layout.deep_view() == proxy_layout(file_count as nat, icon_only),
    {
        let label = if icon_only {
            None
        } else {
            Some(label_text(file_count))
        };
        ProxyLayout {
            icon: Icon::Generic,
            icon_size: Size { width: VIEW_ICON_EDGE, height: VIEW_ICON_EDGE },
            label,
            orientation: Orientation::Horizontal,
            spacing: STACK_SPACING,
            centered_horizontally: true,
            centered_vertically: true,
        }
    }

    /// The files that the view stands for.
    pub fn all_files(&self) -> (files: &Vec<String>)
        ensures
            files.deep_view() == self@.files,
    {
        &self.ivars.all_files
    }

    /// Whether the first drop that is taken ends the process.
    pub fn and_exit(&self) -> (and_exit: bool)
        ensures
            and_exit == self@.and_exit,
    {
        self.ivars.and_exit
    }

    /// Whether a drag has ever completed.
    pub fn drag_completed(&self) -> (completed: bool)
        ensures
            completed == self@.drag_completed,
    {
        self.ivars.drag_completed
    }

    /// The frame that the view was made with.
    pub fn frame(&self) -> (frame: Rect)
        ensures
            frame == self@.frame,
    {
        self.frame
    }

    /// What the view shows.
    pub fn subviews(&self) -> (layout: &ProxyLayout)
        ensures
            layout.deep_view() == self@.layout,
    {
        &self.subviews
    }

    /// Lays out a drag session over all files of the view.
    pub fn start_drag(&self) -> (session: Option<Vec<DragItem>>)
        ensures
            session is None <==> self@.files.len() == 0,
            session matches Some(items) ==> items.deep_view() == session_items(self@.files),
    {
        begin_session(&self.ivars.all_files)
    }

    /// A pointer press starts a drag over all files.
    pub fn mouse_down(&self) -> (session: Option<Vec<DragItem>>)
        ensures
            session is None <==> self@.files.len() == 0,
            session matches Some(items) ==> items.deep_view() == session_items(self@.files),
    {
        self.start_drag()
    }

    /// A pointer move starts nothing: once a session runs, the platform
    /// alone carries the gesture on.
    pub fn mouse_dragged(&self) -> (session: Option<Vec<DragItem>>)
        ensures
            session is None,
    {
        None
    }

    /// The operations offered to a drop target.
    pub fn dragging_session_source_operation_mask(&self) -> (operation: DragOperation)
        ensures
            operation == DragOperation::Copy,
    {
        DragOperation::Copy
    }

    /// Takes the outcome of a session. A drop that was taken marks the view
    /// as completed; the result says whether the process is to be ended now.
    pub fn dragging_session_ended(&mut self, outcome: DragOutcome) -> (terminate: bool)
        ensures
            final(self)@ == old(self)@.after(outcome),
            terminate == old(self)@.terminates_on(outcome),
            outcome == DragOutcome::NoOperation ==> !terminate && final(self)@ == old(self)@,
            outcome != DragOutcome::NoOperation && !old(self)@.drag_completed ==> (terminate
                <==> old(self)@.and_exit),
            old(self)@.drag_completed ==> !terminate,
    {
        match outcome {
            DragOutcome::NoOperation => false,
            DragOutcome::Copy => {
                let first = !self.ivars.drag_completed;
                self.ivars.drag_completed = true;
                first && self.ivars.and_exit
            },
        }
    }
}

/// Whether any of `outcomes` is a drop that was taken.
pub open spec fn any_taken(outcomes: Seq<DragOutcome>) -> bool {
    exists|i: int| 0 <= i < outcomes.len() && #[trigger] outcomes[i] != DragOutcome::NoOperation
}

/// Whatever outcomes are reported and in whatever order, the view asks for
/// the process to end at most once. A view on which no drag has completed
/// asks exactly when exit-on-drop is set and one of the drops is taken; a
/// view on which one has completed never asks again.
pub proof fn lemma_terminates_at_most_once(view: DragViewModel, outcomes: Seq<DragOutcome>)
    ensures
        view.terminations(outcomes) <= 1,
        view.terminations(outcomes) == 1 <==> view.and_exit && !view.drag_completed && any_taken(
            outcomes,
        ),
        view.after_all(outcomes) == (DragViewModel {
            drag_completed: view.drag_completed || any_taken(outcomes),
            ..view
        }),
    decreases outcomes.len(),
{
    if outcomes.len() > 0 {
        let before = outcomes.drop_last();
        lemma_terminates_at_most_once(view, before);
        if any_taken(before) {
            let i = choose|i: int|
                0 <= i < before.len() && #[trigger] before[i] != DragOutcome::NoOperation;
            assert(outcomes[i] == before[i]);
        }
        if outcomes.last() != DragOutcome::NoOperation {
            assert(outcomes[outcomes.len() - 1] != DragOutcome::NoOperation);
        }
        if any_taken(outcomes) {
            let i = choose|i: int|
                0 <= i < outcomes.len() && #[trigger] outcomes[i] != DragOutcome::NoOperation;
            if i < before.len() {
                assert(before[i] == outcomes[i]);
            }
        }
    }
}

} // verus!
