//! The host window: a small floating window, made at the pointer, that owns
//! the proxy view, closes on Escape, and never refuses to close.

use vstd::prelude::*;
use crate::drag_session::{session_items, DragItem, DragOutcome};
use crate::drag_view::{proxy_layout, view_frame, DragView, DragViewModel};
use crate::geometry::{Point, PointerLocation, Rect, Size};

verus! {

/// Width of the host window's content.
pub const WINDOW_WIDTH: u32 = 150;

/// Height of the host window's content.
pub const WINDOW_HEIGHT: u32 = 60;

/// The key code that the platform reports for the Escape key.
pub const ESCAPE_KEY_CODE: u16 = 53;

/// The affordances that a window is made with.
#[derive(Clone, Copy, Debug, PartialEq, Eq, Structural)]
pub struct StyleMask {
    pub titled: bool,
    pub closable: bool,
    pub miniaturizable: bool,
    pub resizable: bool,
}

/// How the platform buffers what a window draws.
#[derive(Clone, Copy, Debug, PartialEq, Eq, Structural)]
pub enum BackingStoreType {
    Retained,
    Nonretained,
    Buffered,
}

/// Where a window stands in the front-to-back order of the screen.
#[derive(Clone, Copy, Debug, PartialEq, Eq, Structural)]
pub enum WindowLevel {
    Normal,
    /// Above all normal windows.
    Floating,
}

/// What fills a window behind its content.
#[derive(Clone, Copy, Debug, PartialEq, Eq, Structural)]
pub enum BackgroundColor {
    /// The platform's standard window background.
    WindowBackground,
}

/// The stages of a window's life. A window only ever moves forward through
/// them.
#[derive(Clone, Copy, Debug, PartialEq, Eq, Structural)]
pub enum WindowLifecycleState {
    /// Made, not yet shown.
    Created,
    /// On screen, key and in front, with the application active.
    Visible,
    /// Asked to close.
    Closing,
    /// Closed for good.
    Destroyed,
}

impl WindowLifecycleState {
    /// The place of the stage in a window's life.
    pub open spec fn rank(self) -> nat {
        match self {
            WindowLifecycleState::Created => 0,
            WindowLifecycleState::Visible => 1,
            WindowLifecycleState::Closing => 2,
            WindowLifecycleState::Destroyed => 3,
        }
    }

    /// The stage after a request to close: a window that is not yet closed
    /// is closing, and one that is destroyed stays so.
    pub open spec fn close_requested(self) -> WindowLifecycleState {
        match self {
            WindowLifecycleState::Destroyed => WindowLifecycleState::Destroyed,
            _ => WindowLifecycleState::Closing,
        }
    }
}

/// The state that a window delegate keeps: none.
pub struct WindowDelegateIvars {}

/// The object that answers the window's questions about closing.
pub struct WindowDelegate {
    ivars: WindowDelegateIvars,
}

impl WindowDelegate {
    pub fn new() -> (delegate: WindowDelegate) {
        WindowDelegate { ivars: WindowDelegateIvars {  } }
    }

    /// A request to close is always granted: there is nothing unsaved to
    /// ask about.
    pub fn window_should_close(&self) -> (granted: bool)
        ensures
            granted,
    {
        true
    }
}

/// The state that the window keeps beside what the platform holds: none.
pub struct KeyHandlingWindowIvars {}

/// The host window. Every property is `None` until it has been set; the
/// window owns its delegate and its content view for as long as it lives.
pub struct KeyHandlingWindow {
    ivars: KeyHandlingWindowIvars,
    frame: Rect,
    style_mask: StyleMask,
    backing: BackingStoreType,
    defer: bool,
    title: Option<String>,
    level: Option<WindowLevel>,
    released_when_closed: Option<bool>,
    delegate: Option<WindowDelegate>,
    content_view: Option<DragView>,
    background_color: Option<BackgroundColor>,
    state: WindowLifecycleState,
}

/// The mathematical content of a [`KeyHandlingWindow`].
pub struct KeyHandlingWindowModel {
    pub frame: Rect,
    pub style_mask: StyleMask,
    pub backing: BackingStoreType,
    pub defer: bool,
    pub title: Option<Seq<char>>,
    pub level: Option<WindowLevel>,
    pub released_when_closed: Option<bool>,
    pub has_delegate: bool,
    pub content_view: Option<DragViewModel>,
    pub background_color: Option<BackgroundColor>,
    pub state: WindowLifecycleState,
}

impl View for KeyHandlingWindow {
    type V = KeyHandlingWindowModel;

    closed spec fn view(&self) -> KeyHandlingWindowModel {
        KeyHandlingWindowModel {
            frame: self.frame,
            style_mask: self.style_mask,
            backing: self.backing,
            defer: self.defer,
            title: self.title.deep_view(),
            level: self.level,
            released_when_closed: self.released_when_closed,
            has_delegate: self.delegate is Some,
            content_view: match self.content_view {
                Some(view) => Some(view@),
                None => None,
            },
            background_color: self.background_color,
            state: self.state,
        }
    }
}

/// The title of the host window.
pub open spec fn window_title() -> Seq<char> {
    seq!['W', 'h', 'i', 't', 'e', ' ', 'D', 'r', 'a', 'g', 'o', 'n']
}

/// The frame of a host window made with the pointer at `pointer`: of the
/// fixed size, with the pointer at its center.
pub open spec fn window_frame(pointer: PointerLocation) -> Rect {
    Rect {
        origin: Point {
            x: (pointer.x - WINDOW_WIDTH / 2) as i128,
            y: (pointer.y - WINDOW_HEIGHT / 2) as i128,
        },
        size: Size { width: WINDOW_WIDTH, height: WINDOW_HEIGHT },
    }
}

/// The host window as [`create_window`] makes it.
pub open spec fn host_window(
    pointer: PointerLocation,
    files: Seq<Seq<char>>,
    and_exit: bool,
    icon_only: bool,
) -> KeyHandlingWindowModel {
    KeyHandlingWindowModel {
        frame: window_frame(pointer),
        style_mask: StyleMask {
            titled: true,
            closable: true,
            miniaturizable: true,
            resizable: false,
        },
        backing: BackingStoreType::Buffered,
        defer: false,
        title: Some(window_title()),
        level: Some(WindowLevel::Floating),
        released_when_closed: Some(false),
        has_delegate: true,
        content_view: Some(
            DragViewModel {
                files,
                and_exit,
                drag_completed: false,
                frame: view_frame(),
                layout: proxy_layout(files.len(), icon_only),
            },
        ),
        background_color: Some(BackgroundColor::WindowBackground),
        state: WindowLifecycleState::Visible,
    }
}

impl KeyHandlingWindow {
    /// Makes a window with nothing set but what it is made with.
    pub fn new(frame: Rect, style_mask: StyleMask, backing: BackingStoreType, defer: bool) -> (window:
        KeyHandlingWindow)
        ensures
            window@ == (KeyHandlingWindowModel {
                frame,
                style_mask,
                backing,
                defer,
                title: None,
                level: None,
                released_when_closed: None,
                has_delegate: false,
                content_view: None,
                background_color: None,
                state: WindowLifecycleState::Created,
            }),
    {
        KeyHandlingWindow {
            ivars: KeyHandlingWindowIvars {  },
            frame,
            style_mask,
            backing,
            defer,
            title: None,
            level: None,
            released_when_closed: None,
            delegate: None,
            content_view: None,
            background_color: None,
            state: WindowLifecycleState::Created,
        }
    }

    /// The frame that the window was made with.
    pub fn frame(&self) -> (frame: Rect)
        ensures
            frame == self@.frame,
    {
        self.frame
    }

    /// The affordances that the window was made with.
    pub fn style_mask(&self) -> (style_mask: StyleMask)
        ensures
            style_mask == self@.style_mask,
    {
        self.style_mask
    }

    /// How the window's drawing is buffered.
    pub fn backing(&self) -> (backing: BackingStoreType)
        ensures
            backing == self@.backing,
    {
        self.backing
    }

    /// Whether the platform may put off making the window's device.
    pub fn defer(&self) -> (defer: bool)
        ensures
            defer == self@.defer,
    {
        self.defer
    }

    /// The window's title, if one has been set.
    pub fn title(&self) -> (title: &Option<String>)
        ensures
            title.deep_view() == self@.title,
    {
        &self.title
    }

    /// The window's level, if one has been set.
    pub fn level(&self) -> (level: Option<WindowLevel>)
        ensures
            level == self@.level,
    {
        self.level
    }

    /// Whether the platform frees the window when it closes, if that has
    /// been set.
    pub fn released_when_closed(&self) -> (released: Option<bool>)
        ensures
            released == self@.released_when_closed,
    {
        self.released_when_closed
    }

    /// The window's delegate, if it has one.
    pub fn delegate(&self) -> (delegate: &Option<WindowDelegate>)
        ensures
            delegate is Some <==> self@.has_delegate,
    {
        &self.delegate
    }

    /// The window's content view, if it has one.
    pub fn content_view(&self) -> (view: &Option<DragView>)
        ensures
            view is Some <==> self@.content_view is Some,
            view matches Some(v) ==> self@.content_view == Some(v@),
    {
        &self.content_view
    }

    /// The window's background, if one has been set.
    pub fn background_color(&self) -> (color: Option<BackgroundColor>)
        ensures
            color == self@.background_color,
    {
        self.background_color
    }

    /// The stage of the window's life.
    pub fn state(&self) -> (state: WindowLifecycleState)
        ensures
            state == self@.state,
    {
        self.state
    }

    /// Takes a key press. Escape closes the window, whatever the window
    /// holds and whatever drag is under way; any other key is left
    /// unhandled. The result says whether the window is to be closed.
    pub fn key_down(&mut self, key_code: u16) -> (close: bool)
        ensures
            close <==> key_code == ESCAPE_KEY_CODE,
            final(self)@ == (if key_code == ESCAPE_KEY_CODE {
                KeyHandlingWindowModel { state: old(self)@.state.close_requested(), ..old(self)@ }
            } else {
                old(self)@
            }),
    {
        if key_code == ESCAPE_KEY_CODE {
            self.close();
            true
        } else {
            false
        }
    }

    /// The window takes the keyboard focus although it holds no control
    /// that edits text: without it no key press would reach it.
    pub fn can_become_key_window(&self) -> (can: bool)
        ensures
            can,
    {
        true
    }

    /// Marks the window as asked to close.
    pub fn close(&mut self)
        ensures
            final(self)@ == (KeyHandlingWindowModel {
                state: old(self)@.state.close_requested(),
                ..old(self)@
            }),
    {
        match self.state {
            WindowLifecycleState::Destroyed => {},
            _ => {
                self.state = WindowLifecycleState::Closing;
            },
        }
    }

    /// Takes the window manager's request to close. The delegate grants it;
    /// a window without a delegate closes just the same. The result says
    /// whether the window is to be closed.
    pub fn perform_close(&mut self) -> (close: bool)
        ensures
            close,
            final(self)@ == (KeyHandlingWindowModel {
                state: old(self)@.state.close_requested(),
                ..old(self)@
            }),
    {
        let granted = match &self.delegate {
            Some(delegate) => delegate.window_should_close(),
            None => true,
        };
        if granted {
            self.close();
        }
        granted
    }

    /// Records that the platform has closed the window.
    pub fn did_close(&mut self)
        ensures
            final(self)@ == (KeyHandlingWindowModel {
                state: WindowLifecycleState::Destroyed,
                ..old(self)@
            }),
    {
        self.state = WindowLifecycleState::Destroyed;
    }

    /// Hands a pointer press to the content view. A window that is not on
    /// screen, or has no content, starts nothing.
    pub fn mouse_down(&self) -> (session: Option<Vec<DragItem>>)
        ensures
            session.deep_view() == self@.session_on_press(),
    {
        match self.state {
            WindowLifecycleState::Visible => match &self.content_view {
                Some(view) => view.mouse_down(),
                None => None,
            },
            _ => None,
        }
    }

    /// Hands the outcome of a drag session to the content view. Where the
    /// view asks for the process to end, the window is marked as closing;
    /// the result says whether the view asked.
    pub fn dragging_session_ended(&mut self, outcome: DragOutcome) -> (terminate: bool)
        ensures
            terminate == old(self)@.terminates_on(outcome),
            final(self)@ == old(self)@.after(outcome),
    {
        let terminate = match &mut self.content_view {
            Some(view) => view.dragging_session_ended(outcome),
            None => false,
        };
        if terminate {
            self.close();
        }
        terminate
    }
}

impl KeyHandlingWindowModel {
    /// The session that a pointer press starts: one over all files of the
    /// content view, if the window is on screen and there is any file.
    pub open spec fn session_on_press(self) -> Option<Seq<crate::drag_session::DragItemView>> {
        if self.state == WindowLifecycleState::Visible && self.content_view is Some
            && self.content_view->0.files.len() > 0 {
            Some(session_items(self.content_view->0.files))
        } else {
            None
        }
    }

    /// Whether a session that ends with `outcome` makes the content view
    /// ask for the process to end.
    pub open spec fn terminates_on(self, outcome: DragOutcome) -> bool {
        self.content_view is Some && self.content_view->0.terminates_on(outcome)
    }

    /// The window after a session that ended with `outcome`.
    pub open spec fn after(self, outcome: DragOutcome) -> KeyHandlingWindowModel {
        match self.content_view {
            Some(view) => KeyHandlingWindowModel {
                content_view: Some(view.after(outcome)),
                state: if view.terminates_on(outcome) {
                    self.state.close_requested()
                } else {
                    self.state
                },
                ..self
            },
            None => self,
        }
    }
}

fn to_vec(files: &[String]) -> (copy: Vec<String>)
    ensures
        copy.deep_view() == files.deep_view(),
{
    let mut copy: Vec<String> = Vec::new();
    let mut i: usize = 0;
    while i < files.len()
        invariant
            i <= files.len(),
            copy.len() == i,
            forall|j: int| 0 <= j < i ==> (#[trigger] copy[j])@ == files[j]@,
        decreases files.len() - i,
    {
        copy.push(files[i].clone());
        i += 1;
    }
    assert(copy.deep_view() =~= files.deep_view());
    copy
}

/// Makes the host window for `files` with the pointer at `pointer`: of the
/// fixed size and centered on the pointer, titled, closable and
/// miniaturizable but not resizable, floating, kept when closed, with its
/// delegate and with the proxy view as its content, shown at once.
pub fn create_window(pointer: PointerLocation, files: &[String], and_exit: bool, icon_only: bool) -> (window:
    KeyHandlingWindow)
    ensures
        window@ == host_window(pointer, files.deep_view(), and_exit, icon_only),
        window@.frame.centered_on(pointer),
        window@.frame.size == (Size { width: WINDOW_WIDTH, height: WINDOW_HEIGHT }),
{
    let window_x = (pointer.x as i128) - ((WINDOW_WIDTH / 2) as i128);
    let window_y = (pointer.y as i128) - ((WINDOW_HEIGHT / 2) as i128);
    let frame = Rect {
        origin: Point { x: window_x, y: window_y },
        size: Size { width: WINDOW_WIDTH, height: WINDOW_HEIGHT },
    };
    let style_mask = StyleMask {
        titled: true,
        closable: true,
        miniaturizable: true,
        resizable: false,
    };
    let mut window = KeyHandlingWindow::new(frame, style_mask, BackingStoreType::Buffered, false);
    proof {
        reveal_strlit("White Dragon");
    }
    let title = String::from_str("White Dragon");
    assert(title@ =~= window_title());
    window.title = Some(title);
    window.level = Some(WindowLevel::Floating);
    window.released_when_closed = Some(false);
    window.delegate = Some(WindowDelegate::new());
    window.content_view = Some(DragView::new(to_vec(files), and_exit, icon_only));
    window.background_color = Some(BackgroundColor::WindowBackground);
    window.state = WindowLifecycleState::Visible;
    window
}

} // verus!
