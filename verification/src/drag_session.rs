//! The drag session builder: one draggable item per file, in file order,
//! fanned out vertically, offered for copying only.

use vstd::prelude::*;
use crate::geometry::{Point, Rect, Size};
use crate::icon::Icon;

verus! {

/// Vertical distance between the frames of two consecutive items.
pub const ITEM_STRIDE: u32 = 52;

/// Edge length of the square in which an item's icon is drawn.
pub const ITEM_ICON_EDGE: u32 = 48;

/// What a drop target may do with the dragged files. Copying is all that is
/// offered: the files are never moved or linked.
#[derive(Clone, Copy, Debug, PartialEq, Eq, Structural)]
pub enum DragOperation {
    Copy,
}

/// How a drag gesture ended.
#[derive(Clone, Copy, Debug, PartialEq, Eq, Structural)]
pub enum DragOutcome {
    /// The drag ended without landing on a destination that took the files.
    NoOperation,
    /// A destination accepted the files.
    Copy,
}

impl DragOutcome {
    /// The outcome that the platform's operation mask stands for: the empty
    /// mask is "no operation", and since only copying is offered any other
    /// mask is a copy.
    pub fn from_operation_mask(mask: usize) -> (outcome: DragOutcome)
        ensures
            outcome == (if mask == 0 {
                DragOutcome::NoOperation
            } else {
                DragOutcome::Copy
            }),
    {
        if mask == 0 {
            DragOutcome::NoOperation
        } else {
            DragOutcome::Copy
        }
    }
}

/// What the platform's lookups gave for one file.
pub struct Lookup {
    /// The file's URL form, if one could be made.
    pub url: Option<String>,
    /// Whether an icon was found for the file.
    pub icon_found: bool,
}

/// One file of a drag session, placed but not yet looked up.
pub struct DragItem {
    pub path: String,
    pub frame: Rect,
}

/// The mathematical content of a [`DragItem`].
pub struct DragItemView {
    pub path: Seq<char>,
    pub frame: Rect,
}

impl DeepView for DragItem {
    type V = DragItemView;

    open spec fn deep_view(&self) -> DragItemView {
        DragItemView { path: self.path@, frame: self.frame }
    }
}

/// One draggable item as handed to the platform: a payload and an icon,
/// drawn in a frame.
pub struct PackagedItem {
    /// The file URL written into the item's payload; `None` leaves the
    /// payload empty.
    pub payload: Option<String>,
    pub icon: Icon,
    pub frame: Rect,
}

/// The frame in which the item of index `index` is drawn: a square of
/// [`ITEM_ICON_EDGE`], raised by [`ITEM_STRIDE`] for each item before it.
pub open spec fn item_frame(index: nat) -> Rect {
    Rect {
        origin: Point { x: 0, y: (ITEM_STRIDE * index) as i128 },
        size: Size { width: ITEM_ICON_EDGE, height: ITEM_ICON_EDGE },
    }
}

/// The items of a session over `paths`: one per path, in the order given.
pub open spec fn session_items(paths: Seq<Seq<char>>) -> Seq<DragItemView> {
    Seq::new(paths.len(), |i: int| DragItemView { path: paths[i], frame: item_frame(i as nat) })
}

/// Lays out the items of one drag session. No session is started over an
/// empty file list; otherwise every file gets exactly one item.
pub fn begin_session(files: &Vec<String>) -> (session: Option<Vec<DragItem>>)
    ensures
        session is None <==> files.len() == 0,
        session matches Some(items) ==> items.deep_view() == session_items(files.deep_view()),
{
    if files.len() == 0 {
        return None;
    }
    let mut items: Vec<DragItem> = Vec::new();
    let mut i: usize = 0;
    while i < files.len()
        invariant
            i <= files.len(),
            items.len() == i,
            forall|j: int|
                0 <= j < i ==> (#[trigger] items[j]).deep_view() == (DragItemView {
                    path: files[j]@,
                    frame: item_frame(j as nat),
                }),
        decreases files.len() - i,
    {
        let frame = Rect {
            origin: Point { x: 0, y: (ITEM_STRIDE as i128) * (i as i128) },
            size: Size { width: ITEM_ICON_EDGE, height: ITEM_ICON_EDGE },
        };
        items.push(DragItem { path: files[i].clone(), frame });
        i += 1;
    }
    assert(items.deep_view() =~= session_items(files.deep_view()));
    Some(items)
}

impl DragItem {
    /// Packages the item with what the lookups gave. An item is made
    /// whatever they gave: a missing icon is replaced by the generic glyph,
    /// and a missing URL leaves the payload empty.
    pub fn package(&self, lookup: Lookup) -> (item: PackagedItem)
        ensures
            item.payload.deep_view() == lookup.url.deep_view(),
            item.icon == (if lookup.icon_found {
                Icon::ForFile
            } else {
                Icon::Generic
            }),
            item.frame == self.frame,
    {
        let icon = if lookup.icon_found {
            Icon::ForFile
        } else {
            Icon::Generic
        };
        PackagedItem { payload: lookup.url, icon, frame: self.frame }
    }
}

/// A session holds exactly one item per file, in file order, and each
/// frame stands exactly one stride above the frame before it, so the
/// vertical offset strictly increases with the index.
pub proof fn lemma_items_fan_out(files: Vec<String>)
    ensures
        session_items(files.deep_view()).len() == files.len(),
        forall|i: int|
            0 <= i < files.len() ==> (#[trigger] session_items(files.deep_view())[i]).path
                == files[i]@,
        forall|i: int|
            0 <= i && i + 1 < files.len() ==> session_items(files.deep_view())[i
                + 1].frame.origin.y - (#[trigger] session_items(
                files.deep_view(),
            )[i]).frame.origin.y == ITEM_STRIDE,
        forall|i: int, j: int|
            0 <= i < j < files.len() ==> (#[trigger] session_items(
                files.deep_view(),
            )[i]).frame.origin.y < (#[trigger] session_items(files.deep_view())[j]).frame.origin.y,
{
}

} // verus!
