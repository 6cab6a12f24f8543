//! Which image stands for a file.

use vstd::prelude::*;

verus! {

/// The image shown for a file, in the proxy view or on a dragged item.
#[derive(Clone, Copy, Debug, PartialEq, Eq, Structural)]
pub enum Icon {
    /// The icon that the platform keeps for this very file.
    ForFile,
    /// The generic document glyph: the one placeholder, used wherever no
    /// icon of the file itself is at hand.
    Generic,
}

/// The type tag under which the platform keeps the generic document glyph.
pub open spec fn generic_type_tag_spec() -> Seq<char> {
    seq!['p', 'u', 'b', 'l', 'i', 'c', '.', 'd', 'a', 't', 'a']
}

/// The type tag to look the generic document glyph up with.
pub fn generic_type_tag() -> (tag: &'static str)
    ensures
        tag@ == generic_type_tag_spec(),
{
    proof {
        reveal_strlit("public.data");
    }
    let tag = "public.data";
    assert(tag@ =~= generic_type_tag_spec());
    tag
}

} // verus!
