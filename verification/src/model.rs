//! The two query results the navigation logic reads: the focused space's
//! boundary window ids, and the windows of the focused space.  Both are
//! fetched fresh for each decision and never cached.

use vstd::prelude::*;

verus! {

use vstd::string::StringExecFns;

/// Boundary window ids of a space.  Equal ids mean the space holds at
/// most one real window.
#[derive(Clone, Copy, PartialEq, Eq, Structural, Debug)]
pub struct SpaceInfo {
    pub first_window: u64,
    pub last_window: u64,
}

/// One window of the focused space, reduced to the fields the navigation
/// logic reads.
#[derive(Clone, PartialEq, Debug)]
pub struct WindowInfo {
    pub id: u64,
    pub has_focus: bool,
    pub is_visible: bool,
    /// Free-text role tag; one particular value marks synthetic helper
    /// windows that are never navigation candidates.
    pub subrole: String,
}

impl WindowInfo {
    /// A copy that the verifier knows is equal to the original.
    pub fn dup(&self) -> (r: WindowInfo)
        ensures
            r == *self,
    {
        WindowInfo {
            id: self.id,
            has_focus: self.has_focus,
            is_visible: self.is_visible,
            subrole: self.subrole.clone(),
        }
    }
}

/// A window one may navigate to: visible, not the window that already has
/// focus, and not a synthetic helper window.
pub open spec fn spec_candidate(w: WindowInfo) -> bool {
    &&& w.subrole@ != "AXUnknown.Hammerspoon"@
    &&& w.is_visible
    &&& !w.has_focus
}

fn is_candidate(w: &WindowInfo) -> (b: bool)
    ensures
        b == spec_candidate(*w),
{
    let helper = String::from_str("AXUnknown.Hammerspoon");
    !(w.subrole == helper) && w.is_visible && !w.has_focus
}

/// The windows of a space that navigation may choose, in query order.
pub open spec fn candidate_filter(ws: Seq<WindowInfo>) -> Seq<WindowInfo> {
    ws.filter(|w: WindowInfo| spec_candidate(w))
}

/// Keeps the windows one may navigate to, in their query order.
pub fn candidates(ws: &Vec<WindowInfo>) -> (r: Vec<WindowInfo>)
    ensures
        r@ == candidate_filter(ws@),
{
    let mut out: Vec<WindowInfo> = Vec::new();
    let mut i: usize = 0;
    while i < ws.len()
        invariant
            i <= ws@.len(),
            out@ == candidate_filter(ws@.take(i as int)),
        decreases ws@.len() - i,
    {
        if is_candidate(&ws[i]) {
            out.push(ws[i].dup());
        }
        proof {
            reveal_with_fuel(Seq::filter, 2);
            assert(ws@.take(i + 1).drop_last() =~= ws@.take(i as int));
            assert(ws@.take(i + 1).last() == ws@[i as int]);
            assert(out@ =~= candidate_filter(ws@.take(i + 1)));
        }
        i += 1;
    }
    proof {
        assert(ws@.take(ws@.len() as int) =~= ws@);
    }
    out
}

} // verus!
