//! Which tab has a sidebar pane open, so that the commands that open a
//! sidebar can act as toggles.
use vstd::prelude::*;
use std::collections::HashMap;

verus! {

broadcast use vstd::std_specs::hash::group_hash_axioms;

/// Identifies a tab.
pub type TabId = usize;

/// Identifies a pane.
pub type PaneId = usize;

/// The sidebar pane open in each tab.
pub struct SidebarRegistry {
    open: HashMap<TabId, PaneId>,
}

impl View for SidebarRegistry {
    type V = Map<TabId, PaneId>;

    closed spec fn view(&self) -> Map<TabId, PaneId> {
        self.open@
    }
}

impl SidebarRegistry {
    /// No sidebar open anywhere.
    pub fn new() -> (r: SidebarRegistry)
        ensures
            r@ == Map::<TabId, PaneId>::empty(),
    {
        SidebarRegistry { open: HashMap::new() }
    }

    /// Records `pane_id` as the sidebar of `tab_id`.
    pub fn register(&mut self, tab_id: TabId, pane_id: PaneId)
        ensures
            final(self)@ == old(self)@.insert(tab_id, pane_id),
    {
        self.open.insert(tab_id, pane_id);
    }

    /// Removes and returns the sidebar registered for `tab_id`, if any.
    pub fn take(&mut self, tab_id: TabId) -> (r: Option<PaneId>)
        ensures
            final(self)@ == old(self)@.remove(tab_id),
            r == (if old(self)@.contains_key(tab_id) { Some(old(self)@[tab_id]) } else { None }),
    {
        self.open.remove(&tab_id)
    }

    /// The sidebar registered for `tab_id`, if any.
    pub fn get(&self, tab_id: TabId) -> (r: Option<PaneId>)
        ensures
            r == (if self@.contains_key(tab_id) { Some(self@[tab_id]) } else { None }),
    {
        match self.open.get(&tab_id) {
            Some(p) => Some(*p),
            None => None,
        }
    }

    /// Removes the registration of `tab_id` only if it still refers to
    /// `pane_id`.
    pub fn unregister(&mut self, tab_id: TabId, pane_id: PaneId)
        ensures
            final(self)@ == (if old(self)@.contains_key(tab_id) && old(self)@[tab_id] == pane_id {
                old(self)@.remove(tab_id)
            } else {
                old(self)@
            }),
    {
        if self.get(tab_id) == Some(pane_id) {
            self.open.remove(&tab_id);
        }
    }
}

/// Taking a tab's sidebar right after registering it gives back that
/// pane and leaves the other tabs' registrations as they were.
pub proof fn law_take_after_register(reg: Map<TabId, PaneId>, tab_id: TabId, pane_id: PaneId)
    ensures
        reg.insert(tab_id, pane_id).contains_key(tab_id),
        reg.insert(tab_id, pane_id)[tab_id] == pane_id,
        reg.insert(tab_id, pane_id).remove(tab_id) == reg.remove(tab_id),
{
    assert(reg.insert(tab_id, pane_id).remove(tab_id) =~= reg.remove(tab_id));
}

/// Unregistering a tab's own sidebar pane removes the registration; a
/// stale pane leaves a newer registration alone.
pub proof fn law_unregister_only_own_pane(reg: Map<TabId, PaneId>, tab_id: TabId, pane_id: PaneId, other: PaneId)
    requires
        other != pane_id,
    ensures
        !reg.insert(tab_id, pane_id).remove(tab_id).contains_key(tab_id),
        reg.insert(tab_id, pane_id).contains_key(tab_id) && reg.insert(tab_id, pane_id)[tab_id] != other,
{
}

} // verus!
