use vstd::prelude::*;

use std::collections::HashMap;

verus! {

broadcast use vstd::std_specs::hash::group_hash_axioms;

/// What a close request leads to.
pub enum CloseOutcome<W, R> {
    /// The primary window was closed: the application exits.
    Exit,
    /// The window and its renderer were taken out of the registry.
    Removed { window: W, renderer: R },
    /// No window has this id.
    Unknown,
}

/// The open windows, each with its renderer, keyed by window id; one of them is the primary.
pub struct WindowRegistry<W, R> {
    windows: HashMap<u64, W>,
    renderers: HashMap<u64, R>,
    primary_window_id: u64,
}

impl<W, R> WindowRegistry<W, R> {
    pub closed spec fn windows(self) -> Map<u64, W> {
        self.windows@
    }

    pub closed spec fn renderers(self) -> Map<u64, R> {
        self.renderers@
    }

    pub closed spec fn primary(self) -> u64 {
        self.primary_window_id
    }

    /// Every window has a renderer and the other way round, and the primary is open.
    pub open spec fn wf(self) -> bool {
        &&& self.windows().dom() == self.renderers().dom()
        &&& self.windows().contains_key(self.primary())
    }

    /// A registry holding the primary window and its renderer.
    pub fn new(primary_window_id: u64, window: W, renderer: R) -> (r: Self)
        ensures
            r.wf(),
            r.primary() == primary_window_id,
            r.windows() == Map::<u64, W>::empty().insert(primary_window_id, window),
            r.renderers() == Map::<u64, R>::empty().insert(primary_window_id, renderer),
    {
        let mut windows: HashMap<u64, W> = HashMap::new();
        let mut renderers: HashMap<u64, R> = HashMap::new();
        windows.insert(primary_window_id, window);
        renderers.insert(primary_window_id, renderer);
        WindowRegistry { windows, renderers, primary_window_id }
    }

    /// Adds a window and its renderer under `id`, replacing an entry of that id.
    pub fn insert(&mut self, id: u64, window: W, renderer: R)
        requires
            old(self).wf(),
        ensures
            final(self).wf(),
            final(self).primary() == old(self).primary(),
            final(self).windows() == old(self).windows().insert(id, window),
            final(self).renderers() == old(self).renderers().insert(id, renderer),
    {
        self.windows.insert(id, window);
        self.renderers.insert(id, renderer);
    }

    /// Routes a close request: the primary window ends the application and
    /// stays registered; any other window leaves with its renderer, and only it.
    pub fn close_requested(&mut self, id: u64) -> (r: CloseOutcome<W, R>)
        requires
            old(self).wf(),
        ensures
            final(self).wf(),
            final(self).primary() == old(self).primary(),
            id == old(self).primary() ==> r is Exit && final(self).windows() == old(self).windows()
                && final(self).renderers() == old(self).renderers(),
            id != old(self).primary() ==> {
                &&& final(self).windows() == old(self).windows().remove(id)
                &&& final(self).renderers() == old(self).renderers().remove(id)
            },
            id != old(self).primary() && old(self).windows().contains_key(id) ==> r
                == (CloseOutcome::Removed::<W, R> {
                window: old(self).windows()[id],
                renderer: old(self).renderers()[id],
            }),
            id != old(self).primary() && !old(self).windows().contains_key(id) ==> r is Unknown,
    {
        if id == self.primary_window_id {
            return CloseOutcome::Exit;
        }
        let window = self.windows.remove(&id);
        let renderer = self.renderers.remove(&id);
        proof {
            assert(self.windows@.dom() =~= self.renderers@.dom());
        }
        match (window, renderer) {
            (Some(window), Some(renderer)) => CloseOutcome::Removed { window, renderer },
            _ => CloseOutcome::Unknown,
        }
    }

    pub fn primary_window_id(&self) -> (r: u64)
        ensures
            r == self.primary(),
    {
        self.primary_window_id
    }

    /// Whether a window of this id is open.
    pub fn contains(&self, id: u64) -> (r: bool)
        ensures
            r == self.windows().contains_key(id),
    {
        self.windows.contains_key(&id)
    }

    /// The number of open windows.
    pub fn len(&self) -> (r: usize)
        ensures
            r == self.windows().len(),
    {
        self.windows.len()
    }

    pub fn window(&self, id: u64) -> (r: Option<&W>)
        ensures
            self.windows().contains_key(id) ==> r == Some(&self.windows()[id]),
            !self.windows().contains_key(id) ==> r is None,
    {
        self.windows.get(&id)
    }

    pub fn renderer(&self, id: u64) -> (r: Option<&R>)
        ensures
            self.renderers().contains_key(id) ==> r == Some(&self.renderers()[id]),
            !self.renderers().contains_key(id) ==> r is None,
    {
        self.renderers.get(&id)
    }
}

} // verus!
