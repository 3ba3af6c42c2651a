//! The frame's mapping from UI-side camera handles to render-side handles.
//!
//! UI-layer and render-layer entities live in distinct namespaces; a camera
//! chosen for a node must be resolved through this mapping before the node
//! can be drawn, and resolution may fail for a camera the render side has
//! not synchronized yet.

use vstd::prelude::*;

verus! {

/// First-match lookup of `key` among `entries`: the render-side handle
/// associated with a UI-side camera handle, if any.
pub open spec fn lookup_spec(entries: Seq<(u64, u64)>, key: u64) -> Option<u64>
    decreases entries.len(),
{
    if entries.len() == 0 {
        None
    } else if entries[0].0 == key {
        Some(entries[0].1)
    } else {
        lookup_spec(entries.drop_first(), key)
    }
}

/// One frame's mapping from UI-side camera handles to their render-side
/// counterparts, as the host's synchronization left it.
#[derive(Debug, PartialEq, Eq)]
pub struct CameraMap {
    /// Pairs of a UI-side camera handle and its render-side handle; on a
    /// repeated UI-side handle, the first pair wins.
    pub entries: Vec<(u64, u64)>,
}

impl CameraMap {
    /// An empty mapping: no camera resolves.
    pub fn new() -> (m: CameraMap)
        ensures
            m.entries@ == Seq::<(u64, u64)>::empty(),
    {
        CameraMap { entries: Vec::new() }
    }

    /// Records that UI-side camera `ui` maps to render-side camera `render`.
    pub fn insert(&mut self, ui: u64, render: u64)
        ensures
            final(self).entries@ == old(self).entries@.push((ui, render)),
    {
        self.entries.push((ui, render));
    }

    /// The render-side camera for `key`, if this map knows one.
    pub fn resolve(&self, key: u64) -> (r: Option<u64>)
        ensures
            r == lookup_spec(self.entries@, key),
    {
        let n = self.entries.len();
        let mut i: usize = 0;
        proof {
            assert(self.entries@.skip(0) =~= self.entries@);
        }
        while i < n
            invariant
                i <= n,
                n == self.entries@.len(),
                lookup_spec(self.entries@, key)
                    == lookup_spec(self.entries@.skip(i as int), key),
            decreases n - i,
        {
            let pair = self.entries[i];
            proof {
                assert(self.entries@.skip(i as int)[0] == self.entries@[i as int]);
            }
            if pair.0 == key {
                return Some(pair.1);
            }
            proof {
                assert(self.entries@.skip(i as int).drop_first()
                    =~= self.entries@.skip(i as int + 1));
            }
            i = i + 1;
        }
        None
    }
}

} // verus!
