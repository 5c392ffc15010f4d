//! Bind groups built once and kept until the buffer they reference changes.
use vstd::prelude::*;

verus! {

/// Tracks a persistent bind group that references one uniform buffer: it is
/// rebuilt when it does not exist yet or the buffer was reallocated.
#[derive(Debug, Clone, Copy, PartialEq, Eq, Structural)]
pub struct StaticBindingTracker {
    pub built: bool,
    pub last_buffer_id: u64,
}

impl StaticBindingTracker {
    /// Nothing built yet.
    pub fn new() -> (r: Self)
        ensures
            r == (StaticBindingTracker { built: false, last_buffer_id: 0 }),
    {
        StaticBindingTracker { built: false, last_buffer_id: 0 }
    }

    /// Whether the bind group must be (re)built for buffer `buffer_id`.
    pub fn needs_rebuild(&self, buffer_id: u64) -> (r: bool)
        ensures
            r == (!self.built || self.last_buffer_id != buffer_id),
    {
        !self.built || self.last_buffer_id != buffer_id
    }

    /// Records that the bind group was built for buffer `buffer_id`.
    pub fn record(&mut self, buffer_id: u64)
        ensures
            *final(self) == (StaticBindingTracker { built: true, last_buffer_id: buffer_id }),
    {
        self.built = true;
        self.last_buffer_id = buffer_id;
    }

    /// Rebuilds (records) the bind group for `buffer_id` when it is missing
    /// or stale; says whether it did.
    pub fn refresh(&mut self, buffer_id: Option<u64>) -> (r: bool)
        ensures
            r == (match buffer_id {
                Some(id) => !old(self).built || old(self).last_buffer_id != id,
                None => false,
            }),
            *final(self) == (match buffer_id {
                Some(id) => spec_refreshed(*old(self), id),
                None => *old(self),
            }),
    {
        match buffer_id {
            Some(id) => {
                if self.needs_rebuild(id) {
                    self.record(id);
                    true
                } else {
                    false
                }
            },
            None => false,
        }
    }
}

/// The tracker after a refresh for buffer `id`.
pub open spec fn spec_refreshed(t: StaticBindingTracker, id: u64) -> StaticBindingTracker {
    if !t.built || t.last_buffer_id != id {
        StaticBindingTracker { built: true, last_buffer_id: id }
    } else {
        t
    }
}

/// Once refreshed for a buffer, the bind group is not rebuilt again until
/// the buffer changes, and a new buffer always rebuilds it.
pub proof fn lemma_refresh_is_stable(t: StaticBindingTracker, id: u64, other: u64)
    ensures
        ({
            let r = spec_refreshed(t, id);
            &&& r.built && r.last_buffer_id == id
            &&& spec_refreshed(r, id) == r
            &&& other != id ==> spec_refreshed(r, other) == (StaticBindingTracker {
                built: true,
                last_buffer_id: other,
            })
        }),
{
}

} // verus!
