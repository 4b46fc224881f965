//! Window identity, creation flags, and the queue of deferred destroys.
use vstd::prelude::*;

verus! {

/// A unique identifier assigned to a window by the platform. It is never
/// reused while the window is live.
#[derive(Clone, Copy, Debug, PartialEq, Eq, Hash, Structural)]
pub struct WindowId(pub u64);

/// Creation flags of a window, as a set of bits.
#[derive(Clone, Copy, Debug, PartialEq, Eq, Hash, Structural)]
pub struct WindowFlags {
    pub bits: u32,
}

impl WindowFlags {
    /// The window can be resized by the user.
    pub fn resizable() -> (r: WindowFlags)
        ensures
            r.bits == 0x1,
    {
        WindowFlags { bits: 0x1 }
    }

    /// The window is shown when created.
    pub fn visible() -> (r: WindowFlags)
        ensures
            r.bits == 0x2,
    {
        WindowFlags { bits: 0x2 }
    }

    /// The window's background is transparent.
    pub fn transparent() -> (r: WindowFlags)
        ensures
            r.bits == 0x4,
    {
        WindowFlags { bits: 0x4 }
    }

    /// The window stays above other windows.
    pub fn always_on_top() -> (r: WindowFlags)
        ensures
            r.bits == 0x8,
    {
        WindowFlags { bits: 0x8 }
    }

    /// Every flag that is defined.
    pub open spec fn all_bits() -> u32 {
        0xf
    }

    /// No flag set.
    pub fn empty() -> (r: WindowFlags)
        ensures
            r.bits == 0,
    {
        WindowFlags { bits: 0 }
    }

    /// The flags named by `bits`, with undefined bits dropped.
    pub fn from_bits_truncate(bits: u32) -> (r: WindowFlags)
        ensures
            r.bits == bits & Self::all_bits(),
    {
        WindowFlags { bits: bits & 0xf }
    }

    pub fn bits(&self) -> (r: u32)
        ensures
            r == self.bits,
    {
        self.bits
    }

    /// Whether every flag of `other` is set in `self`.
    pub fn contains(&self, other: WindowFlags) -> (r: bool)
        ensures
            r == (self.bits & other.bits == other.bits),
    {
        self.bits & other.bits == other.bits
    }

    /// The flags set in either operand.
    pub fn union(&self, other: WindowFlags) -> (r: WindowFlags)
        ensures
            r.bits == self.bits | other.bits,
    {
        WindowFlags { bits: self.bits | other.bits }
    }
}

impl Default for WindowFlags {
    /// Resizable and visible.
    fn default() -> (r: WindowFlags)
        ensures
            r.bits == 0x3,
    {
        let r = WindowFlags::resizable().union(WindowFlags::visible());
        assert(0x1u32 | 0x2u32 == 0x3u32) by (bit_vector);
        r
    }
}

/// Ids of windows whose destruction was requested and not yet applied. A
/// window that asks twice before the queue is drained is held once, so a
/// second request before the drain is harmless.
pub struct DestroyQueue {
    ids: Vec<WindowId>,
}

/// The requests after window `id` asks to be destroyed: a second request
/// before the drain adds nothing.
pub open spec fn requested(s: Seq<WindowId>, id: WindowId) -> Seq<WindowId> {
    if s.contains(id) {
        s
    } else {
        s.push(id)
    }
}

/// Requesting the destruction of a window twice before a drain leaves the
/// same requests as asking once.
pub proof fn law_destroy_request_is_idempotent(s: Seq<WindowId>, id: WindowId)
    ensures
        requested(requested(s, id), id) == requested(s, id),
        requested(s, id).contains(id),
{
    if !s.contains(id) {
        assert(s.push(id)[s.len() as int] == id);
    }
}

/// `s` holds no value twice.
pub open spec fn no_duplicates<A>(s: Seq<A>) -> bool {
    forall|i: int, j: int| 0 <= i < j < s.len() ==> s[i] != s[j]
}

impl View for DestroyQueue {
    type V = Seq<WindowId>;

    closed spec fn view(&self) -> Seq<WindowId> {
        self.ids@
    }
}

impl DestroyQueue {
    /// No id is held twice; ids are held in the order of their first
    /// request.
    pub open spec fn wf(&self) -> bool {
        no_duplicates(self@)
    }

    pub fn new() -> (r: DestroyQueue)
        ensures
            r.wf(),
            r@ == Seq::<WindowId>::empty(),
    {
        DestroyQueue { ids: Vec::new() }
    }

    /// Requests that window `id` be destroyed at the next drain.
    pub fn push(&mut self, id: WindowId)
        requires
            old(self).wf(),
        ensures
            final(self).wf(),
            final(self)@ == requested(old(self)@, id),
    {
        if !self.contains(id) {
            proof {
                assert forall|a: int, b: int| 0 <= a < b < self@.len() + 1 implies self@.push(id)[a]
                    != self@.push(id)[b] by {
                    if b == self@.len() {
                        assert(self@[a] == self@.push(id)[a]);
                    }
                }
            }
            self.ids.push(id);
        }
    }

    /// Whether window `id` is waiting to be destroyed.
    pub fn contains(&self, id: WindowId) -> (r: bool)
        ensures
            r == self@.contains(id),
    {
        let mut i: usize = 0;
        while i < self.ids.len()
            invariant
                0 <= i <= self.ids@.len(),
                forall|j: int| 0 <= j < i ==> self.ids@[j] != id,
            decreases self.ids@.len() - i,
        {
            if self.ids[i] == id {
                return true;
            }
            i = i + 1;
        }
        false
    }

    /// Records the handler's answer to a close request of window `id`: an
    /// allowed close queues the window for destruction, a denied one changes
    /// nothing.
    pub fn close_requested(&mut self, id: WindowId, allow: bool)
        requires
            old(self).wf(),
        ensures
            final(self).wf(),
            final(self)@ == if allow {
                requested(old(self)@, id)
            } else {
                old(self)@
            },
    {
        if allow {
            self.push(id);
        }
    }

    pub fn len(&self) -> (r: usize)
        ensures
            r == self@.len(),
    {
        self.ids.len()
    }

    /// The `k`-th id held.
    pub fn get(&self, k: usize) -> (r: WindowId)
        requires
            k < self@.len(),
        ensures
            r == self@[k as int],
    {
        self.ids[k]
    }

    /// Forgets every request.
    pub fn clear(&mut self)
        ensures
            final(self).wf(),
            final(self)@ == Seq::<WindowId>::empty(),
    {
        self.ids.clear();
    }

    pub fn is_empty(&self) -> (r: bool)
        ensures
            r == (self@.len() == 0),
    {
        self.ids.len() == 0
    }
}

} // verus!
