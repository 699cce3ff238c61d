//! Reference counting of the two ends of a channel.
use vstd::prelude::*;

verus! {

/// What releasing one end of a channel calls for.
pub struct Release {
    /// The last handle of this side is gone: the other side must be told.
    pub disconnect: bool,
    /// The other side was already gone: the channel's storage is freed.
    pub destroy: bool,
}

/// Live handles on each side, and whether one side has already finished
/// releasing (so that the second side to finish frees the storage).
pub struct Counter {
    senders: usize,
    receivers: usize,
    destroy: bool,
}

impl Counter {
    pub closed spec fn senders(&self) -> nat {
        self.senders as nat
    }

    pub closed spec fn receivers(&self) -> nat {
        self.receivers as nat
    }

    /// Whether one side has already reached zero handles.
    pub closed spec fn half_released(&self) -> bool {
        self.destroy
    }

    /// `destroy` is set exactly when one side has no handle left.
    pub closed spec fn wf(&self) -> bool {
        self.destroy <==> (self.senders == 0 || self.receivers == 0)
    }

    /// One side counts as released exactly when it has no handle left.
    pub proof fn lemma_half_released(&self)
        requires
            self.wf(),
        ensures
            self.half_released() <==> (self.senders() == 0 || self.receivers() == 0),
    {
    }

    /// One handle on each side.
    pub fn new() -> (c: Self)
        ensures
            c.wf(),
            c.senders() == 1,
            c.receivers() == 1,
            !c.half_released(),
    {
        Counter { senders: 1, receivers: 1, destroy: false }
    }

    /// Whether no receiver is left (seen from a sender).
    pub fn sender_disconnected(&self) -> (b: bool)
        ensures
            b <==> self.receivers() == 0,
    {
        self.receivers == 0
    }

    /// Whether no sender is left (seen from a receiver).
    pub fn receiver_disconnected(&self) -> (b: bool)
        ensures
            b <==> self.senders() == 0,
    {
        self.senders == 0
    }

    /// Drops one sender handle.
    pub fn release_sender(&mut self) -> (r: Release)
        requires
            old(self).wf(),
            old(self).senders() > 0,
        ensures
            final(self).wf(),
            final(self).senders() == old(self).senders() - 1,
            final(self).receivers() == old(self).receivers(),
            r.disconnect <==> final(self).senders() == 0,
            r.destroy <==> (final(self).senders() == 0 && old(self).half_released()),
    {
        self.senders = self.senders - 1;
        if self.senders == 0 {
            let was = self.destroy;
            self.destroy = true;
            Release { disconnect: true, destroy: was }
        } else {
            Release { disconnect: false, destroy: false }
        }
    }

    /// Drops one receiver handle.
    pub fn release_receiver(&mut self) -> (r: Release)
        requires
            old(self).wf(),
            old(self).receivers() > 0,
        ensures
            final(self).wf(),
            final(self).receivers() == old(self).receivers() - 1,
            final(self).senders() == old(self).senders(),
            r.disconnect <==> final(self).receivers() == 0,
            r.destroy <==> (final(self).receivers() == 0 && old(self).half_released()),
    {
        self.receivers = self.receivers - 1;
        if self.receivers == 0 {
            let was = self.destroy;
            self.destroy = true;
            Release { disconnect: true, destroy: was }
        } else {
            Release { disconnect: false, destroy: false }
        }
    }
}

} // verus!
