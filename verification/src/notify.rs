use crate::errors::DriverError;
use vstd::prelude::*;

verus! {

/// Model of an edge-triggered event source with an explicit re-arm protocol.
///
/// The underlying hardware keeps a monotonically increasing event counter;
/// an edge is *pending* while the counter has not been read since it last
/// moved. A wait consumes the pending edge; after that the source reports
/// nothing until it is re-armed *and* a new edge arrives. A handle that is
/// consumed and never re-armed will never again satisfy a wait.
///
/// The blocking read and the 4-byte acknowledgement write that drive a real
/// event handle are performed by the caller that owns the handle's file;
/// that caller reports each observed edge through [`Self::record_edge`]. In
/// this synchronous model a wait that could never be satisfied returns
/// `NotificationIoFailure` instead of blocking forever.
pub struct NotificationHandle {
    counter: u32,
    last_read: u32,
    armed: bool,
}

impl NotificationHandle {
    /// The hardware event counter: how many edges the source has produced.
    pub closed spec fn counter_spec(self) -> u32 {
        self.counter
    }

    /// The counter value consumed by the most recent wait.
    pub closed spec fn last_read_spec(self) -> u32 {
        self.last_read
    }

    /// Whether the source has been re-armed since the last consumed edge.
    pub closed spec fn is_armed(self) -> bool {
        self.armed
    }

    /// An edge is pending while the counter has moved since the last wait.
    pub open spec fn is_pending(self) -> bool {
        self.counter_spec() != self.last_read_spec()
    }

    /// A wait completes exactly when the source is armed and an edge is
    /// pending.
    pub open spec fn wait_succeeds(self) -> bool {
        self.is_armed() && self.is_pending()
    }

    /// A fresh handle: armed, with no edge observed yet.
    pub fn new() -> (h: Self)
        ensures
            h.counter_spec() == 0,
            h.last_read_spec() == 0,
            h.is_armed(),
            !h.is_pending(),
    {
        NotificationHandle { counter: 0, last_read: 0, armed: true }
    }

    /// One hardware edge arrives: the event counter advances (wrapping at
    /// the 32-bit boundary, as the free-running hardware counter does).
    pub fn record_edge(&mut self)
        ensures
            final(self).counter_spec() == ((old(self).counter_spec() + 1) % 0x1_0000_0000) as u32,
            final(self).last_read_spec() == old(self).last_read_spec(),
            final(self).is_armed() == old(self).is_armed(),
    {
        self.counter = self.counter.wrapping_add(1);
    }

    /// Consumes the pending edge. Succeeds exactly when the source is armed
    /// and an edge is pending; afterwards the edge counts as read and the
    /// source is disarmed until [`Self::rearm`] runs.
    pub fn wait(&mut self) -> (r: Result<u32, DriverError>)
        ensures
            r is Ok <==> old(self).wait_succeeds(),
            r is Ok ==> r->Ok_0 == old(self).counter_spec(),
            r is Ok ==> final(self).counter_spec() == old(self).counter_spec(),
            r is Ok ==> final(self).last_read_spec() == old(self).counter_spec(),
            r is Ok ==> !final(self).is_armed(),
            r is Err ==> *final(self) == *old(self) && r->Err_0
                == DriverError::NotificationIoFailure,
    {
        if self.armed && self.counter != self.last_read {
            self.last_read = self.counter;
            self.armed = false;
            Ok(self.counter)
        } else {
            Err(DriverError::NotificationIoFailure)
        }
    }

    /// Writes the acknowledgement that permits the next edge to be observed.
    pub fn rearm(&mut self)
        ensures
            final(self).is_armed(),
            final(self).counter_spec() == old(self).counter_spec(),
            final(self).last_read_spec() == old(self).last_read_spec(),
    {
        self.armed = true;
    }
}

/// Notification re-arm is single-shot: after one completed wait the edge
/// counter stands consumed (`last_read == counter`, as [`wait`] ensures of
/// `before`), so whether or not the re-arm acknowledgement has been written,
/// a second wait that is not preceded by a new hardware edge cannot
/// complete. The acknowledgement readies the *next* edge only, once per
/// consumed edge.
///
/// [`wait`]: NotificationHandle::wait
pub proof fn law_rearm_is_single_shot(before: NotificationHandle, after: NotificationHandle)
    requires
        before.wait_succeeds(),
        after.counter_spec() == before.counter_spec(),
        after.last_read_spec() == before.counter_spec(),
    ensures
        !after.wait_succeeds(),
{
}

} // verus!
