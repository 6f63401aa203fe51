//! The ring of synchronisation objects that bounds the frames in flight.

use vstd::prelude::*;
use crate::error::RenderError;

verus! {

/// The number of frames whose work may be with the device at one time, and
/// so the number of slots in the ring.
pub const MAX_FRAMES_IN_FLIGHT: usize = 2;

/// The slot that the frame with the given count uses.
pub open spec fn slot_of(frame: nat) -> nat {
    frame % (MAX_FRAMES_IN_FLIGHT as nat)
}

/// The slot that follows `slot` in the ring.
pub open spec fn next_slot(slot: nat) -> nat {
    (slot + 1) % (MAX_FRAMES_IN_FLIGHT as nat)
}

/// The handles of the ring, slot by slot: the semaphore that the device
/// signals when an acquired image can be drawn to, the semaphore it signals
/// when rendering has finished, and the fence the host waits on before it
/// uses the slot again.
pub struct SyncObjects {
    pub image_available_semaphores: Vec<u64>,
    pub render_finished_semaphores: Vec<u64>,
    pub in_flight_fences: Vec<u64>,
}

impl SyncObjects {
    /// Each slot of the ring has its three objects.
    pub open spec fn wf(&self) -> bool {
        &&& self.image_available_semaphores@.len() == MAX_FRAMES_IN_FLIGHT
        &&& self.render_finished_semaphores@.len() == MAX_FRAMES_IN_FLIGHT
        &&& self.in_flight_fences@.len() == MAX_FRAMES_IN_FLIGHT
    }

    /// Whether a fence of the ring is created signalled. It is: the first
    /// wait on a slot then returns at once, since nothing was ever submitted
    /// with its fence.
    pub fn fences_start_signaled() -> (signaled: bool)
        ensures
            signaled,
    {
        true
    }

    /// Takes in the objects that the driver made, one of each kind for every
    /// slot.
    ///
    /// Fails where a list has not exactly one entry for each slot.
    pub fn new(
        image_available_semaphores: Vec<u64>,
        render_finished_semaphores: Vec<u64>,
        in_flight_fences: Vec<u64>,
    ) -> (ring: Result<SyncObjects, RenderError>)
        ensures
            (image_available_semaphores@.len() == MAX_FRAMES_IN_FLIGHT
                && render_finished_semaphores@.len() == MAX_FRAMES_IN_FLIGHT
                && in_flight_fences@.len() == MAX_FRAMES_IN_FLIGHT) ==> ring is Ok
                && ring->Ok_0.wf() && ring->Ok_0.image_available_semaphores@
                == image_available_semaphores@ && ring->Ok_0.render_finished_semaphores@
                == render_finished_semaphores@ && ring->Ok_0.in_flight_fences@
                == in_flight_fences@,
            !(image_available_semaphores@.len() == MAX_FRAMES_IN_FLIGHT
                && render_finished_semaphores@.len() == MAX_FRAMES_IN_FLIGHT
                && in_flight_fences@.len() == MAX_FRAMES_IN_FLIGHT) ==> ring is Err
                && ring->Err_0 == RenderError::ResourceCountMismatch,
    {
        if image_available_semaphores.len() != MAX_FRAMES_IN_FLIGHT
            || render_finished_semaphores.len() != MAX_FRAMES_IN_FLIGHT || in_flight_fences.len()
            != MAX_FRAMES_IN_FLIGHT {
            return Err(RenderError::ResourceCountMismatch);
        }
        Ok(SyncObjects { image_available_semaphores, render_finished_semaphores, in_flight_fences })
    }

    /// The handles to destroy, slot by slot: the two semaphores, then the
    /// fence.
    pub fn destroy(&self) -> (doomed: Vec<u64>)
        requires
            self.wf(),
        ensures
            doomed@.len() == 3 * MAX_FRAMES_IN_FLIGHT,
            forall|i: int|
                0 <= i < MAX_FRAMES_IN_FLIGHT ==> doomed@[3 * i]
                    == self.image_available_semaphores@[i] && doomed@[3 * i + 1]
                    == self.render_finished_semaphores@[i] && doomed@[3 * i + 2]
                    == self.in_flight_fences@[i],
    {
        let mut doomed: Vec<u64> = Vec::new();
        let mut i: usize = 0;
        while i < MAX_FRAMES_IN_FLIGHT
            invariant
                self.wf(),
                i <= MAX_FRAMES_IN_FLIGHT,
                doomed@.len() == 3 * i,
                forall|j: int|
                    0 <= j < i ==> doomed@[3 * j] == self.image_available_semaphores@[j]
                        && doomed@[3 * j + 1] == self.render_finished_semaphores@[j]
                        && doomed@[3 * j + 2] == self.in_flight_fences@[j],
            decreases MAX_FRAMES_IN_FLIGHT - i,
        {
            doomed.push(self.image_available_semaphores[i]);
            doomed.push(self.render_finished_semaphores[i]);
            doomed.push(self.in_flight_fences[i]);
            i += 1;
        }
        doomed
    }
}

/// Every frame's slot is a slot of the ring, and the slot of the next frame
/// is the one that follows.
pub proof fn lemma_slot_in_ring(frame: nat)
    ensures
        slot_of(frame) < MAX_FRAMES_IN_FLIGHT,
        slot_of(frame + 1) == next_slot(slot_of(frame)),
{
}

} // verus!
