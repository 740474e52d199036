//! Queue family selection.
//!
//! The device exposes queue families as capability bitmasks.  One logical
//! queue is selected per capability, preferring specialised families (a
//! transfer-only family over a general graphics family) so asynchronous
//! work does not contend with the main queue.

use vstd::prelude::*;
use crate::error::SchedulerError;

verus! {

/// `VK_QUEUE_GRAPHICS_BIT`.
pub const QUEUE_GRAPHICS: u32 = 0x1;

/// `VK_QUEUE_COMPUTE_BIT`.
pub const QUEUE_COMPUTE: u32 = 0x2;

/// `VK_QUEUE_TRANSFER_BIT`.
pub const QUEUE_TRANSFER: u32 = 0x4;

/// The capability a render system asks for.
#[derive(Clone, Copy, Debug, PartialEq, Eq, Structural)]
pub enum QueueType {
    Graphics,
    Compute,
    Transfer,
}

/// A reference to one selected logical queue: its index among the selected
/// queues and its device queue-family index.
#[derive(Clone, Copy, Debug, PartialEq, Eq, Structural)]
pub struct QueueRef {
    pub index: usize,
    pub family: u32,
}

/// The capability bit a queue type requires.
pub open spec fn required_bit(ty: QueueType) -> u32 {
    match ty {
        QueueType::Graphics => QUEUE_GRAPHICS,
        QueueType::Compute => QUEUE_COMPUTE,
        QueueType::Transfer => QUEUE_TRANSFER,
    }
}

/// How general a family is: the number of main capabilities it exposes.
/// Lower is more specialised.
pub open spec fn generality(flags: u32) -> int {
    (if flags & QUEUE_GRAPHICS != 0 {
        1int
    } else {
        0int
    }) + (if flags & QUEUE_COMPUTE != 0 {
        1int
    } else {
        0int
    }) + (if flags & QUEUE_TRANSFER != 0 {
        1int
    } else {
        0int
    })
}

fn generality_of(flags: u32) -> (r: i32)
    ensures
        r as int == generality(flags),
{
    let mut r: i32 = 0;
    if flags & QUEUE_GRAPHICS != 0 {
        r += 1;
    }
    if flags & QUEUE_COMPUTE != 0 {
        r += 1;
    }
    if flags & QUEUE_TRANSFER != 0 {
        r += 1;
    }
    r
}

/// Selects the queue family for a capability: the first family with the
/// capability among those of least generality.  Fails with
/// `NoCompatibleQueue` exactly when no family has the capability.
pub fn queue_family_of_type(families: &Vec<u32>, ty: QueueType) -> (r: Result<
    u32,
    SchedulerError,
>)
    requires
        families.len() < 0x10000,
    ensures
        r is Err <==> (forall|i: int|
            0 <= i < families.len() ==> (#[trigger] families[i]) & required_bit(ty) == 0),
        r is Err ==> r == Result::<u32, SchedulerError>::Err(SchedulerError::NoCompatibleQueue),
        r matches Ok(f) ==> {
            &&& (f as int) < families.len()
            &&& families[f as int] & required_bit(ty) != 0
            &&& forall|i: int|
                0 <= i < families.len() && (#[trigger] families[i]) & required_bit(ty) != 0
                    ==> generality(families[f as int]) <= generality(families[i])
            &&& forall|i: int|
                0 <= i < f && (#[trigger] families[i]) & required_bit(ty) != 0 ==> generality(
                    families[f as int],
                ) < generality(families[i])
        },
{
    let bit = match ty {
        QueueType::Graphics => QUEUE_GRAPHICS,
        QueueType::Compute => QUEUE_COMPUTE,
        QueueType::Transfer => QUEUE_TRANSFER,
    };
    let mut best: usize = 0;
    let mut best_gen: i32 = 0;
    let mut found = false;
    let mut i: usize = 0;
    while i < families.len()
        invariant
            i <= families.len(),
            families.len() < 0x10000,
            bit == required_bit(ty),
            !found ==> forall|k: int| 0 <= k < i ==> (#[trigger] families[k]) & bit == 0,
            found ==> {
                &&& best < i
                &&& families[best as int] & bit != 0
                &&& best_gen as int == generality(families[best as int])
                &&& forall|k: int|
                    0 <= k < i && (#[trigger] families[k]) & bit != 0 ==> best_gen as int
                        <= generality(families[k])
                &&& forall|k: int|
                    0 <= k < best && (#[trigger] families[k]) & bit != 0 ==> (best_gen as int)
                        < generality(families[k])
            },
        decreases families.len() - i,
    {
        let f = families[i];
        if f & bit != 0 {
            let g = generality_of(f);
            if !found || g < best_gen {
                found = true;
                best = i;
                best_gen = g;
            }
        }
        i += 1;
    }
    if found {
        Ok(best as u32)
    } else {
        Err(SchedulerError::NoCompatibleQueue)
    }
}


/// Marker for queue capability letters carried as const generics: the
/// code points of the letters g (graphics), c (compute) and t (transfer).
pub trait IsQueueCap<const Q: u8> {
}

impl IsQueueCap<103u8> for () {

}

impl IsQueueCap<99u8> for () {

}

impl IsQueueCap<116u8> for () {

}

/// Marker for the graphics capability letter.
pub trait IsGraphicsQueueCap<const Q: u8> {
}

impl IsGraphicsQueueCap<103u8> for () {

}

/// Marker for the compute capability letter.
pub trait IsComputeQueueCap<const Q: u8> {
}

impl IsComputeQueueCap<99u8> for () {

}

/// One selected queue per capability.
pub struct QueuesRouter {
    pub graphics: QueueRef,
    pub compute: QueueRef,
    pub transfer: QueueRef,
}

impl QueuesRouter {
    /// Selects the three logical queues from the device's families.
    /// Fails with `NoCompatibleQueue` exactly when some capability has no
    /// family.
    pub fn find_with_queue_family_properties(families: &Vec<u32>) -> (r: Result<
        QueuesRouter,
        SchedulerError,
    >)
        requires
            families.len() < 0x10000,
        ensures
            r matches Ok(router) ==> {
                &&& (router.graphics.family as int) < families.len()
                &&& families[router.graphics.family as int] & QUEUE_GRAPHICS != 0
                &&& (router.compute.family as int) < families.len()
                &&& families[router.compute.family as int] & QUEUE_COMPUTE != 0
                &&& (router.transfer.family as int) < families.len()
                &&& families[router.transfer.family as int] & QUEUE_TRANSFER != 0
            },
            r is Err <==> ((forall|i: int|
                0 <= i < families.len() ==> (#[trigger] families[i]) & QUEUE_GRAPHICS == 0) || (
            forall|i: int|
                0 <= i < families.len() ==> (#[trigger] families[i]) & QUEUE_COMPUTE == 0) || (
            forall|i: int|
                0 <= i < families.len() ==> (#[trigger] families[i]) & QUEUE_TRANSFER == 0)),
            r is Err ==> r == Result::<QueuesRouter, SchedulerError>::Err(
                SchedulerError::NoCompatibleQueue,
            ),
    {
        let graphics = match queue_family_of_type(families, QueueType::Graphics) {
            Ok(f) => f,
            Err(e) => {
                return Err(e);
            },
        };
        let compute = match queue_family_of_type(families, QueueType::Compute) {
            Ok(f) => f,
            Err(e) => {
                return Err(e);
            },
        };
        let transfer = match queue_family_of_type(families, QueueType::Transfer) {
            Ok(f) => f,
            Err(e) => {
                return Err(e);
            },
        };
        Ok(
            QueuesRouter {
                graphics: QueueRef { index: 0, family: graphics },
                compute: QueueRef { index: 1, family: compute },
                transfer: QueueRef { index: 2, family: transfer },
            },
        )
    }

    /// The family that serves a capability.
    pub fn queue_family_of_type(&self, ty: QueueType) -> (r: u32)
        ensures
            ty == QueueType::Graphics ==> r == self.graphics.family,
            ty == QueueType::Compute ==> r == self.compute.family,
            ty == QueueType::Transfer ==> r == self.transfer.family,
    {
        match ty {
            QueueType::Graphics => self.graphics.family,
            QueueType::Compute => self.compute.family,
            QueueType::Transfer => self.transfer.family,
        }
    }
}

} // verus!
