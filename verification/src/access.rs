//! Per-resource access tracking and incremental barrier computation.
//!
//! Each GPU memory access is a pair of stage and access bitmasks.  A
//! resource remembers its last writer and the union of readers since that
//! write; each new access yields at most one memory barrier following the
//! hazard rules: read-after-write, write-after-read and write-after-write
//! barriers, and nothing for read-after-read.  Image accesses additionally
//! force a barrier whenever the requested layout differs.

use vstd::prelude::*;

verus! {

/// `VK_PIPELINE_STAGE_2_ALL_COMMANDS_BIT`.
pub const STAGE_ALL_COMMANDS: u64 = 0x1_0000;

/// `VK_PIPELINE_STAGE_2_COPY_BIT`.
pub const STAGE_COPY: u64 = 0x1_0000_0000;

/// `VK_ACCESS_2_TRANSFER_READ_BIT`.
pub const ACCESS_TRANSFER_READ: u64 = 0x800;

/// `VK_ACCESS_2_TRANSFER_WRITE_BIT`.
pub const ACCESS_TRANSFER_WRITE: u64 = 0x1000;

/// One GPU memory access: a stage mask and an access mask.
#[derive(Clone, Copy, Debug, PartialEq, Eq, Structural)]
pub struct Access {
    pub stage: u64,
    pub access: u64,
}

/// A memory dependency from a source scope to a destination scope.
#[derive(Clone, Copy, Debug, PartialEq, Eq, Structural)]
pub struct MemoryBarrier {
    pub src_stage: u64,
    pub src_access: u64,
    pub dst_stage: u64,
    pub dst_access: u64,
}

/// An image barrier: a memory dependency plus a layout transition.
#[derive(Clone, Copy, Debug, PartialEq, Eq, Structural)]
pub struct ImageBarrier {
    pub barrier: MemoryBarrier,
    pub old_layout: u32,
    pub new_layout: u32,
}

/// The tracked synchronisation state of one resource.
#[derive(Clone, Copy, Debug, PartialEq, Eq, Structural)]
pub struct ResourceState {
    /// The last write that has not yet been made visible, if any.
    pub last_writer: Option<Access>,
    /// Union of all reads since the last write.
    pub readers: Access,
    /// Current image layout (ignored for buffers).
    pub layout: u32,
    /// Queue family that currently owns the resource.
    pub owner_family: u32,
}

impl ResourceState {
    /// A fresh resource: never accessed, in the given layout, owned by the
    /// given family.
    pub fn new(layout: u32, owner_family: u32) -> (r: ResourceState)
        ensures
            r.last_writer is None,
            r.readers == (Access { stage: 0, access: 0 }),
            r.layout == layout,
            r.owner_family == owner_family,
    {
        ResourceState {
            last_writer: None,
            readers: Access { stage: 0, access: 0 },
            layout,
            owner_family,
        }
    }
}

/// The barrier a read requires: a read after a write synchronises against
/// the writer; a read after reads needs nothing.
pub open spec fn read_barrier_spec(st: ResourceState, acc: Access) -> Option<MemoryBarrier> {
    match st.last_writer {
        Some(w) => Some(
            MemoryBarrier {
                src_stage: w.stage,
                src_access: w.access,
                dst_stage: acc.stage,
                dst_access: acc.access,
            },
        ),
        None => None,
    }
}

/// The state after a read: the writer is drained, the read joins the
/// reader union.
pub open spec fn after_read_spec(st: ResourceState, acc: Access) -> ResourceState {
    ResourceState {
        last_writer: None,
        readers: Access {
            stage: st.readers.stage | acc.stage,
            access: st.readers.access | acc.access,
        },
        ..st
    }
}

/// Tracks a read access.  Returns the required barrier, if any.
pub fn track_read(st: &mut ResourceState, acc: Access) -> (r: Option<MemoryBarrier>)
    ensures
        r == read_barrier_spec(*old(st), acc),
        *final(st) == after_read_spec(*old(st), acc),
{
    let r = match st.last_writer {
        Some(w) => Some(
            MemoryBarrier {
                src_stage: w.stage,
                src_access: w.access,
                dst_stage: acc.stage,
                dst_access: acc.access,
            },
        ),
        None => None,
    };
    st.last_writer = None;
    st.readers = Access {
        stage: st.readers.stage | acc.stage,
        access: st.readers.access | acc.access,
    };
    r
}

/// The barrier a write requires: against the previous writer if there is
/// one, else against the accumulated readers (an execution-only barrier),
/// else nothing.
pub open spec fn write_barrier_spec(st: ResourceState, acc: Access) -> Option<MemoryBarrier> {
    match st.last_writer {
        Some(w) => Some(
            MemoryBarrier {
                src_stage: w.stage,
                src_access: w.access,
                dst_stage: acc.stage,
                dst_access: acc.access,
            },
        ),
        None => if st.readers.stage != 0 {
            Some(
                MemoryBarrier {
                    src_stage: st.readers.stage,
                    src_access: 0,
                    dst_stage: acc.stage,
                    dst_access: acc.access,
                },
            )
        } else {
            None
        },
    }
}

/// The state after a write: the write becomes the last writer and the
/// reader union is cleared.
pub open spec fn after_write_spec(st: ResourceState, acc: Access) -> ResourceState {
    ResourceState { last_writer: Some(acc), readers: Access { stage: 0, access: 0 }, ..st }
}

/// Tracks a write access.  Returns the required barrier, if any.
pub fn track_write(st: &mut ResourceState, acc: Access) -> (r: Option<MemoryBarrier>)
    ensures
        r == write_barrier_spec(*old(st), acc),
        *final(st) == after_write_spec(*old(st), acc),
{
    let r = match st.last_writer {
        Some(w) => Some(
            MemoryBarrier {
                src_stage: w.stage,
                src_access: w.access,
                dst_stage: acc.stage,
                dst_access: acc.access,
            },
        ),
        None => {
            if st.readers.stage != 0 {
                Some(
                    MemoryBarrier {
                        src_stage: st.readers.stage,
                        src_access: 0,
                        dst_stage: acc.stage,
                        dst_access: acc.access,
                    },
                )
            } else {
                None
            }
        },
    };
    st.last_writer = Some(acc);
    st.readers = Access { stage: 0, access: 0 };
    r
}

/// An image layout change forces an image barrier carrying the transition,
/// whatever the access type.
pub fn layout_transition(st: &mut ResourceState, acc: Access, new_layout: u32) -> (r: Option<
    ImageBarrier,
>)
    ensures
        old(st).layout == new_layout ==> r is None && *final(st) == *old(st),
        old(st).layout != new_layout ==> r == Some(
            ImageBarrier {
                barrier: MemoryBarrier {
                    src_stage: match old(st).last_writer {
                        Some(w) => w.stage,
                        None => old(st).readers.stage,
                    },
                    src_access: match old(st).last_writer {
                        Some(w) => w.access,
                        None => 0u64,
                    },
                    dst_stage: acc.stage,
                    dst_access: acc.access,
                },
                old_layout: old(st).layout,
                new_layout: new_layout,
            },
        ) && *final(st) == (ResourceState { layout: new_layout, ..*old(st) }),
{
    if st.layout == new_layout {
        return None;
    }
    let b = ImageBarrier {
        barrier: MemoryBarrier {
            src_stage: match st.last_writer {
                Some(w) => w.stage,
                None => st.readers.stage,
            },
            src_access: match st.last_writer {
                Some(w) => w.access,
                None => 0u64,
            },
            dst_stage: acc.stage,
            dst_access: acc.access,
        },
        old_layout: st.layout,
        new_layout: new_layout,
    };
    st.layout = new_layout;
    Some(b)
}

/// A queue-family ownership transfer needs a release/acquire pair exactly
/// when the owner changes.
pub fn ownership_transfer(st: &mut ResourceState, family: u32) -> (r: Option<(u32, u32)>)
    ensures
        old(st).owner_family == family ==> r is None && *final(st) == *old(st),
        old(st).owner_family != family ==> r == Some((old(st).owner_family, family)) && *final(st)
            == (ResourceState { owner_family: family, ..*old(st) }),
{
    if st.owner_family == family {
        None
    } else {
        let prev = st.owner_family;
        st.owner_family = family;
        Some((prev, family))
    }
}

} // verus!
