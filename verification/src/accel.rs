//! Bottom-level acceleration-structure build planning.
//!
//! Geometry descriptions are gathered from entities and laid out into the
//! driver's build arrays: one build range per geometry, transform offsets
//! indexing a packed transform array, and scratch sizes rounded up to the
//! driver's scratch alignment.  The driver performs the builds from the
//! plan.

use vstd::prelude::*;

verus! {

/// An acceleration structure handle with its build flags.
#[derive(Clone, Copy, Debug, PartialEq, Eq, Structural)]
pub struct AccelStruct {
    pub raw: u64,
    pub size: u64,
    pub flags: u64,
}

/// A built bottom-level acceleration structure.
pub struct BLAS {
    pub accel_struct: AccelStruct,
}

impl BLAS {
    /// The underlying acceleration structure.
    pub fn accel_struct(&self) -> (r: &AccelStruct)
        ensures
            r == self.accel_struct,
    {
        &self.accel_struct
    }
}

/// One geometry of a bottom-level build, over device addresses.
pub enum BLASBuildGeometry {
    Triangles {
        vertex_format: i32,
        vertex_address: u64,
        vertex_stride: u64,
        max_vertex: u32,
        index_type: u32,
        index_address: u64,
        has_transform: bool,
        flags: u64,
        primitive_count: u32,
    },
    Aabbs {
        address: u64,
        stride: u64,
        flags: u64,
        primitive_count: u32,
    },
}

/// The two geometry kinds the driver distinguishes.
#[derive(Clone, Copy, Debug, PartialEq, Eq, Structural)]
pub enum GeometryKind {
    Triangles,
    Aabbs,
}

impl BLASBuildGeometry {
    /// Which driver geometry kind this is.
    pub fn kind(&self) -> (r: GeometryKind)
        ensures
            (self is Triangles) ==> r == GeometryKind::Triangles,
            (self is Aabbs) ==> r == GeometryKind::Aabbs,
    {
        match self {
            BLASBuildGeometry::Triangles { .. } => GeometryKind::Triangles,
            BLASBuildGeometry::Aabbs { .. } => GeometryKind::Aabbs,
        }
    }
}

/// One entry of the driver's build-range array.
#[derive(Clone, Copy, Debug, PartialEq, Eq, Structural)]
pub struct BLASBuildRange {
    pub primitive_count: u32,
    pub primitive_offset: u32,
    pub first_vertex: u32,
    pub transform_offset: u32,
}

/// The primitive count of a geometry.
pub open spec fn primitive_count_of(g: BLASBuildGeometry) -> u32 {
    match g {
        BLASBuildGeometry::Triangles { primitive_count, .. } => primitive_count,
        BLASBuildGeometry::Aabbs { primitive_count, .. } => primitive_count,
    }
}

/// How many packed transforms the first `upto` geometries carry.
pub open spec fn transforms_before(gs: Seq<BLASBuildGeometry>, upto: int) -> int
    decreases upto,
{
    if upto <= 0 {
        0
    } else {
        transforms_before(gs, upto - 1) + (match gs[upto - 1] {
            BLASBuildGeometry::Triangles { has_transform, .. } => if has_transform {
                1int
            } else {
                0int
            },
            BLASBuildGeometry::Aabbs { .. } => 0int,
        })
    }
}

/// Lays the geometries out into build ranges: each range carries its
/// geometry's primitive count; a triangle geometry points at its slot in
/// the packed transform array, while box geometries carry no transform.
pub fn plan_blas_ranges(gs: &Vec<BLASBuildGeometry>) -> (r: (Vec<BLASBuildRange>, usize))
    requires
        gs.len() < 0x10000000,
    ensures
        r.0.len() == gs.len(),
        r.1 as int == transforms_before(gs@, gs@.len() as int),
        forall|i: int|
            0 <= i < gs.len() ==> (#[trigger] r.0[i]) == (BLASBuildRange {
                primitive_count: primitive_count_of(gs[i]),
                primitive_offset: 0,
                first_vertex: 0,
                transform_offset: (if gs[i] is Triangles {
                    transforms_before(gs@, i)
                } else {
                    0int
                }) as u32,
            }),
{
    let mut ranges: Vec<BLASBuildRange> = Vec::new();
    let mut transforms: usize = 0;
    let mut i: usize = 0;
    while i < gs.len()
        invariant
            gs.len() < 0x10000000,
            i <= gs.len(),
            ranges.len() == i,
            transforms as int == transforms_before(gs@, i as int),
            transforms <= i,
            forall|k: int|
                0 <= k < i ==> (#[trigger] ranges[k]) == (BLASBuildRange {
                    primitive_count: primitive_count_of(gs[k]),
                    primitive_offset: 0,
                    first_vertex: 0,
                    transform_offset: (if gs[k] is Triangles {
                        transforms_before(gs@, k)
                    } else {
                        0int
                    }) as u32,
                }),
        decreases gs.len() - i,
    {
        let (count, has_transform, offset) = match &gs[i] {
            BLASBuildGeometry::Triangles { primitive_count, has_transform, .. } => (
                *primitive_count,
                *has_transform,
                transforms as u32,
            ),
            BLASBuildGeometry::Aabbs { primitive_count, .. } => (*primitive_count, false, 0u32),
        };
        ranges.push(
            BLASBuildRange {
                primitive_count: count,
                primitive_offset: 0,
                first_vertex: 0,
                transform_offset: offset,
            },
        );
        if has_transform {
            transforms += 1;
        }
        i += 1;
    }
    (ranges, transforms)
}

/// Rounds a scratch size up to the driver's scratch offset alignment.
pub fn align_scratch_size(size: u64, alignment: u64) -> (r: u64)
    requires
        alignment >= 1,
        size + alignment <= u64::MAX,
    ensures
        r >= size,
        r % alignment == 0,
        r < size + alignment,
{
    let rem = size % alignment;
    if rem == 0 {
        size
    } else {
        let r = size + (alignment - rem);
        proof {
            let a = alignment as int;
            let s = size as int;
            vstd::arithmetic::div_mod::lemma_fundamental_div_mod(s, a);
            assert(r as int == a * (s / a) + a);
            assert(r as int == a * (s / a + 1)) by (nonlinear_arith)
                requires
                    r as int == a * (s / a) + a,
            ;
            assert((a * (s / a + 1)) % a == 0) by (nonlinear_arith)
                requires
                    a >= 1,
            ;
        }
        r
    }
}

} // verus!
