//! Texture format and colour-space descriptors.
//!
//! Plain-data classification of the driver's format and colour-space
//! codes: channel widths, numeric interpretation and channel order for
//! formats; primaries family, linearity and transfer function for colour
//! spaces.  Unknown codes yield `None`.

use vstd::prelude::*;

verus! {

/// How a channel's bits are interpreted.
#[derive(Clone, Copy, Debug, PartialEq, Eq, Structural)]
pub enum FormatType {
    /// A float in [0, 1].
    UNorm,
    /// A float in [-1, 1].
    SNorm,
    /// An unsigned integer cast to a float of the same magnitude.
    UScaled,
    /// A signed integer cast to a float of the same magnitude.
    SScaled,
    /// An unsigned integer.
    UInt,
    /// A signed integer.
    SInt,
    /// Non-linear sRGB-encoded.
    Srgb,
    /// A signed float.
    SFloat,
    /// An unsigned float.
    UFloat,
}

/// Channel order, or the compression scheme of a block format.
#[derive(Clone, Copy, Debug, PartialEq, Eq, Structural)]
pub enum Permutation {
    R,
    G,
    B,
    Rg,
    Rgb,
    Bgr,
    Rgba,
    Bgra,
    Argb,
    Abgr,
    /// Three components with a shared exponent.
    Ebgr,
    /// Depth.
    D,
    /// Stencil.
    S,
    /// Depth and stencil.
    Ds,
    Bc1Rgb,
    Bc1Rgba,
    Bc2,
    Bc3,
    Bc4,
    Bc5,
    Bc6h,
    Bc7,
    Etc2Rgb,
    Etc2Rgba,
    EacR,
    EacRg,
    /// Adaptive block compression over x-by-y texel blocks.
    Astc { x: u8, y: u8 },
}

/// Channel bit widths plus interpretation and order.
#[derive(Clone, Copy, Debug, PartialEq, Eq, Structural)]
pub struct Format {
    pub r: u8,
    pub g: u8,
    pub b: u8,
    pub a: u8,
    pub ty: FormatType,
    pub permutation: Permutation,
}

/// The descriptor of each known driver format code.
pub open spec fn format_from_code_spec(code: i32) -> Option<Format> {
    match code {
        1i32 => Some(Format { r: 4, g: 4, b: 0, a: 0, ty: FormatType::UNorm, permutation: Permutation::Rg }),
        2i32 => Some(Format { r: 4, g: 4, b: 4, a: 4, ty: FormatType::UNorm, permutation: Permutation::Rgba }),
        3i32 => Some(Format { r: 4, g: 4, b: 4, a: 4, ty: FormatType::UNorm, permutation: Permutation::Bgra }),
        4i32 => Some(Format { r: 5, g: 6, b: 5, a: 0, ty: FormatType::UNorm, permutation: Permutation::Rgb }),
        5i32 => Some(Format { r: 5, g: 6, b: 5, a: 0, ty: FormatType::UNorm, permutation: Permutation::Bgr }),
        6i32 => Some(Format { r: 5, g: 5, b: 5, a: 1, ty: FormatType::UNorm, permutation: Permutation::Rgba }),
        7i32 => Some(Format { r: 5, g: 5, b: 5, a: 1, ty: FormatType::UNorm, permutation: Permutation::Bgra }),
        8i32 => Some(Format { r: 5, g: 5, b: 5, a: 1, ty: FormatType::UNorm, permutation: Permutation::Argb }),
        9i32 => Some(Format { r: 8, g: 0, b: 0, a: 0, ty: FormatType::UNorm, permutation: Permutation::R }),
        10i32 => Some(Format { r: 8, g: 0, b: 0, a: 0, ty: FormatType::SNorm, permutation: Permutation::R }),
        11i32 => Some(Format { r: 8, g: 0, b: 0, a: 0, ty: FormatType::UScaled, permutation: Permutation::R }),
        12i32 => Some(Format { r: 8, g: 0, b: 0, a: 0, ty: FormatType::SScaled, permutation: Permutation::R }),
        13i32 => Some(Format { r: 8, g: 0, b: 0, a: 0, ty: FormatType::UInt, permutation: Permutation::R }),
        14i32 => Some(Format { r: 8, g: 0, b: 0, a: 0, ty: FormatType::SInt, permutation: Permutation::R }),
        15i32 => Some(Format { r: 8, g: 0, b: 0, a: 0, ty: FormatType::Srgb, permutation: Permutation::R }),
        16i32 => Some(Format { r: 8, g: 8, b: 0, a: 0, ty: FormatType::UNorm, permutation: Permutation::Rg }),
        17i32 => Some(Format { r: 8, g: 8, b: 0, a: 0, ty: FormatType::SNorm, permutation: Permutation::Rg }),
        18i32 => Some(Format { r: 8, g: 8, b: 0, a: 0, ty: FormatType::UScaled, permutation: Permutation::Rg }),
        19i32 => Some(Format { r: 8, g: 8, b: 0, a: 0, ty: FormatType::SScaled, permutation: Permutation::Rg }),
        20i32 => Some(Format { r: 8, g: 8, b: 0, a: 0, ty: FormatType::UInt, permutation: Permutation::Rg }),
        21i32 => Some(Format { r: 8, g: 8, b: 0, a: 0, ty: FormatType::SInt, permutation: Permutation::Rg }),
        22i32 => Some(Format { r: 8, g: 8, b: 0, a: 0, ty: FormatType::Srgb, permutation: Permutation::Rg }),
        23i32 => Some(Format { r: 8, g: 8, b: 8, a: 0, ty: FormatType::UNorm, permutation: Permutation::Rgb }),
        24i32 => Some(Format { r: 8, g: 8, b: 8, a: 0, ty: FormatType::SNorm, permutation: Permutation::Rgb }),
        25i32 => Some(Format { r: 8, g: 8, b: 8, a: 0, ty: FormatType::UScaled, permutation: Permutation::Rgb }),
        26i32 => Some(Format { r: 8, g: 8, b: 8, a: 0, ty: FormatType::SScaled, permutation: Permutation::Rgb }),
        27i32 => Some(Format { r: 8, g: 8, b: 8, a: 0, ty: FormatType::UInt, permutation: Permutation::Rgb }),
        28i32 => Some(Format { r: 8, g: 8, b: 8, a: 0, ty: FormatType::SInt, permutation: Permutation::Rgb }),
        29i32 => Some(Format { r: 8, g: 8, b: 8, a: 0, ty: FormatType::Srgb, permutation: Permutation::Rgb }),
        30i32 => Some(Format { r: 8, g: 8, b: 8, a: 0, ty: FormatType::UNorm, permutation: Permutation::Bgr }),
        31i32 => Some(Format { r: 8, g: 8, b: 8, a: 0, ty: FormatType::SNorm, permutation: Permutation::Bgr }),
        32i32 => Some(Format { r: 8, g: 8, b: 8, a: 0, ty: FormatType::UScaled, permutation: Permutation::Bgr }),
        33i32 => Some(Format { r: 8, g: 8, b: 8, a: 0, ty: FormatType::SScaled, permutation: Permutation::Bgr }),
        34i32 => Some(Format { r: 8, g: 8, b: 8, a: 0, ty: FormatType::UInt, permutation: Permutation::Bgr }),
        35i32 => Some(Format { r: 8, g: 8, b: 8, a: 0, ty: FormatType::SInt, permutation: Permutation::Bgr }),
        36i32 => Some(Format { r: 8, g: 8, b: 8, a: 0, ty: FormatType::Srgb, permutation: Permutation::Bgr }),
        37i32 => Some(Format { r: 8, g: 8, b: 8, a: 8, ty: FormatType::UNorm, permutation: Permutation::Rgba }),
        38i32 => Some(Format { r: 8, g: 8, b: 8, a: 8, ty: FormatType::SNorm, permutation: Permutation::Rgba }),
        39i32 => Some(Format { r: 8, g: 8, b: 8, a: 8, ty: FormatType::UScaled, permutation: Permutation::Rgba }),
        40i32 => Some(Format { r: 8, g: 8, b: 8, a: 8, ty: FormatType::SScaled, permutation: Permutation::Rgba }),
        41i32 => Some(Format { r: 8, g: 8, b: 8, a: 8, ty: FormatType::UInt, permutation: Permutation::Rgba }),
        42i32 => Some(Format { r: 8, g: 8, b: 8, a: 8, ty: FormatType::SInt, permutation: Permutation::Rgba }),
        43i32 => Some(Format { r: 8, g: 8, b: 8, a: 8, ty: FormatType::Srgb, permutation: Permutation::Rgba }),
        44i32 => Some(Format { r: 8, g: 8, b: 8, a: 8, ty: FormatType::UNorm, permutation: Permutation::Bgra }),
        45i32 => Some(Format { r: 8, g: 8, b: 8, a: 8, ty: FormatType::SNorm, permutation: Permutation::Bgra }),
        46i32 => Some(Format { r: 8, g: 8, b: 8, a: 8, ty: FormatType::UScaled, permutation: Permutation::Bgra }),
        47i32 => Some(Format { r: 8, g: 8, b: 8, a: 8, ty: FormatType::SScaled, permutation: Permutation::Bgra }),
        48i32 => Some(Format { r: 8, g: 8, b: 8, a: 8, ty: FormatType::UInt, permutation: Permutation::Bgra }),
        49i32 => Some(Format { r: 8, g: 8, b: 8, a: 8, ty: FormatType::SInt, permutation: Permutation::Bgra }),
        50i32 => Some(Format { r: 8, g: 8, b: 8, a: 8, ty: FormatType::Srgb, permutation: Permutation::Bgra }),
        51i32 => Some(Format { r: 8, g: 8, b: 8, a: 8, ty: FormatType::UNorm, permutation: Permutation::Abgr }),
        52i32 => Some(Format { r: 8, g: 8, b: 8, a: 8, ty: FormatType::SNorm, permutation: Permutation::Abgr }),
        53i32 => Some(Format { r: 8, g: 8, b: 8, a: 8, ty: FormatType::UScaled, permutation: Permutation::Abgr }),
        54i32 => Some(Format { r: 8, g: 8, b: 8, a: 8, ty: FormatType::SScaled, permutation: Permutation::Abgr }),
        55i32 => Some(Format { r: 8, g: 8, b: 8, a: 8, ty: FormatType::UInt, permutation: Permutation::Abgr }),
        56i32 => Some(Format { r: 8, g: 8, b: 8, a: 8, ty: FormatType::SInt, permutation: Permutation::Abgr }),
        57i32 => Some(Format { r: 8, g: 8, b: 8, a: 8, ty: FormatType::Srgb, permutation: Permutation::Abgr }),
        58i32 => Some(Format { r: 10, g: 10, b: 10, a: 2, ty: FormatType::UNorm, permutation: Permutation::Argb }),
        59i32 => Some(Format { r: 10, g: 10, b: 10, a: 2, ty: FormatType::SNorm, permutation: Permutation::Argb }),
        60i32 => Some(Format { r: 10, g: 10, b: 10, a: 2, ty: FormatType::UScaled, permutation: Permutation::Argb }),
        61i32 => Some(Format { r: 10, g: 10, b: 10, a: 2, ty: FormatType::SScaled, permutation: Permutation::Argb }),
        62i32 => Some(Format { r: 10, g: 10, b: 10, a: 2, ty: FormatType::UInt, permutation: Permutation::Argb }),
        63i32 => Some(Format { r: 10, g: 10, b: 10, a: 2, ty: FormatType::SInt, permutation: Permutation::Argb }),
        64i32 => Some(Format { r: 10, g: 10, b: 10, a: 2, ty: FormatType::UNorm, permutation: Permutation::Abgr }),
        65i32 => Some(Format { r: 10, g: 10, b: 10, a: 2, ty: FormatType::SNorm, permutation: Permutation::Abgr }),
        66i32 => Some(Format { r: 10, g: 10, b: 10, a: 2, ty: FormatType::UScaled, permutation: Permutation::Abgr }),
        67i32 => Some(Format { r: 10, g: 10, b: 10, a: 2, ty: FormatType::SScaled, permutation: Permutation::Abgr }),
        68i32 => Some(Format { r: 10, g: 10, b: 10, a: 2, ty: FormatType::UInt, permutation: Permutation::Abgr }),
        69i32 => Some(Format { r: 10, g: 10, b: 10, a: 2, ty: FormatType::SInt, permutation: Permutation::Abgr }),
        70i32 => Some(Format { r: 16, g: 0, b: 0, a: 0, ty: FormatType::UNorm, permutation: Permutation::R }),
        71i32 => Some(Format { r: 16, g: 0, b: 0, a: 0, ty: FormatType::SNorm, permutation: Permutation::R }),
        72i32 => Some(Format { r: 16, g: 0, b: 0, a: 0, ty: FormatType::UScaled, permutation: Permutation::R }),
        73i32 => Some(Format { r: 16, g: 0, b: 0, a: 0, ty: FormatType::SScaled, permutation: Permutation::R }),
        74i32 => Some(Format { r: 16, g: 0, b: 0, a: 0, ty: FormatType::UInt, permutation: Permutation::R }),
        75i32 => Some(Format { r: 16, g: 0, b: 0, a: 0, ty: FormatType::SInt, permutation: Permutation::R }),
        76i32 => Some(Format { r: 16, g: 0, b: 0, a: 0, ty: FormatType::SFloat, permutation: Permutation::R }),
        77i32 => Some(Format { r: 16, g: 16, b: 0, a: 0, ty: FormatType::UNorm, permutation: Permutation::Rg }),
        78i32 => Some(Format { r: 16, g: 16, b: 0, a: 0, ty: FormatType::SNorm, permutation: Permutation::Rg }),
        79i32 => Some(Format { r: 16, g: 16, b: 0, a: 0, ty: FormatType::UScaled, permutation: Permutation::Rg }),
        80i32 => Some(Format { r: 16, g: 16, b: 0, a: 0, ty: FormatType::SScaled, permutation: Permutation::Rg }),
        81i32 => Some(Format { r: 16, g: 16, b: 0, a: 0, ty: FormatType::UInt, permutation: Permutation::Rg }),
        82i32 => Some(Format { r: 16, g: 16, b: 0, a: 0, ty: FormatType::SInt, permutation: Permutation::Rg }),
        83i32 => Some(Format { r: 16, g: 16, b: 0, a: 0, ty: FormatType::SFloat, permutation: Permutation::Rg }),
        84i32 => Some(Format { r: 16, g: 16, b: 16, a: 0, ty: FormatType::UNorm, permutation: Permutation::Rgb }),
        85i32 => Some(Format { r: 16, g: 16, b: 16, a: 0, ty: FormatType::SNorm, permutation: Permutation::Rgb }),
        86i32 => Some(Format { r: 16, g: 16, b: 16, a: 0, ty: FormatType::UScaled, permutation: Permutation::Rgb }),
        87i32 => Some(Format { r: 16, g: 16, b: 16, a: 0, ty: FormatType::SScaled, permutation: Permutation::Rgb }),
        88i32 => Some(Format { r: 16, g: 16, b: 16, a: 0, ty: FormatType::UInt, permutation: Permutation::Rgb }),
        89i32 => Some(Format { r: 16, g: 16, b: 16, a: 0, ty: FormatType::SInt, permutation: Permutation::Rgb }),
        90i32 => Some(Format { r: 16, g: 16, b: 16, a: 0, ty: FormatType::SFloat, permutation: Permutation::Rgb }),
        91i32 => Some(Format { r: 16, g: 16, b: 16, a: 16, ty: FormatType::UNorm, permutation: Permutation::Rgba }),
        92i32 => Some(Format { r: 16, g: 16, b: 16, a: 16, ty: FormatType::SNorm, permutation: Permutation::Rgba }),
        93i32 => Some(Format { r: 16, g: 16, b: 16, a: 16, ty: FormatType::UScaled, permutation: Permutation::Rgba }),
        94i32 => Some(Format { r: 16, g: 16, b: 16, a: 16, ty: FormatType::SScaled, permutation: Permutation::Rgba }),
        95i32 => Some(Format { r: 16, g: 16, b: 16, a: 16, ty: FormatType::UInt, permutation: Permutation::Rgba }),
        96i32 => Some(Format { r: 16, g: 16, b: 16, a: 16, ty: FormatType::SInt, permutation: Permutation::Rgba }),
        97i32 => Some(Format { r: 16, g: 16, b: 16, a: 16, ty: FormatType::SFloat, permutation: Permutation::Rgba }),
        98i32 => Some(Format { r: 32, g: 0, b: 0, a: 0, ty: FormatType::UInt, permutation: Permutation::R }),
        99i32 => Some(Format { r: 32, g: 0, b: 0, a: 0, ty: FormatType::SInt, permutation: Permutation::R }),
        100i32 => Some(Format { r: 32, g: 0, b: 0, a: 0, ty: FormatType::SFloat, permutation: Permutation::R }),
        101i32 => Some(Format { r: 32, g: 32, b: 0, a: 0, ty: FormatType::UInt, permutation: Permutation::Rg }),
        102i32 => Some(Format { r: 32, g: 32, b: 0, a: 0, ty: FormatType::SInt, permutation: Permutation::Rg }),
        103i32 => Some(Format { r: 32, g: 32, b: 0, a: 0, ty: FormatType::SFloat, permutation: Permutation::Rg }),
        104i32 => Some(Format { r: 32, g: 32, b: 32, a: 0, ty: FormatType::UInt, permutation: Permutation::Rgb }),
        105i32 => Some(Format { r: 32, g: 32, b: 32, a: 0, ty: FormatType::SInt, permutation: Permutation::Rgb }),
        106i32 => Some(Format { r: 32, g: 32, b: 32, a: 0, ty: FormatType::SFloat, permutation: Permutation::Rgb }),
        107i32 => Some(Format { r: 32, g: 32, b: 32, a: 32, ty: FormatType::UInt, permutation: Permutation::Rgba }),
        108i32 => Some(Format { r: 32, g: 32, b: 32, a: 32, ty: FormatType::SInt, permutation: Permutation::Rgba }),
        109i32 => Some(Format { r: 32, g: 32, b: 32, a: 32, ty: FormatType::SFloat, permutation: Permutation::Rgba }),
        110i32 => Some(Format { r: 64, g: 0, b: 0, a: 0, ty: FormatType::UInt, permutation: Permutation::R }),
        111i32 => Some(Format { r: 64, g: 0, b: 0, a: 0, ty: FormatType::SInt, permutation: Permutation::R }),
        112i32 => Some(Format { r: 64, g: 0, b: 0, a: 0, ty: FormatType::SFloat, permutation: Permutation::R }),
        113i32 => Some(Format { r: 64, g: 64, b: 0, a: 0, ty: FormatType::UInt, permutation: Permutation::Rg }),
        114i32 => Some(Format { r: 64, g: 64, b: 0, a: 0, ty: FormatType::SInt, permutation: Permutation::Rg }),
        115i32 => Some(Format { r: 64, g: 64, b: 0, a: 0, ty: FormatType::SFloat, permutation: Permutation::Rg }),
        116i32 => Some(Format { r: 64, g: 64, b: 64, a: 0, ty: FormatType::UInt, permutation: Permutation::Rgb }),
        117i32 => Some(Format { r: 64, g: 64, b: 64, a: 0, ty: FormatType::SInt, permutation: Permutation::Rgb }),
        118i32 => Some(Format { r: 64, g: 64, b: 64, a: 0, ty: FormatType::SFloat, permutation: Permutation::Rgb }),
        119i32 => Some(Format { r: 64, g: 64, b: 64, a: 64, ty: FormatType::UInt, permutation: Permutation::Rgba }),
        120i32 => Some(Format { r: 64, g: 64, b: 64, a: 64, ty: FormatType::SInt, permutation: Permutation::Rgba }),
        121i32 => Some(Format { r: 64, g: 64, b: 64, a: 64, ty: FormatType::SFloat, permutation: Permutation::Rgba }),
        122i32 => Some(Format { r: 11, g: 11, b: 10, a: 0, ty: FormatType::UFloat, permutation: Permutation::Bgr }),
        123i32 => Some(Format { r: 9, g: 9, b: 9, a: 5, ty: FormatType::UFloat, permutation: Permutation::Ebgr }),
        124i32 => Some(Format { r: 16, g: 0, b: 0, a: 0, ty: FormatType::UNorm, permutation: Permutation::D }),
        125i32 => Some(Format { r: 24, g: 0, b: 0, a: 0, ty: FormatType::UNorm, permutation: Permutation::D }),
        126i32 => Some(Format { r: 32, g: 0, b: 0, a: 0, ty: FormatType::SFloat, permutation: Permutation::D }),
        127i32 => Some(Format { r: 8, g: 0, b: 0, a: 0, ty: FormatType::UInt, permutation: Permutation::S }),
        128i32 => Some(Format { r: 16, g: 0, b: 0, a: 0, ty: FormatType::UNorm, permutation: Permutation::Ds }),
        129i32 => Some(Format { r: 24, g: 0, b: 0, a: 0, ty: FormatType::UNorm, permutation: Permutation::Ds }),
        130i32 => Some(Format { r: 32, g: 0, b: 0, a: 0, ty: FormatType::SFloat, permutation: Permutation::Ds }),
        131i32 => Some(Format { r: 0, g: 0, b: 0, a: 0, ty: FormatType::UNorm, permutation: Permutation::Bc1Rgb }),
        132i32 => Some(Format { r: 0, g: 0, b: 0, a: 0, ty: FormatType::Srgb, permutation: Permutation::Bc1Rgb }),
        133i32 => Some(Format { r: 0, g: 0, b: 0, a: 0, ty: FormatType::UNorm, permutation: Permutation::Bc1Rgba }),
        134i32 => Some(Format { r: 0, g: 0, b: 0, a: 0, ty: FormatType::Srgb, permutation: Permutation::Bc1Rgba }),
        135i32 => Some(Format { r: 0, g: 0, b: 0, a: 0, ty: FormatType::UNorm, permutation: Permutation::Bc2 }),
        136i32 => Some(Format { r: 0, g: 0, b: 0, a: 0, ty: FormatType::Srgb, permutation: Permutation::Bc2 }),
        137i32 => Some(Format { r: 0, g: 0, b: 0, a: 0, ty: FormatType::UNorm, permutation: Permutation::Bc3 }),
        138i32 => Some(Format { r: 0, g: 0, b: 0, a: 0, ty: FormatType::Srgb, permutation: Permutation::Bc3 }),
        139i32 => Some(Format { r: 0, g: 0, b: 0, a: 0, ty: FormatType::UNorm, permutation: Permutation::Bc4 }),
        140i32 => Some(Format { r: 0, g: 0, b: 0, a: 0, ty: FormatType::SNorm, permutation: Permutation::Bc4 }),
        141i32 => Some(Format { r: 0, g: 0, b: 0, a: 0, ty: FormatType::UNorm, permutation: Permutation::Bc5 }),
        142i32 => Some(Format { r: 0, g: 0, b: 0, a: 0, ty: FormatType::SNorm, permutation: Permutation::Bc5 }),
        143i32 => Some(Format { r: 0, g: 0, b: 0, a: 0, ty: FormatType::UFloat, permutation: Permutation::Bc6h }),
        144i32 => Some(Format { r: 0, g: 0, b: 0, a: 0, ty: FormatType::SFloat, permutation: Permutation::Bc6h }),
        145i32 => Some(Format { r: 0, g: 0, b: 0, a: 0, ty: FormatType::UNorm, permutation: Permutation::Bc7 }),
        146i32 => Some(Format { r: 0, g: 0, b: 0, a: 0, ty: FormatType::Srgb, permutation: Permutation::Bc7 }),
        147i32 => Some(Format { r: 8, g: 8, b: 8, a: 0, ty: FormatType::UNorm, permutation: Permutation::Etc2Rgb }),
        148i32 => Some(Format { r: 8, g: 8, b: 8, a: 0, ty: FormatType::Srgb, permutation: Permutation::Etc2Rgb }),
        149i32 => Some(Format { r: 8, g: 8, b: 8, a: 1, ty: FormatType::UNorm, permutation: Permutation::Etc2Rgba }),
        150i32 => Some(Format { r: 8, g: 8, b: 8, a: 1, ty: FormatType::Srgb, permutation: Permutation::Etc2Rgba }),
        151i32 => Some(Format { r: 8, g: 8, b: 8, a: 8, ty: FormatType::UNorm, permutation: Permutation::Etc2Rgba }),
        152i32 => Some(Format { r: 8, g: 8, b: 8, a: 8, ty: FormatType::Srgb, permutation: Permutation::Etc2Rgba }),
        153i32 => Some(Format { r: 11, g: 0, b: 0, a: 0, ty: FormatType::UNorm, permutation: Permutation::EacR }),
        154i32 => Some(Format { r: 11, g: 0, b: 0, a: 0, ty: FormatType::SNorm, permutation: Permutation::EacR }),
        155i32 => Some(Format { r: 11, g: 11, b: 0, a: 0, ty: FormatType::UNorm, permutation: Permutation::EacRg }),
        156i32 => Some(Format { r: 11, g: 11, b: 0, a: 0, ty: FormatType::SNorm, permutation: Permutation::EacRg }),
        157i32 => Some(Format { r: 0, g: 0, b: 0, a: 0, ty: FormatType::UNorm, permutation: Permutation::Astc { x: 4, y: 4 } }),
        158i32 => Some(Format { r: 0, g: 0, b: 0, a: 0, ty: FormatType::Srgb, permutation: Permutation::Astc { x: 4, y: 4 } }),
        159i32 => Some(Format { r: 0, g: 0, b: 0, a: 0, ty: FormatType::UNorm, permutation: Permutation::Astc { x: 5, y: 4 } }),
        160i32 => Some(Format { r: 0, g: 0, b: 0, a: 0, ty: FormatType::Srgb, permutation: Permutation::Astc { x: 5, y: 4 } }),
        161i32 => Some(Format { r: 0, g: 0, b: 0, a: 0, ty: FormatType::UNorm, permutation: Permutation::Astc { x: 5, y: 5 } }),
        162i32 => Some(Format { r: 0, g: 0, b: 0, a: 0, ty: FormatType::Srgb, permutation: Permutation::Astc { x: 5, y: 5 } }),
        163i32 => Some(Format { r: 0, g: 0, b: 0, a: 0, ty: FormatType::UNorm, permutation: Permutation::Astc { x: 6, y: 5 } }),
        164i32 => Some(Format { r: 0, g: 0, b: 0, a: 0, ty: FormatType::Srgb, permutation: Permutation::Astc { x: 6, y: 5 } }),
        165i32 => Some(Format { r: 0, g: 0, b: 0, a: 0, ty: FormatType::UNorm, permutation: Permutation::Astc { x: 6, y: 6 } }),
        166i32 => Some(Format { r: 0, g: 0, b: 0, a: 0, ty: FormatType::Srgb, permutation: Permutation::Astc { x: 6, y: 6 } }),
        167i32 => Some(Format { r: 0, g: 0, b: 0, a: 0, ty: FormatType::UNorm, permutation: Permutation::Astc { x: 8, y: 5 } }),
        168i32 => Some(Format { r: 0, g: 0, b: 0, a: 0, ty: FormatType::Srgb, permutation: Permutation::Astc { x: 8, y: 5 } }),
        169i32 => Some(Format { r: 0, g: 0, b: 0, a: 0, ty: FormatType::UNorm, permutation: Permutation::Astc { x: 8, y: 6 } }),
        170i32 => Some(Format { r: 0, g: 0, b: 0, a: 0, ty: FormatType::Srgb, permutation: Permutation::Astc { x: 8, y: 6 } }),
        171i32 => Some(Format { r: 0, g: 0, b: 0, a: 0, ty: FormatType::UNorm, permutation: Permutation::Astc { x: 8, y: 8 } }),
        172i32 => Some(Format { r: 0, g: 0, b: 0, a: 0, ty: FormatType::Srgb, permutation: Permutation::Astc { x: 8, y: 8 } }),
        173i32 => Some(Format { r: 0, g: 0, b: 0, a: 0, ty: FormatType::UNorm, permutation: Permutation::Astc { x: 10, y: 5 } }),
        174i32 => Some(Format { r: 0, g: 0, b: 0, a: 0, ty: FormatType::Srgb, permutation: Permutation::Astc { x: 10, y: 5 } }),
        175i32 => Some(Format { r: 0, g: 0, b: 0, a: 0, ty: FormatType::UNorm, permutation: Permutation::Astc { x: 10, y: 6 } }),
        176i32 => Some(Format { r: 0, g: 0, b: 0, a: 0, ty: FormatType::Srgb, permutation: Permutation::Astc { x: 10, y: 6 } }),
        177i32 => Some(Format { r: 0, g: 0, b: 0, a: 0, ty: FormatType::UNorm, permutation: Permutation::Astc { x: 10, y: 8 } }),
        178i32 => Some(Format { r: 0, g: 0, b: 0, a: 0, ty: FormatType::Srgb, permutation: Permutation::Astc { x: 10, y: 8 } }),
        179i32 => Some(Format { r: 0, g: 0, b: 0, a: 0, ty: FormatType::UNorm, permutation: Permutation::Astc { x: 10, y: 10 } }),
        180i32 => Some(Format { r: 0, g: 0, b: 0, a: 0, ty: FormatType::Srgb, permutation: Permutation::Astc { x: 10, y: 10 } }),
        181i32 => Some(Format { r: 0, g: 0, b: 0, a: 0, ty: FormatType::UNorm, permutation: Permutation::Astc { x: 12, y: 10 } }),
        182i32 => Some(Format { r: 0, g: 0, b: 0, a: 0, ty: FormatType::Srgb, permutation: Permutation::Astc { x: 12, y: 10 } }),
        183i32 => Some(Format { r: 0, g: 0, b: 0, a: 0, ty: FormatType::UNorm, permutation: Permutation::Astc { x: 12, y: 12 } }),
        184i32 => Some(Format { r: 0, g: 0, b: 0, a: 0, ty: FormatType::Srgb, permutation: Permutation::Astc { x: 12, y: 12 } }),
        0i32 => Some(Format { r: 0, g: 0, b: 0, a: 0, ty: FormatType::SFloat, permutation: Permutation::Ds }),
        _ => None,
    }
}

impl Format {
    /// Classifies a driver format code.
    pub fn from_code(code: i32) -> (r: Option<Format>)
        ensures
            r == format_from_code_spec(code),
    {
        match code {
            1i32 => Some(Format { r: 4, g: 4, b: 0, a: 0, ty: FormatType::UNorm, permutation: Permutation::Rg }),
            2i32 => Some(Format { r: 4, g: 4, b: 4, a: 4, ty: FormatType::UNorm, permutation: Permutation::Rgba }),
            3i32 => Some(Format { r: 4, g: 4, b: 4, a: 4, ty: FormatType::UNorm, permutation: Permutation::Bgra }),
            4i32 => Some(Format { r: 5, g: 6, b: 5, a: 0, ty: FormatType::UNorm, permutation: Permutation::Rgb }),
            5i32 => Some(Format { r: 5, g: 6, b: 5, a: 0, ty: FormatType::UNorm, permutation: Permutation::Bgr }),
            6i32 => Some(Format { r: 5, g: 5, b: 5, a: 1, ty: FormatType::UNorm, permutation: Permutation::Rgba }),
            7i32 => Some(Format { r: 5, g: 5, b: 5, a: 1, ty: FormatType::UNorm, permutation: Permutation::Bgra }),
            8i32 => Some(Format { r: 5, g: 5, b: 5, a: 1, ty: FormatType::UNorm, permutation: Permutation::Argb }),
            9i32 => Some(Format { r: 8, g: 0, b: 0, a: 0, ty: FormatType::UNorm, permutation: Permutation::R }),
            10i32 => Some(Format { r: 8, g: 0, b: 0, a: 0, ty: FormatType::SNorm, permutation: Permutation::R }),
            11i32 => Some(Format { r: 8, g: 0, b: 0, a: 0, ty: FormatType::UScaled, permutation: Permutation::R }),
            12i32 => Some(Format { r: 8, g: 0, b: 0, a: 0, ty: FormatType::SScaled, permutation: Permutation::R }),
            13i32 => Some(Format { r: 8, g: 0, b: 0, a: 0, ty: FormatType::UInt, permutation: Permutation::R }),
            14i32 => Some(Format { r: 8, g: 0, b: 0, a: 0, ty: FormatType::SInt, permutation: Permutation::R }),
            15i32 => Some(Format { r: 8, g: 0, b: 0, a: 0, ty: FormatType::Srgb, permutation: Permutation::R }),
            16i32 => Some(Format { r: 8, g: 8, b: 0, a: 0, ty: FormatType::UNorm, permutation: Permutation::Rg }),
            17i32 => Some(Format { r: 8, g: 8, b: 0, a: 0, ty: FormatType::SNorm, permutation: Permutation::Rg }),
            18i32 => Some(Format { r: 8, g: 8, b: 0, a: 0, ty: FormatType::UScaled, permutation: Permutation::Rg }),
            19i32 => Some(Format { r: 8, g: 8, b: 0, a: 0, ty: FormatType::SScaled, permutation: Permutation::Rg }),
            20i32 => Some(Format { r: 8, g: 8, b: 0, a: 0, ty: FormatType::UInt, permutation: Permutation::Rg }),
            21i32 => Some(Format { r: 8, g: 8, b: 0, a: 0, ty: FormatType::SInt, permutation: Permutation::Rg }),
            22i32 => Some(Format { r: 8, g: 8, b: 0, a: 0, ty: FormatType::Srgb, permutation: Permutation::Rg }),
            23i32 => Some(Format { r: 8, g: 8, b: 8, a: 0, ty: FormatType::UNorm, permutation: Permutation::Rgb }),
            24i32 => Some(Format { r: 8, g: 8, b: 8, a: 0, ty: FormatType::SNorm, permutation: Permutation::Rgb }),
            25i32 => Some(Format { r: 8, g: 8, b: 8, a: 0, ty: FormatType::UScaled, permutation: Permutation::Rgb }),
            26i32 => Some(Format { r: 8, g: 8, b: 8, a: 0, ty: FormatType::SScaled, permutation: Permutation::Rgb }),
            27i32 => Some(Format { r: 8, g: 8, b: 8, a: 0, ty: FormatType::UInt, permutation: Permutation::Rgb }),
            28i32 => Some(Format { r: 8, g: 8, b: 8, a: 0, ty: FormatType::SInt, permutation: Permutation::Rgb }),
            29i32 => Some(Format { r: 8, g: 8, b: 8, a: 0, ty: FormatType::Srgb, permutation: Permutation::Rgb }),
            30i32 => Some(Format { r: 8, g: 8, b: 8, a: 0, ty: FormatType::UNorm, permutation: Permutation::Bgr }),
            31i32 => Some(Format { r: 8, g: 8, b: 8, a: 0, ty: FormatType::SNorm, permutation: Permutation::Bgr }),
            32i32 => Some(Format { r: 8, g: 8, b: 8, a: 0, ty: FormatType::UScaled, permutation: Permutation::Bgr }),
            33i32 => Some(Format { r: 8, g: 8, b: 8, a: 0, ty: FormatType::SScaled, permutation: Permutation::Bgr }),
            34i32 => Some(Format { r: 8, g: 8, b: 8, a: 0, ty: FormatType::UInt, permutation: Permutation::Bgr }),
            35i32 => Some(Format { r: 8, g: 8, b: 8, a: 0, ty: FormatType::SInt, permutation: Permutation::Bgr }),
            36i32 => Some(Format { r: 8, g: 8, b: 8, a: 0, ty: FormatType::Srgb, permutation: Permutation::Bgr }),
            37i32 => Some(Format { r: 8, g: 8, b: 8, a: 8, ty: FormatType::UNorm, permutation: Permutation::Rgba }),
            38i32 => Some(Format { r: 8, g: 8, b: 8, a: 8, ty: FormatType::SNorm, permutation: Permutation::Rgba }),
            39i32 => Some(Format { r: 8, g: 8, b: 8, a: 8, ty: FormatType::UScaled, permutation: Permutation::Rgba }),
            40i32 => Some(Format { r: 8, g: 8, b: 8, a: 8, ty: FormatType::SScaled, permutation: Permutation::Rgba }),
            41i32 => Some(Format { r: 8, g: 8, b: 8, a: 8, ty: FormatType::UInt, permutation: Permutation::Rgba }),
            42i32 => Some(Format { r: 8, g: 8, b: 8, a: 8, ty: FormatType::SInt, permutation: Permutation::Rgba }),
            43i32 => Some(Format { r: 8, g: 8, b: 8, a: 8, ty: FormatType::Srgb, permutation: Permutation::Rgba }),
            44i32 => Some(Format { r: 8, g: 8, b: 8, a: 8, ty: FormatType::UNorm, permutation: Permutation::Bgra }),
            45i32 => Some(Format { r: 8, g: 8, b: 8, a: 8, ty: FormatType::SNorm, permutation: Permutation::Bgra }),
            46i32 => Some(Format { r: 8, g: 8, b: 8, a: 8, ty: FormatType::UScaled, permutation: Permutation::Bgra }),
            47i32 => Some(Format { r: 8, g: 8, b: 8, a: 8, ty: FormatType::SScaled, permutation: Permutation::Bgra }),
            48i32 => Some(Format { r: 8, g: 8, b: 8, a: 8, ty: FormatType::UInt, permutation: Permutation::Bgra }),
            49i32 => Some(Format { r: 8, g: 8, b: 8, a: 8, ty: FormatType::SInt, permutation: Permutation::Bgra }),
            50i32 => Some(Format { r: 8, g: 8, b: 8, a: 8, ty: FormatType::Srgb, permutation: Permutation::Bgra }),
            51i32 => Some(Format { r: 8, g: 8, b: 8, a: 8, ty: FormatType::UNorm, permutation: Permutation::Abgr }),
            52i32 => Some(Format { r: 8, g: 8, b: 8, a: 8, ty: FormatType::SNorm, permutation: Permutation::Abgr }),
            53i32 => Some(Format { r: 8, g: 8, b: 8, a: 8, ty: FormatType::UScaled, permutation: Permutation::Abgr }),
            54i32 => Some(Format { r: 8, g: 8, b: 8, a: 8, ty: FormatType::SScaled, permutation: Permutation::Abgr }),
            55i32 => Some(Format { r: 8, g: 8, b: 8, a: 8, ty: FormatType::UInt, permutation: Permutation::Abgr }),
            56i32 => Some(Format { r: 8, g: 8, b: 8, a: 8, ty: FormatType::SInt, permutation: Permutation::Abgr }),
            57i32 => Some(Format { r: 8, g: 8, b: 8, a: 8, ty: FormatType::Srgb, permutation: Permutation::Abgr }),
            58i32 => Some(Format { r: 10, g: 10, b: 10, a: 2, ty: FormatType::UNorm, permutation: Permutation::Argb }),
            59i32 => Some(Format { r: 10, g: 10, b: 10, a: 2, ty: FormatType::SNorm, permutation: Permutation::Argb }),
            60i32 => Some(Format { r: 10, g: 10, b: 10, a: 2, ty: FormatType::UScaled, permutation: Permutation::Argb }),
            61i32 => Some(Format { r: 10, g: 10, b: 10, a: 2, ty: FormatType::SScaled, permutation: Permutation::Argb }),
            62i32 => Some(Format { r: 10, g: 10, b: 10, a: 2, ty: FormatType::UInt, permutation: Permutation::Argb }),
            63i32 => Some(Format { r: 10, g: 10, b: 10, a: 2, ty: FormatType::SInt, permutation: Permutation::Argb }),
            64i32 => Some(Format { r: 10, g: 10, b: 10, a: 2, ty: FormatType::UNorm, permutation: Permutation::Abgr }),
            65i32 => Some(Format { r: 10, g: 10, b: 10, a: 2, ty: FormatType::SNorm, permutation: Permutation::Abgr }),
            66i32 => Some(Format { r: 10, g: 10, b: 10, a: 2, ty: FormatType::UScaled, permutation: Permutation::Abgr }),
            67i32 => Some(Format { r: 10, g: 10, b: 10, a: 2, ty: FormatType::SScaled, permutation: Permutation::Abgr }),
            68i32 => Some(Format { r: 10, g: 10, b: 10, a: 2, ty: FormatType::UInt, permutation: Permutation::Abgr }),
            69i32 => Some(Format { r: 10, g: 10, b: 10, a: 2, ty: FormatType::SInt, permutation: Permutation::Abgr }),
            70i32 => Some(Format { r: 16, g: 0, b: 0, a: 0, ty: FormatType::UNorm, permutation: Permutation::R }),
            71i32 => Some(Format { r: 16, g: 0, b: 0, a: 0, ty: FormatType::SNorm, permutation: Permutation::R }),
            72i32 => Some(Format { r: 16, g: 0, b: 0, a: 0, ty: FormatType::UScaled, permutation: Permutation::R }),
            73i32 => Some(Format { r: 16, g: 0, b: 0, a: 0, ty: FormatType::SScaled, permutation: Permutation::R }),
            74i32 => Some(Format { r: 16, g: 0, b: 0, a: 0, ty: FormatType::UInt, permutation: Permutation::R }),
            75i32 => Some(Format { r: 16, g: 0, b: 0, a: 0, ty: FormatType::SInt, permutation: Permutation::R }),
            76i32 => Some(Format { r: 16, g: 0, b: 0, a: 0, ty: FormatType::SFloat, permutation: Permutation::R }),
            77i32 => Some(Format { r: 16, g: 16, b: 0, a: 0, ty: FormatType::UNorm, permutation: Permutation::Rg }),
            78i32 => Some(Format { r: 16, g: 16, b: 0, a: 0, ty: FormatType::SNorm, permutation: Permutation::Rg }),
            79i32 => Some(Format { r: 16, g: 16, b: 0, a: 0, ty: FormatType::UScaled, permutation: Permutation::Rg }),
            80i32 => Some(Format { r: 16, g: 16, b: 0, a: 0, ty: FormatType::SScaled, permutation: Permutation::Rg }),
            81i32 => Some(Format { r: 16, g: 16, b: 0, a: 0, ty: FormatType::UInt, permutation: Permutation::Rg }),
            82i32 => Some(Format { r: 16, g: 16, b: 0, a: 0, ty: FormatType::SInt, permutation: Permutation::Rg }),
            83i32 => Some(Format { r: 16, g: 16, b: 0, a: 0, ty: FormatType::SFloat, permutation: Permutation::Rg }),
            84i32 => Some(Format { r: 16, g: 16, b: 16, a: 0, ty: FormatType::UNorm, permutation: Permutation::Rgb }),
            85i32 => Some(Format { r: 16, g: 16, b: 16, a: 0, ty: FormatType::SNorm, permutation: Permutation::Rgb }),
            86i32 => Some(Format { r: 16, g: 16, b: 16, a: 0, ty: FormatType::UScaled, permutation: Permutation::Rgb }),
            87i32 => Some(Format { r: 16, g: 16, b: 16, a: 0, ty: FormatType::SScaled, permutation: Permutation::Rgb }),
            88i32 => Some(Format { r: 16, g: 16, b: 16, a: 0, ty: FormatType::UInt, permutation: Permutation::Rgb }),
            89i32 => Some(Format { r: 16, g: 16, b: 16, a: 0, ty: FormatType::SInt, permutation: Permutation::Rgb }),
            90i32 => Some(Format { r: 16, g: 16, b: 16, a: 0, ty: FormatType::SFloat, permutation: Permutation::Rgb }),
            91i32 => Some(Format { r: 16, g: 16, b: 16, a: 16, ty: FormatType::UNorm, permutation: Permutation::Rgba }),
            92i32 => Some(Format { r: 16, g: 16, b: 16, a: 16, ty: FormatType::SNorm, permutation: Permutation::Rgba }),
            93i32 => Some(Format { r: 16, g: 16, b: 16, a: 16, ty: FormatType::UScaled, permutation: Permutation::Rgba }),
            94i32 => Some(Format { r: 16, g: 16, b: 16, a: 16, ty: FormatType::SScaled, permutation: Permutation::Rgba }),
            95i32 => Some(Format { r: 16, g: 16, b: 16, a: 16, ty: FormatType::UInt, permutation: Permutation::Rgba }),
            96i32 => Some(Format { r: 16, g: 16, b: 16, a: 16, ty: FormatType::SInt, permutation: Permutation::Rgba }),
            97i32 => Some(Format { r: 16, g: 16, b: 16, a: 16, ty: FormatType::SFloat, permutation: Permutation::Rgba }),
            98i32 => Some(Format { r: 32, g: 0, b: 0, a: 0, ty: FormatType::UInt, permutation: Permutation::R }),
            99i32 => Some(Format { r: 32, g: 0, b: 0, a: 0, ty: FormatType::SInt, permutation: Permutation::R }),
            100i32 => Some(Format { r: 32, g: 0, b: 0, a: 0, ty: FormatType::SFloat, permutation: Permutation::R }),
            101i32 => Some(Format { r: 32, g: 32, b: 0, a: 0, ty: FormatType::UInt, permutation: Permutation::Rg }),
            102i32 => Some(Format { r: 32, g: 32, b: 0, a: 0, ty: FormatType::SInt, permutation: Permutation::Rg }),
            103i32 => Some(Format { r: 32, g: 32, b: 0, a: 0, ty: FormatType::SFloat, permutation: Permutation::Rg }),
            104i32 => Some(Format { r: 32, g: 32, b: 32, a: 0, ty: FormatType::UInt, permutation: Permutation::Rgb }),
            105i32 => Some(Format { r: 32, g: 32, b: 32, a: 0, ty: FormatType::SInt, permutation: Permutation::Rgb }),
            106i32 => Some(Format { r: 32, g: 32, b: 32, a: 0, ty: FormatType::SFloat, permutation: Permutation::Rgb }),
            107i32 => Some(Format { r: 32, g: 32, b: 32, a: 32, ty: FormatType::UInt, permutation: Permutation::Rgba }),
            108i32 => Some(Format { r: 32, g: 32, b: 32, a: 32, ty: FormatType::SInt, permutation: Permutation::Rgba }),
            109i32 => Some(Format { r: 32, g: 32, b: 32, a: 32, ty: FormatType::SFloat, permutation: Permutation::Rgba }),
            110i32 => Some(Format { r: 64, g: 0, b: 0, a: 0, ty: FormatType::UInt, permutation: Permutation::R }),
            111i32 => Some(Format { r: 64, g: 0, b: 0, a: 0, ty: FormatType::SInt, permutation: Permutation::R }),
            112i32 => Some(Format { r: 64, g: 0, b: 0, a: 0, ty: FormatType::SFloat, permutation: Permutation::R }),
            113i32 => Some(Format { r: 64, g: 64, b: 0, a: 0, ty: FormatType::UInt, permutation: Permutation::Rg }),
            114i32 => Some(Format { r: 64, g: 64, b: 0, a: 0, ty: FormatType::SInt, permutation: Permutation::Rg }),
            115i32 => Some(Format { r: 64, g: 64, b: 0, a: 0, ty: FormatType::SFloat, permutation: Permutation::Rg }),
            116i32 => Some(Format { r: 64, g: 64, b: 64, a: 0, ty: FormatType::UInt, permutation: Permutation::Rgb }),
            117i32 => Some(Format { r: 64, g: 64, b: 64, a: 0, ty: FormatType::SInt, permutation: Permutation::Rgb }),
            118i32 => Some(Format { r: 64, g: 64, b: 64, a: 0, ty: FormatType::SFloat, permutation: Permutation::Rgb }),
            119i32 => Some(Format { r: 64, g: 64, b: 64, a: 64, ty: FormatType::UInt, permutation: Permutation::Rgba }),
            120i32 => Some(Format { r: 64, g: 64, b: 64, a: 64, ty: FormatType::SInt, permutation: Permutation::Rgba }),
            121i32 => Some(Format { r: 64, g: 64, b: 64, a: 64, ty: FormatType::SFloat, permutation: Permutation::Rgba }),
            122i32 => Some(Format { r: 11, g: 11, b: 10, a: 0, ty: FormatType::UFloat, permutation: Permutation::Bgr }),
            123i32 => Some(Format { r: 9, g: 9, b: 9, a: 5, ty: FormatType::UFloat, permutation: Permutation::Ebgr }),
            124i32 => Some(Format { r: 16, g: 0, b: 0, a: 0, ty: FormatType::UNorm, permutation: Permutation::D }),
            125i32 => Some(Format { r: 24, g: 0, b: 0, a: 0, ty: FormatType::UNorm, permutation: Permutation::D }),
            126i32 => Some(Format { r: 32, g: 0, b: 0, a: 0, ty: FormatType::SFloat, permutation: Permutation::D }),
            127i32 => Some(Format { r: 8, g: 0, b: 0, a: 0, ty: FormatType::UInt, permutation: Permutation::S }),
            128i32 => Some(Format { r: 16, g: 0, b: 0, a: 0, ty: FormatType::UNorm, permutation: Permutation::Ds }),
            129i32 => Some(Format { r: 24, g: 0, b: 0, a: 0, ty: FormatType::UNorm, permutation: Permutation::Ds }),
            130i32 => Some(Format { r: 32, g: 0, b: 0, a: 0, ty: FormatType::SFloat, permutation: Permutation::Ds }),
            131i32 => Some(Format { r: 0, g: 0, b: 0, a: 0, ty: FormatType::UNorm, permutation: Permutation::Bc1Rgb }),
            132i32 => Some(Format { r: 0, g: 0, b: 0, a: 0, ty: FormatType::Srgb, permutation: Permutation::Bc1Rgb }),
            133i32 => Some(Format { r: 0, g: 0, b: 0, a: 0, ty: FormatType::UNorm, permutation: Permutation::Bc1Rgba }),
            134i32 => Some(Format { r: 0, g: 0, b: 0, a: 0, ty: FormatType::Srgb, permutation: Permutation::Bc1Rgba }),
            135i32 => Some(Format { r: 0, g: 0, b: 0, a: 0, ty: FormatType::UNorm, permutation: Permutation::Bc2 }),
            136i32 => Some(Format { r: 0, g: 0, b: 0, a: 0, ty: FormatType::Srgb, permutation: Permutation::Bc2 }),
            137i32 => Some(Format { r: 0, g: 0, b: 0, a: 0, ty: FormatType::UNorm, permutation: Permutation::Bc3 }),
            138i32 => Some(Format { r: 0, g: 0, b: 0, a: 0, ty: FormatType::Srgb, permutation: Permutation::Bc3 }),
            139i32 => Some(Format { r: 0, g: 0, b: 0, a: 0, ty: FormatType::UNorm, permutation: Permutation::Bc4 }),
            140i32 => Some(Format { r: 0, g: 0, b: 0, a: 0, ty: FormatType::SNorm, permutation: Permutation::Bc4 }),
            141i32 => Some(Format { r: 0, g: 0, b: 0, a: 0, ty: FormatType::UNorm, permutation: Permutation::Bc5 }),
            142i32 => Some(Format { r: 0, g: 0, b: 0, a: 0, ty: FormatType::SNorm, permutation: Permutation::Bc5 }),
            143i32 => Some(Format { r: 0, g: 0, b: 0, a: 0, ty: FormatType::UFloat, permutation: Permutation::Bc6h }),
            144i32 => Some(Format { r: 0, g: 0, b: 0, a: 0, ty: FormatType::SFloat, permutation: Permutation::Bc6h }),
            145i32 => Some(Format { r: 0, g: 0, b: 0, a: 0, ty: FormatType::UNorm, permutation: Permutation::Bc7 }),
            146i32 => Some(Format { r: 0, g: 0, b: 0, a: 0, ty: FormatType::Srgb, permutation: Permutation::Bc7 }),
            147i32 => Some(Format { r: 8, g: 8, b: 8, a: 0, ty: FormatType::UNorm, permutation: Permutation::Etc2Rgb }),
            148i32 => Some(Format { r: 8, g: 8, b: 8, a: 0, ty: FormatType::Srgb, permutation: Permutation::Etc2Rgb }),
            149i32 => Some(Format { r: 8, g: 8, b: 8, a: 1, ty: FormatType::UNorm, permutation: Permutation::Etc2Rgba }),
            150i32 => Some(Format { r: 8, g: 8, b: 8, a: 1, ty: FormatType::Srgb, permutation: Permutation::Etc2Rgba }),
            151i32 => Some(Format { r: 8, g: 8, b: 8, a: 8, ty: FormatType::UNorm, permutation: Permutation::Etc2Rgba }),
            152i32 => Some(Format { r: 8, g: 8, b: 8, a: 8, ty: FormatType::Srgb, permutation: Permutation::Etc2Rgba }),
            153i32 => Some(Format { r: 11, g: 0, b: 0, a: 0, ty: FormatType::UNorm, permutation: Permutation::EacR }),
            154i32 => Some(Format { r: 11, g: 0, b: 0, a: 0, ty: FormatType::SNorm, permutation: Permutation::EacR }),
            155i32 => Some(Format { r: 11, g: 11, b: 0, a: 0, ty: FormatType::UNorm, permutation: Permutation::EacRg }),
            156i32 => Some(Format { r: 11, g: 11, b: 0, a: 0, ty: FormatType::SNorm, permutation: Permutation::EacRg }),
            157i32 => Some(Format { r: 0, g: 0, b: 0, a: 0, ty: FormatType::UNorm, permutation: Permutation::Astc { x: 4, y: 4 } }),
            158i32 => Some(Format { r: 0, g: 0, b: 0, a: 0, ty: FormatType::Srgb, permutation: Permutation::Astc { x: 4, y: 4 } }),
            159i32 => Some(Format { r: 0, g: 0, b: 0, a: 0, ty: FormatType::UNorm, permutation: Permutation::Astc { x: 5, y: 4 } }),
            160i32 => Some(Format { r: 0, g: 0, b: 0, a: 0, ty: FormatType::Srgb, permutation: Permutation::Astc { x: 5, y: 4 } }),
            161i32 => Some(Format { r: 0, g: 0, b: 0, a: 0, ty: FormatType::UNorm, permutation: Permutation::Astc { x: 5, y: 5 } }),
            162i32 => Some(Format { r: 0, g: 0, b: 0, a: 0, ty: FormatType::Srgb, permutation: Permutation::Astc { x: 5, y: 5 } }),
            163i32 => Some(Format { r: 0, g: 0, b: 0, a: 0, ty: FormatType::UNorm, permutation: Permutation::Astc { x: 6, y: 5 } }),
            164i32 => Some(Format { r: 0, g: 0, b: 0, a: 0, ty: FormatType::Srgb, permutation: Permutation::Astc { x: 6, y: 5 } }),
            165i32 => Some(Format { r: 0, g: 0, b: 0, a: 0, ty: FormatType::UNorm, permutation: Permutation::Astc { x: 6, y: 6 } }),
            166i32 => Some(Format { r: 0, g: 0, b: 0, a: 0, ty: FormatType::Srgb, permutation: Permutation::Astc { x: 6, y: 6 } }),
            167i32 => Some(Format { r: 0, g: 0, b: 0, a: 0, ty: FormatType::UNorm, permutation: Permutation::Astc { x: 8, y: 5 } }),
            168i32 => Some(Format { r: 0, g: 0, b: 0, a: 0, ty: FormatType::Srgb, permutation: Permutation::Astc { x: 8, y: 5 } }),
            169i32 => Some(Format { r: 0, g: 0, b: 0, a: 0, ty: FormatType::UNorm, permutation: Permutation::Astc { x: 8, y: 6 } }),
            170i32 => Some(Format { r: 0, g: 0, b: 0, a: 0, ty: FormatType::Srgb, permutation: Permutation::Astc { x: 8, y: 6 } }),
            171i32 => Some(Format { r: 0, g: 0, b: 0, a: 0, ty: FormatType::UNorm, permutation: Permutation::Astc { x: 8, y: 8 } }),
            172i32 => Some(Format { r: 0, g: 0, b: 0, a: 0, ty: FormatType::Srgb, permutation: Permutation::Astc { x: 8, y: 8 } }),
            173i32 => Some(Format { r: 0, g: 0, b: 0, a: 0, ty: FormatType::UNorm, permutation: Permutation::Astc { x: 10, y: 5 } }),
            174i32 => Some(Format { r: 0, g: 0, b: 0, a: 0, ty: FormatType::Srgb, permutation: Permutation::Astc { x: 10, y: 5 } }),
            175i32 => Some(Format { r: 0, g: 0, b: 0, a: 0, ty: FormatType::UNorm, permutation: Permutation::Astc { x: 10, y: 6 } }),
            176i32 => Some(Format { r: 0, g: 0, b: 0, a: 0, ty: FormatType::Srgb, permutation: Permutation::Astc { x: 10, y: 6 } }),
            177i32 => Some(Format { r: 0, g: 0, b: 0, a: 0, ty: FormatType::UNorm, permutation: Permutation::Astc { x: 10, y: 8 } }),
            178i32 => Some(Format { r: 0, g: 0, b: 0, a: 0, ty: FormatType::Srgb, permutation: Permutation::Astc { x: 10, y: 8 } }),
            179i32 => Some(Format { r: 0, g: 0, b: 0, a: 0, ty: FormatType::UNorm, permutation: Permutation::Astc { x: 10, y: 10 } }),
            180i32 => Some(Format { r: 0, g: 0, b: 0, a: 0, ty: FormatType::Srgb, permutation: Permutation::Astc { x: 10, y: 10 } }),
            181i32 => Some(Format { r: 0, g: 0, b: 0, a: 0, ty: FormatType::UNorm, permutation: Permutation::Astc { x: 12, y: 10 } }),
            182i32 => Some(Format { r: 0, g: 0, b: 0, a: 0, ty: FormatType::Srgb, permutation: Permutation::Astc { x: 12, y: 10 } }),
            183i32 => Some(Format { r: 0, g: 0, b: 0, a: 0, ty: FormatType::UNorm, permutation: Permutation::Astc { x: 12, y: 12 } }),
            184i32 => Some(Format { r: 0, g: 0, b: 0, a: 0, ty: FormatType::Srgb, permutation: Permutation::Astc { x: 12, y: 12 } }),
            0i32 => Some(Format { r: 0, g: 0, b: 0, a: 0, ty: FormatType::SFloat, permutation: Permutation::Ds }),
            _ => None,
        }
    }
}

/// A colour space: its primaries family and whether its encoding is
/// linear.
#[derive(Clone, Copy, Debug, PartialEq, Eq, Structural)]
pub struct ColorSpace {
    pub ty: ColorSpaceType,
    pub linear: bool,
}

/// The primaries family of a colour space.
#[derive(Clone, Copy, Debug, PartialEq, Eq, Structural)]
pub enum ColorSpaceType {
    Srgb,
    DisplayP3,
    DciP3,
    ExtendedSrgb,
    Bt709,
    Hdr10St2084,
    DolbyVision,
    Hdr10Hlg,
    AdobeRgb,
}

/// The colour space of each known driver colour-space code.
pub open spec fn color_space_from_code_spec(code: i32) -> Option<ColorSpace> {
    match code {
        0i32 => Some(ColorSpace { ty: ColorSpaceType::Srgb, linear: false }),
        1000104001i32 => Some(ColorSpace { ty: ColorSpaceType::DisplayP3, linear: false }),
        1000104002i32 => Some(ColorSpace { ty: ColorSpaceType::ExtendedSrgb, linear: true }),
        1000104003i32 => Some(ColorSpace { ty: ColorSpaceType::DisplayP3, linear: true }),
        1000104004i32 => Some(ColorSpace { ty: ColorSpaceType::DciP3, linear: false }),
        1000104005i32 => Some(ColorSpace { ty: ColorSpaceType::Bt709, linear: true }),
        1000104006i32 => Some(ColorSpace { ty: ColorSpaceType::Bt709, linear: false }),
        1000104008i32 => Some(ColorSpace { ty: ColorSpaceType::Hdr10St2084, linear: true }),
        1000104009i32 => Some(ColorSpace { ty: ColorSpaceType::DolbyVision, linear: true }),
        1000104010i32 => Some(ColorSpace { ty: ColorSpaceType::Hdr10Hlg, linear: true }),
        1000104011i32 => Some(ColorSpace { ty: ColorSpaceType::AdobeRgb, linear: true }),
        1000104012i32 => Some(ColorSpace { ty: ColorSpaceType::AdobeRgb, linear: false }),
        1000104014i32 => Some(ColorSpace { ty: ColorSpaceType::ExtendedSrgb, linear: false }),
        _ => None,
    }
}

/// The transfer function a colour space applies: linear spaces use the
/// identity; otherwise the primaries family picks its curve.
pub open spec fn transfer_function_spec(cs: ColorSpace) -> ColorSpaceTransferFunction {
    if cs.linear {
        ColorSpaceTransferFunction::Linear
    } else {
        match cs.ty {
            ColorSpaceType::Srgb => ColorSpaceTransferFunction::Srgb,
            ColorSpaceType::DisplayP3 => ColorSpaceTransferFunction::DisplayP3,
            ColorSpaceType::DciP3 => ColorSpaceTransferFunction::DciP3,
            ColorSpaceType::ExtendedSrgb => ColorSpaceTransferFunction::Srgb,
            ColorSpaceType::Bt709 => ColorSpaceTransferFunction::Itu,
            ColorSpaceType::Hdr10St2084 => ColorSpaceTransferFunction::St2084Pq,
            ColorSpaceType::DolbyVision => ColorSpaceTransferFunction::St2084Pq,
            ColorSpaceType::Hdr10Hlg => ColorSpaceTransferFunction::Hlg,
            ColorSpaceType::AdobeRgb => ColorSpaceTransferFunction::AdobeRgb,
        }
    }
}

impl ColorSpace {
    /// Classifies a driver colour-space code.
    pub fn from_code(code: i32) -> (r: Option<ColorSpace>)
        ensures
            r == color_space_from_code_spec(code),
    {
        match code {
            0i32 => Some(ColorSpace { ty: ColorSpaceType::Srgb, linear: false }),
            1000104001i32 => Some(ColorSpace { ty: ColorSpaceType::DisplayP3, linear: false }),
            1000104002i32 => Some(ColorSpace { ty: ColorSpaceType::ExtendedSrgb, linear: true }),
            1000104003i32 => Some(ColorSpace { ty: ColorSpaceType::DisplayP3, linear: true }),
            1000104004i32 => Some(ColorSpace { ty: ColorSpaceType::DciP3, linear: false }),
            1000104005i32 => Some(ColorSpace { ty: ColorSpaceType::Bt709, linear: true }),
            1000104006i32 => Some(ColorSpace { ty: ColorSpaceType::Bt709, linear: false }),
            1000104008i32 => Some(ColorSpace { ty: ColorSpaceType::Hdr10St2084, linear: true }),
            1000104009i32 => Some(ColorSpace { ty: ColorSpaceType::DolbyVision, linear: true }),
            1000104010i32 => Some(ColorSpace { ty: ColorSpaceType::Hdr10Hlg, linear: true }),
            1000104011i32 => Some(ColorSpace { ty: ColorSpaceType::AdobeRgb, linear: true }),
            1000104012i32 => Some(ColorSpace { ty: ColorSpaceType::AdobeRgb, linear: false }),
            1000104014i32 => Some(ColorSpace { ty: ColorSpaceType::ExtendedSrgb, linear: false }),
            _ => None,
        }
    }

    /// The opto-electronic transfer function of the colour space.
    pub fn transfer_function(&self) -> (r: ColorSpaceTransferFunction)
        ensures
            r == transfer_function_spec(*self),
    {
        if self.linear {
            return ColorSpaceTransferFunction::Linear;
        }
        match self.ty {
            ColorSpaceType::Srgb => ColorSpaceTransferFunction::Srgb,
            ColorSpaceType::DisplayP3 => ColorSpaceTransferFunction::DisplayP3,
            ColorSpaceType::DciP3 => ColorSpaceTransferFunction::DciP3,
            ColorSpaceType::ExtendedSrgb => ColorSpaceTransferFunction::Srgb,
            ColorSpaceType::Bt709 => ColorSpaceTransferFunction::Itu,
            ColorSpaceType::Hdr10St2084 => ColorSpaceTransferFunction::St2084Pq,
            ColorSpaceType::DolbyVision => ColorSpaceTransferFunction::St2084Pq,
            ColorSpaceType::Hdr10Hlg => ColorSpaceTransferFunction::Hlg,
            ColorSpaceType::AdobeRgb => ColorSpaceTransferFunction::AdobeRgb,
        }
    }
}

/// Known opto-electronic transfer functions.
#[derive(Clone, Copy, Debug, PartialEq, Eq, Structural)]
pub enum ColorSpaceTransferFunction {
    Linear,
    DciP3,
    DisplayP3,
    Itu,
    Srgb,
    St2084Pq,
    Hlg,
    AdobeRgb,
}

impl ColorSpaceTransferFunction {
    /// The shader define naming this transfer function.
    pub fn to_str(&self) -> (r: &'static str)
        ensures
            self is Linear ==> r@ == "OETF_LINEAR"@,
            self is DciP3 ==> r@ == "OETF_DCI_P3"@,
            self is DisplayP3 ==> r@ == "OETF_DISPLAY_P3"@,
            self is Itu ==> r@ == "OETF_ITU"@,
            self is Srgb ==> r@ == "OETF_SRGB"@,
            self is St2084Pq ==> r@ == "OETF_ST2084_PQ"@,
            self is Hlg ==> r@ == "OETF_HLG"@,
            self is AdobeRgb ==> r@ == "OETF_ADOBE_RGB"@,
    {
        match self {
            ColorSpaceTransferFunction::Linear => "OETF_LINEAR",
            ColorSpaceTransferFunction::DciP3 => "OETF_DCI_P3",
            ColorSpaceTransferFunction::DisplayP3 => "OETF_DISPLAY_P3",
            ColorSpaceTransferFunction::Itu => "OETF_ITU",
            ColorSpaceTransferFunction::Srgb => "OETF_SRGB",
            ColorSpaceTransferFunction::St2084Pq => "OETF_ST2084_PQ",
            ColorSpaceTransferFunction::Hlg => "OETF_HLG",
            ColorSpaceTransferFunction::AdobeRgb => "OETF_ADOBE_RGB",
        }
    }
}

} // verus!
