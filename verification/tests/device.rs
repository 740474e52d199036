use rhyolite::accel::{align_scratch_size, plan_blas_ranges, BLASBuildGeometry, GeometryKind};
use rhyolite::error::SchedulerError;
use rhyolite::extension::{extension_action, ExtensionAction, FeatureEnableResult, Version};
use rhyolite::format::{
    ColorSpace, ColorSpaceTransferFunction, ColorSpaceType, Format, FormatType, Permutation,
};
use rhyolite::queue::{
    queue_family_of_type, QueueType, QueuesRouter, QUEUE_COMPUTE, QUEUE_GRAPHICS, QUEUE_TRANSFER,
};

#[test]
fn specialised_transfer_family_is_preferred() {
    // A general family and a transfer-only family: transfer picks the
    // specialised one, graphics the general one.
    let families = vec![
        QUEUE_GRAPHICS | QUEUE_COMPUTE | QUEUE_TRANSFER,
        QUEUE_TRANSFER,
        QUEUE_COMPUTE | QUEUE_TRANSFER,
    ];
    assert_eq!(queue_family_of_type(&families, QueueType::Graphics), Ok(0));
    assert_eq!(queue_family_of_type(&families, QueueType::Compute), Ok(2));
    assert_eq!(queue_family_of_type(&families, QueueType::Transfer), Ok(1));
}

#[test]
fn missing_capability_reports_no_compatible_queue() {
    let families = vec![QUEUE_TRANSFER];
    assert_eq!(
        queue_family_of_type(&families, QueueType::Graphics),
        Err(SchedulerError::NoCompatibleQueue)
    );
    assert!(QueuesRouter::find_with_queue_family_properties(&families).is_err());
}

#[test]
fn router_selects_one_family_per_capability() {
    let families = vec![QUEUE_GRAPHICS | QUEUE_COMPUTE | QUEUE_TRANSFER, QUEUE_TRANSFER];
    let router = QueuesRouter::find_with_queue_family_properties(&families).unwrap();
    assert_eq!(router.queue_family_of_type(QueueType::Graphics), 0);
    assert_eq!(router.queue_family_of_type(QueueType::Transfer), 1);
}

#[test]
fn version_packs_and_unpacks() {
    let v = Version::make(0, 1, 3, 281);
    assert_eq!(v.major(), 1);
    assert_eq!(v.minor(), 3);
    assert_eq!(v.patch(), 281);
    assert!(Version::make(0, 1, 3, 0).0 < Version::make(0, 1, 4, 0).0);
}

#[test]
fn extension_decisions() {
    // Promoted to a core version the instance has: nothing to enable.
    let v12 = Version::make(0, 1, 2, 0).0;
    let v13 = Version::make(0, 1, 3, 0).0;
    assert_eq!(extension_action(false, Some(v12), v13), Ok(ExtensionAction::AlreadyCore));
    // Not promoted far enough, but available: enable it.
    assert_eq!(extension_action(true, Some(v13), v12), Ok(ExtensionAction::Enable));
    assert_eq!(extension_action(true, None, v12), Ok(ExtensionAction::Enable));
    // Neither promoted nor available.
    assert_eq!(extension_action(false, None, v13), Err(SchedulerError::ExtensionMissing));
}

#[test]
fn feature_enable_result_reports_success() {
    assert!(FeatureEnableResult::Success.is_success());
    assert!(!FeatureEnableResult::NotFound.is_success());
    FeatureEnableResult::Success.unwrap();
}

#[test]
fn format_classification_matches_the_driver_codes() {
    // 43 = R8G8B8A8_SRGB
    assert_eq!(
        Format::from_code(43),
        Some(Format { r: 8, g: 8, b: 8, a: 8, ty: FormatType::Srgb, permutation: Permutation::Rgba })
    );
    // 44 = B8G8R8A8_UNORM
    assert_eq!(
        Format::from_code(44),
        Some(Format {
            r: 8,
            g: 8,
            b: 8,
            a: 8,
            ty: FormatType::UNorm,
            permutation: Permutation::Bgra
        })
    );
    // 109 = R32G32B32A32_SFLOAT
    assert_eq!(
        Format::from_code(109),
        Some(Format {
            r: 32,
            g: 32,
            b: 32,
            a: 32,
            ty: FormatType::SFloat,
            permutation: Permutation::Rgba
        })
    );
    // 129 = D24_UNORM_S8_UINT
    assert_eq!(
        Format::from_code(129),
        Some(Format { r: 24, g: 0, b: 0, a: 0, ty: FormatType::UNorm, permutation: Permutation::Ds })
    );
    // 170 = an 8x6 adaptive block compressed sRGB format
    assert_eq!(
        Format::from_code(170),
        Some(Format {
            r: 0,
            g: 0,
            b: 0,
            a: 0,
            ty: FormatType::Srgb,
            permutation: Permutation::Astc { x: 8, y: 6 }
        })
    );
    assert_eq!(Format::from_code(-5), None);
}

#[test]
fn colour_space_classification_and_transfer_functions() {
    // 0 = SRGB_NONLINEAR
    let srgb = ColorSpace::from_code(0).unwrap();
    assert_eq!(srgb, ColorSpace { ty: ColorSpaceType::Srgb, linear: false });
    assert_eq!(srgb.transfer_function(), ColorSpaceTransferFunction::Srgb);
    // 1000104002 = EXTENDED_SRGB_LINEAR_EXT
    let ext = ColorSpace::from_code(1000104002).unwrap();
    assert_eq!(ext, ColorSpace { ty: ColorSpaceType::ExtendedSrgb, linear: true });
    assert_eq!(ext.transfer_function(), ColorSpaceTransferFunction::Linear);
    // 1000104008 = HDR10_ST2084_EXT (classified as linear, so the
    // identity transfer applies to the classified value)
    let hdr = ColorSpace::from_code(1000104008).unwrap();
    assert_eq!(hdr.ty, ColorSpaceType::Hdr10St2084);
    assert_eq!(hdr.transfer_function(), ColorSpaceTransferFunction::Linear);
    // A non-linear PQ space uses the perceptual quantizer curve.
    let pq = ColorSpace { ty: ColorSpaceType::Hdr10St2084, linear: false };
    assert_eq!(pq.transfer_function(), ColorSpaceTransferFunction::St2084Pq);
    assert_eq!(ColorSpace::from_code(123456), None);
}

#[test]
fn transfer_function_names() {
    assert_eq!(ColorSpaceTransferFunction::Linear.to_str(), "OETF_LINEAR");
    assert_eq!(ColorSpaceTransferFunction::Srgb.to_str(), "OETF_SRGB");
    assert_eq!(ColorSpaceTransferFunction::St2084Pq.to_str(), "OETF_ST2084_PQ");
    assert_eq!(ColorSpaceTransferFunction::Hlg.to_str(), "OETF_HLG");
    assert_eq!(ColorSpaceTransferFunction::AdobeRgb.to_str(), "OETF_ADOBE_RGB");
    assert_eq!(ColorSpaceTransferFunction::DciP3.to_str(), "OETF_DCI_P3");
    assert_eq!(ColorSpaceTransferFunction::DisplayP3.to_str(), "OETF_DISPLAY_P3");
    assert_eq!(ColorSpaceTransferFunction::Itu.to_str(), "OETF_ITU");
}

#[test]
fn blas_ranges_pack_transform_offsets() {
    let gs = vec![
        BLASBuildGeometry::Triangles {
            vertex_format: 106,
            vertex_address: 0x1000,
            vertex_stride: 12,
            max_vertex: 35,
            index_type: 0,
            index_address: 0x2000,
            has_transform: true,
            flags: 0,
            primitive_count: 12,
        },
        BLASBuildGeometry::Aabbs { address: 0x3000, stride: 24, flags: 0, primitive_count: 4 },
        BLASBuildGeometry::Triangles {
            vertex_format: 106,
            vertex_address: 0x4000,
            vertex_stride: 12,
            max_vertex: 9,
            index_type: 0,
            index_address: 0x5000,
            has_transform: true,
            flags: 0,
            primitive_count: 3,
        },
    ];
    assert_eq!(gs[0].kind(), GeometryKind::Triangles);
    assert_eq!(gs[1].kind(), GeometryKind::Aabbs);
    let (ranges, transforms) = plan_blas_ranges(&gs);
    assert_eq!(transforms, 2);
    assert_eq!(ranges.len(), 3);
    assert_eq!(ranges[0].primitive_count, 12);
    assert_eq!(ranges[0].transform_offset, 0);
    assert_eq!(ranges[1].primitive_count, 4);
    assert_eq!(ranges[1].transform_offset, 0);
    assert_eq!(ranges[2].primitive_count, 3);
    assert_eq!(ranges[2].transform_offset, 1);
}

#[test]
fn scratch_sizes_round_up_to_alignment() {
    assert_eq!(align_scratch_size(0, 128), 0);
    assert_eq!(align_scratch_size(1, 128), 128);
    assert_eq!(align_scratch_size(128, 128), 128);
    assert_eq!(align_scratch_size(129, 128), 256);
}
