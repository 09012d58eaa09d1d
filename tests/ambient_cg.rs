use bevy_ambient_cg::error::{AmbientCGErrorType, AmbientCGImportError};
use bevy_ambient_cg::image_io::GrayscaleImage;
use bevy_ambient_cg::material::{AmbientCGConfig, AmbientCGMaterial};
use bevy_ambient_cg::naming::{ChannelPaths, TextureChannel};
use bevy_ambient_cg::packing::{
    create_roughness_metallic_image, load_grayscale_image, plan_textures, ChannelPresence,
    TextureSource,
};
use bevy_ambient_cg::resolution::AmbientCGResolution;
use bevy_ambient_cg::resolution::AmbientCGResolution::{
    EightK, FourK, OneK, SixteenK, TwelveK, TwoK,
};

fn bricks(resolution: AmbientCGResolution) -> AmbientCGMaterial {
    AmbientCGMaterial { name: "Bricks001".to_string(), resolution, subfolder: None }
}

fn paths() -> ChannelPaths {
    ChannelPaths {
        occlusion: "ao.jpg".to_string(),
        base_color: "color.jpg".to_string(),
        displacement: "disp.jpg".to_string(),
        metalness: "metal.jpg".to_string(),
        normal: "normal.jpg".to_string(),
        roughness: "rough.jpg".to_string(),
    }
}

fn presence(metalness: bool, roughness: bool) -> ChannelPresence {
    ChannelPresence {
        occlusion: true,
        base_color: true,
        displacement: false,
        metalness,
        normal: true,
        roughness,
    }
}

fn gray(width: u32, height: u32, samples: Vec<u8>) -> GrayscaleImage {
    GrayscaleImage { width, height, samples }
}

fn no_smaller_tier() -> AmbientCGImportError {
    AmbientCGImportError(AmbientCGErrorType::NoSmallerTier)
}

#[test]
fn next_smaller_steps_down_one_tier() {
    assert_eq!(TwoK.next_smaller(), Ok(OneK));
    assert_eq!(FourK.next_smaller(), Ok(TwoK));
    assert_eq!(EightK.next_smaller(), Ok(FourK));
    assert_eq!(TwelveK.next_smaller(), Ok(EightK));
    assert_eq!(SixteenK.next_smaller(), Ok(TwelveK));
}

#[test]
fn next_smaller_of_smallest_fails() {
    assert_eq!(AmbientCGResolution::OneK.next_smaller(), Err(no_smaller_tier()));
}

#[test]
fn tier_labels() {
    let labels: Vec<&str> = [OneK, TwoK, FourK, EightK, TwelveK, SixteenK]
        .iter()
        .map(|t| t.label())
        .collect();
    assert_eq!(labels, vec!["1K", "2K", "4K", "8K", "12K", "16K"]);
}

#[test]
fn default_tier_is_one_k() {
    assert_eq!(AmbientCGResolution::default(), AmbientCGResolution::OneK);
}

#[test]
fn default_config() {
    let config = AmbientCGConfig::default();
    assert_eq!(config.materials_path, "materials");
    assert!(config.resolution_negotiation);
}

#[test]
fn error_descriptions() {
    let e = no_smaller_tier();
    assert_eq!(e.kind(), AmbientCGErrorType::NoSmallerTier);
    assert_eq!(
        e.description(),
        "Could not find a smaller texture size than missing requested resolution"
    );
    assert_eq!(
        AmbientCGImportError(AmbientCGErrorType::DecodeFailure).description(),
        "Could not decode texture image"
    );
    assert_eq!(
        AmbientCGImportError(AmbientCGErrorType::DimensionMismatch).description(),
        "Roughness and metalness images must have the same dimensions"
    );
}

#[test]
fn stem_and_directory() {
    let config = AmbientCGConfig::default();
    let m = bricks(AmbientCGResolution::TwelveK);
    assert_eq!(m.stem(), "Bricks001_12K-JPG");
    assert_eq!(m.directory(&config), "materials/Bricks001_12K-JPG");
    let sub = AmbientCGMaterial {
        name: "Tiles002".to_string(),
        resolution: AmbientCGResolution::TwoK,
        subfolder: Some("floor/tiles".to_string()),
    };
    assert_eq!(sub.root(&config), "materials/floor/tiles");
    assert_eq!(sub.directory(&config), "materials/floor/tiles/Tiles002_2K-JPG");
}

#[test]
fn channel_paths_follow_naming_convention() {
    let config = AmbientCGConfig::default();
    let p = bricks(AmbientCGResolution::OneK).channel_paths(&config);
    let dir = "materials/Bricks001_1K-JPG/Bricks001_1K-JPG";
    assert_eq!(p.occlusion, format!("{}_AmbientOcclusion.jpg", dir));
    assert_eq!(p.base_color, format!("{}_Color.jpg", dir));
    assert_eq!(p.displacement, format!("{}_Displacement.jpg", dir));
    assert_eq!(p.metalness, format!("{}_Metalness.jpg", dir));
    assert_eq!(p.normal, format!("{}_NormalGL.jpg", dir));
    assert_eq!(p.roughness, format!("{}_Roughness.jpg", dir));
    assert_eq!(
        bricks(AmbientCGResolution::OneK).channel_path(&config, TextureChannel::Roughness),
        p.roughness
    );
}

#[test]
fn channel_paths_differ_across_tuples() {
    let config = AmbientCGConfig::default();
    let a = bricks(AmbientCGResolution::TwoK).channel_path(&config, TextureChannel::Color);
    let b = bricks(AmbientCGResolution::TwelveK).channel_path(&config, TextureChannel::Color);
    let c = AmbientCGMaterial {
        name: "Bricks001".to_string(),
        resolution: AmbientCGResolution::TwoK,
        subfolder: Some("x".to_string()),
    }
    .channel_path(&config, TextureChannel::Color);
    let d = bricks(AmbientCGResolution::TwoK).channel_path(&config, TextureChannel::NormalGL);
    let e = AmbientCGMaterial {
        name: "Bricks001_1".to_string(),
        resolution: AmbientCGResolution::TwoK,
        subfolder: None,
    }
    .channel_path(&config, TextureChannel::Color);
    let all = [&a, &b, &c, &d, &e];
    for i in 0..all.len() {
        for j in 0..all.len() {
            if i != j {
                assert_ne!(all[i], all[j]);
            }
        }
    }
}

#[test]
fn negotiation_falls_back_to_only_present_tier() {
    let r = bricks(AmbientCGResolution::SixteenK).negotiate_resolution(&vec![AmbientCGResolution::OneK]);
    let m = r.unwrap();
    assert_eq!(m.resolution, AmbientCGResolution::OneK);
    assert_eq!(m.name, "Bricks001");
    assert_eq!(m.subfolder, None);
}

#[test]
fn negotiation_fails_when_smallest_tier_missing() {
    let r = bricks(AmbientCGResolution::OneK).negotiate_resolution(&vec![]);
    assert_eq!(r.err(), Some(no_smaller_tier()));
}

#[test]
fn negotiation_keeps_present_tier() {
    let existing = vec![AmbientCGResolution::FourK, AmbientCGResolution::EightK];
    let m = bricks(AmbientCGResolution::EightK).negotiate_resolution(&existing).unwrap();
    assert_eq!(m.resolution, AmbientCGResolution::EightK);
    let again = m.negotiate_resolution(&existing).unwrap();
    assert_eq!(again.resolution, AmbientCGResolution::EightK);
}

#[test]
fn negotiation_stops_at_largest_present_below() {
    let existing = vec![OneK, FourK, SixteenK];
    assert_eq!(bricks(TwelveK).negotiate_resolution(&existing).unwrap().resolution, FourK);
    assert_eq!(bricks(TwoK).negotiate_resolution(&existing).unwrap().resolution, OneK);
    assert!(bricks(TwelveK).negotiate_resolution(&vec![SixteenK]).is_err());
}

#[test]
fn negotiation_keeps_name_and_subfolder() {
    let m = AmbientCGMaterial {
        name: "Wood010".to_string(),
        resolution: AmbientCGResolution::FourK,
        subfolder: Some("wood".to_string()),
    };
    let r = m.negotiate_resolution(&vec![AmbientCGResolution::TwoK]).unwrap();
    assert_eq!(r.name, "Wood010");
    assert_eq!(r.subfolder, Some("wood".to_string()));
    assert_eq!(r.resolution, AmbientCGResolution::TwoK);
}

#[test]
fn scenario_fallback_to_one_k_loads() {
    let config = AmbientCGConfig::default();
    let m = bricks(AmbientCGResolution::SixteenK)
        .resolve(&config, &vec![AmbientCGResolution::OneK])
        .unwrap();
    assert_eq!(m.resolution, AmbientCGResolution::OneK);
    let p = m.channel_paths(&config);
    assert_eq!(p.base_color, "materials/Bricks001_1K-JPG/Bricks001_1K-JPG_Color.jpg");
}

#[test]
fn scenario_missing_one_k_fails() {
    let config = AmbientCGConfig::default();
    let r = bricks(AmbientCGResolution::OneK).resolve(&config, &vec![]);
    assert_eq!(r.err(), Some(no_smaller_tier()));
}

#[test]
fn scenario_negotiation_disabled_reports_all_absent() {
    let config = AmbientCGConfig { materials_path: "materials".to_string(), resolution_negotiation: false };
    let m = bricks(AmbientCGResolution::EightK).resolve(&config, &vec![]).unwrap();
    assert_eq!(m.resolution, AmbientCGResolution::EightK);
    let none = ChannelPresence {
        occlusion: false,
        base_color: false,
        displacement: false,
        metalness: false,
        normal: false,
        roughness: false,
    };
    let t = plan_textures(m.channel_paths(&config), &none);
    assert_eq!(t.occlusion, TextureSource::Absent);
    assert_eq!(t.base_color, TextureSource::Absent);
    assert_eq!(t.thickness, TextureSource::Absent);
    assert_eq!(t.normal_map, TextureSource::Absent);
    assert_eq!(t.metallic_roughness, TextureSource::Absent);
}

#[test]
fn plan_both_present_synthesizes() {
    let t = plan_textures(paths(), &presence(true, true));
    assert_eq!(
        t.metallic_roughness,
        TextureSource::Combined { roughness: "rough.jpg".to_string(), metalness: "metal.jpg".to_string() }
    );
    assert_eq!(t.occlusion, TextureSource::Stored("ao.jpg".to_string()));
    assert_eq!(t.base_color, TextureSource::Stored("color.jpg".to_string()));
    assert_eq!(t.thickness, TextureSource::Absent);
    assert_eq!(t.normal_map, TextureSource::Stored("normal.jpg".to_string()));
}

#[test]
fn plan_metalness_only() {
    let t = plan_textures(paths(), &presence(true, false));
    assert_eq!(t.metallic_roughness, TextureSource::Stored("metal.jpg".to_string()));
}

#[test]
fn plan_roughness_only() {
    let t = plan_textures(paths(), &presence(false, true));
    assert_eq!(t.metallic_roughness, TextureSource::Stored("rough.jpg".to_string()));
}

#[test]
fn plan_neither() {
    let t = plan_textures(paths(), &presence(false, false));
    assert_eq!(t.metallic_roughness, TextureSource::Absent);
}

#[test]
fn combined_pixels_pack_roughness_then_metalness() {
    let rough = gray(2, 2, vec![10, 20, 30, 40]);
    let metal = gray(2, 2, vec![1, 2, 3, 4]);
    let img = create_roughness_metallic_image(&rough, &metal).unwrap();
    assert_eq!(img.width, 2);
    assert_eq!(img.height, 2);
    assert_eq!(img.pixels, vec![[0, 10, 1], [0, 20, 2], [0, 30, 3], [0, 40, 4]]);
}

#[test]
fn combined_width_mismatch_fails() {
    let rough = gray(2, 1, vec![1, 2]);
    let metal = gray(1, 2, vec![1, 2]);
    let r = create_roughness_metallic_image(&rough, &metal);
    assert_eq!(r.err(), Some(AmbientCGImportError(AmbientCGErrorType::DimensionMismatch)));
}

#[test]
fn combined_height_mismatch_fails() {
    let rough = gray(2, 2, vec![1, 2, 3, 4]);
    let metal = gray(2, 1, vec![1, 2]);
    let r = create_roughness_metallic_image(&rough, &metal);
    assert_eq!(r.err(), Some(AmbientCGImportError(AmbientCGErrorType::DimensionMismatch)));
}

#[test]
fn combined_empty_images() {
    let img = create_roughness_metallic_image(&gray(0, 0, vec![]), &gray(0, 0, vec![])).unwrap();
    assert!(img.pixels.is_empty());
}

#[test]
fn scenario_equal_512_maps_synthesize_one_map() {
    let n = 512 * 512;
    let rough: Vec<u8> = (0..n).map(|i| (i % 251) as u8).collect();
    let metal: Vec<u8> = (0..n).map(|i| (i % 13) as u8).collect();
    let t = plan_textures(paths(), &presence(true, true));
    assert!(matches!(t.metallic_roughness, TextureSource::Combined { .. }));
    let img = create_roughness_metallic_image(&gray(512, 512, rough.clone()), &gray(512, 512, metal.clone()))
        .unwrap();
    assert_eq!((img.width, img.height), (512, 512));
    assert_eq!(img.pixels.len(), n);
    let (x, y) = (300usize, 17usize);
    assert_eq!(img.pixels[y * 512 + x], [0, rough[y * 512 + x], metal[y * 512 + x]]);
}

#[test]
fn undecodable_bytes_fail() {
    let r = load_grayscale_image(&[1, 2, 3, 4, 5]);
    assert_eq!(r.err(), Some(AmbientCGImportError(AmbientCGErrorType::DecodeFailure)));
}

#[test]
fn decodes_jpeg_to_grayscale() {
    let rgb = image::RgbImage::from_pixel(8, 4, image::Rgb([200, 200, 200]));
    let mut bytes = std::io::Cursor::new(Vec::new());
    image::DynamicImage::ImageRgb8(rgb).write_to(&mut bytes, image::ImageFormat::Jpeg).unwrap();
    let encoded = bytes.into_inner();
    let g = load_grayscale_image(&encoded).unwrap();
    assert_eq!((g.width, g.height), (8, 4));
    assert_eq!(g.samples.len(), 32);
    assert!(g.samples.iter().all(|&s| (195..=205).contains(&s)));
}
