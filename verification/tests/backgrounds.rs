use ferrink::background::{
    bounded_pixel_count, shade_background, JacquardError, JacquardPreset,
    LauncherBackgroundChoice, LauncherBackgroundFileName,
};
use ferrink::framebuffer::Rgb8Pixel;
use ferrink::images::{JACQUARD_HEIGHT, JACQUARD_WIDTH};

const TAU: f32 = std::f32::consts::TAU;
const THRESHOLD: f32 = -0.12;
const ROUNDED_WEIGHT: f32 = 0.28;
const DIAGONAL_WEIGHT: f32 = -0.10;
const SUBPIXEL_OFFSETS: [f32; 2] = [0.25, 0.75];

fn period_and_bend(preset: JacquardPreset) -> (f32, f32) {
    match preset {
        JacquardPreset::Original => (150.0, 0.42),
        JacquardPreset::Calm => (220.0, 0.28),
        JacquardPreset::Upholstery => (110.0, 0.42),
        JacquardPreset::EinkCalm => (220.0, 0.28),
    }
}

fn samples(extent: u32, preset: JacquardPreset) -> Vec<[f32; 7]> {
    let (period, bend) = period_and_bend(preset);
    (0..extent)
        .flat_map(|pixel| SUBPIXEL_OFFSETS.map(move |offset| pixel as f32 + offset))
        .map(|coordinate| {
            let u = TAU * coordinate / period;
            let (sin_u, cos_u) = u.sin_cos();
            let (sin_2u, cos_2u) = (u * 2.0).sin_cos();
            let (sin_3u, cos_3u) = (u * 3.0).sin_cos();
            let (sin_bend, cos_bend) = (bend * sin_2u).sin_cos();
            [sin_u, cos_u, cos_2u, sin_3u, cos_3u, sin_bend, cos_bend]
        })
        .collect()
}

fn field(x: [f32; 7], y: [f32; 7]) -> f32 {
    let horizontal = x[1] * y[6] - x[0] * y[5];
    let vertical = y[1] * x[6] + y[0] * x[5];
    let rounded = ROUNDED_WEIGHT * (x[2] + y[2]);
    let diagonal = DIAGONAL_WEIGHT * (x[4] * y[4] + x[3] * y[3]);
    horizontal * vertical + rounded + diagonal
}

fn render_jacquard_background(
    width: u32,
    height: u32,
    preset: JacquardPreset,
) -> Result<Vec<Rgb8Pixel>, JacquardError> {
    bounded_pixel_count(width, height)?;
    let columns = samples(width, preset);
    let rows = samples(height, preset);
    let mut coverage = Vec::new();
    for y in rows.chunks_exact(2) {
        for x in columns.chunks_exact(2) {
            let mut covered = 0;
            for y_sample in y {
                for x_sample in x {
                    covered += u8::from(field(*x_sample, *y_sample) > THRESHOLD);
                }
            }
            coverage.push(covered);
        }
    }
    shade_background(width, height, preset, &coverage)
}

#[test]
fn every_preset_is_deterministic_and_strictly_two_tone() {
    for preset in JacquardPreset::ALL {
        let first = render_jacquard_background(96, 128, preset).unwrap();
        let second = render_jacquard_background(96, 128, preset).unwrap();
        assert_eq!(first, second);

        let dark = preset.dark();
        let light = preset.light();
        assert!(first.contains(&dark));
        assert!(first.contains(&light));
        assert!(
            first
                .as_slice()
                .iter()
                .all(|pixel| *pixel == dark || *pixel == light)
        );
    }
}

#[test]
fn dimensions_are_bounded_before_allocation() {
    assert!(matches!(
        render_jacquard_background(0, 1, JacquardPreset::Original),
        Err(JacquardError::EmptyDimensions)
    ));
    assert!(matches!(
        render_jacquard_background(u32::MAX, u32::MAX, JacquardPreset::Original),
        Err(JacquardError::TooManyPixels)
    ));
    assert!(matches!(
        render_jacquard_background(2_049, 2_048, JacquardPreset::Original),
        Err(JacquardError::TooManyPixels)
    ));
}

#[test]
fn compact_launcher_buffer_has_the_expected_memory_footprint() {
    let background =
        render_jacquard_background(JACQUARD_WIDTH, JACQUARD_HEIGHT, JacquardPreset::Calm)
            .unwrap();
    assert_eq!(background.len() * 3, 1_598_328);
}

#[test]
fn eink_calm_tones_survive_four_bit_grayscale_quantization() {
    let background = render_jacquard_background(96, 128, JacquardPreset::EinkCalm).unwrap();
    let mut levels: Vec<_> = background
        .iter()
        .map(|pixel| {
            let luminance = (77 * u16::from(pixel.red)
                + 150 * u16::from(pixel.green)
                + 29 * u16::from(pixel.blue)
                + 128)
                >> 8;
            luminance >> 4
        })
        .collect();
    levels.sort_unstable();
    levels.dedup();
    assert_eq!(levels, [2, 4]);
}

#[test]
fn background_choice_accepts_only_safe_png_basenames() {
    assert!(LauncherBackgroundFileName::parse("family-art.png").is_some());
    assert!(LauncherBackgroundFileName::parse("../art.png").is_none());
    assert!(LauncherBackgroundFileName::parse("nested/art.png").is_none());
    assert!(LauncherBackgroundFileName::parse(".hidden.png").is_none());
    assert!(LauncherBackgroundFileName::parse("art.jpg").is_none());
    assert_eq!(
        LauncherBackgroundChoice::from_setting_value("file:topography.png")
            .and_then(|choice| choice.filename().cloned())
            .map(|filename| filename.as_str().to_owned()),
        Some("topography.png".to_owned())
    );
    assert_eq!(LauncherBackgroundChoice::from_setting_value("wave"), None);
}

#[test]
fn background_labels_and_settings_are_stable() {
    for (value, label, setting) in [
        ("pattern", "Pattern", "pattern"),
        ("waves", "Waves", "file:waves.png"),
        ("topography", "Topography", "file:topography.png"),
        ("file:old_sea-view.png", "Old sea view", "file:old_sea-view.png"),
        ("file:9.png", "9", "file:9.png"),
    ] {
        let choice = LauncherBackgroundChoice::from_setting_value(value).unwrap();
        assert_eq!(choice.label(), label);
        assert_eq!(choice.setting_value(), setting);
        assert_eq!(
            LauncherBackgroundChoice::from_setting_value(&choice.setting_value()),
            Some(choice)
        );
    }
    let longest = format!("{}.png", "a".repeat(60));
    assert!(LauncherBackgroundFileName::parse(&longest).is_some());
    let longer = format!("{}.png", "a".repeat(61));
    assert!(LauncherBackgroundFileName::parse(&longer).is_none());
    assert!(LauncherBackgroundFileName::parse(".png").is_none());
}

#[test]
fn covered_pixels_are_light_wherever_they_stand() {
    for preset in JacquardPreset::ALL {
        let empty = shade_background(8, 8, preset, &[0; 64]).unwrap();
        assert!(empty.iter().all(|pixel| *pixel == preset.dark()));
        let full = shade_background(8, 8, preset, &[4; 64]).unwrap();
        assert!(full.iter().all(|pixel| *pixel == preset.light()));
        let half = shade_background(8, 8, preset, &[2; 64]).unwrap();
        let lit = half.iter().filter(|pixel| **pixel == preset.light()).count();
        assert_eq!(lit, 32);
    }
    assert_eq!(
        JacquardError::EmptyDimensions.message(),
        "jacquard dimensions must be nonzero"
    );
    assert_eq!(
        JacquardError::TooManyPixels.message(),
        "jacquard dimensions exceed the pixel bound"
    );
    assert_eq!(JacquardPreset::EinkCalm.slug(), "eink-calm");
}
