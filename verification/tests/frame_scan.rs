use frame_scan::classify::{apply_classification, classify, default_config, detect_targets, Config};
use frame_scan::color::{is_target, Rgb, Tolerance};
use frame_scan::frame::{frames_from_paths, Frame, FrameState};
use frame_scan::geometry::{pixel_ignored, Coordinate, Region};
use frame_scan::organize::{category_label, plan_outputs};
use frame_scan::raster::Image;

fn rect(x0: u32, y0: u32, x1: u32, y1: u32) -> Region {
    Region {
        top_left: Coordinate { x: x0, y: y0 },
        bottom_right: Coordinate { x: x1, y: y1 },
    }
}

fn rgb(r: u8, g: u8, b: u8) -> Rgb {
    Rgb { r, g, b }
}

fn tenth() -> Tolerance {
    Tolerance { num: 1, den: 10 }
}

fn target() -> Rgb {
    rgb(222, 35, 28)
}

fn path(segments: &[&str]) -> Vec<String> {
    segments.iter().map(|s| s.to_string()).collect()
}

/// A width x height image filled with `fill`, then overridden at the
/// given positions.
fn image_with(width: u32, height: u32, fill: Rgb, overrides: &[(u32, u32, Rgb)]) -> Image {
    let mut pixels = vec![fill; (width * height) as usize];
    for &(x, y, p) in overrides {
        pixels[(y * width + x) as usize] = p;
    }
    Image::new(width, height, pixels).unwrap()
}

fn config(regions: Vec<Region>) -> Config {
    Config {
        regions,
        target: target(),
        tolerance: tenth(),
    }
}

#[test]
fn region_contains_is_inclusive() {
    let r = rect(1, 1, 3, 3);
    assert!(r.contains(1, 1));
    assert!(r.contains(3, 3));
    assert!(r.contains(2, 3));
    assert!(!r.contains(0, 1));
    assert!(!r.contains(4, 3));
    assert!(!r.contains(2, 0));
    assert!(!r.contains(2, 4));
}

#[test]
fn region_with_reversed_corners_matches_nothing() {
    let r = rect(3, 3, 1, 1);
    assert!(!r.contains(2, 2));
    assert!(!r.contains(3, 3));
    assert!(!r.contains(1, 1));
}

#[test]
fn pixel_ignored_checks_every_region() {
    let regions = vec![rect(0, 0, 1, 1), rect(10, 10, 12, 12)];
    assert!(pixel_ignored(&regions, 0, 1));
    assert!(pixel_ignored(&regions, 11, 12));
    assert!(!pixel_ignored(&regions, 5, 5));
    assert!(!pixel_ignored(&vec![], 0, 0));
}

#[test]
fn exact_color_matches() {
    assert!(is_target(target(), target(), tenth()));
}

#[test]
fn exact_color_matches_under_tiny_tolerance() {
    let tiny = Tolerance { num: 1, den: 1_000_000 };
    assert!(is_target(target(), target(), tiny));
}

#[test]
fn channel_at_tolerance_bound_rejects() {
    // green differs by 4 and 10 * 4 >= 35, so the match fails even
    // though red and blue are exact
    assert!(!is_target(rgb(222, 39, 28), target(), tenth()));
    assert!(!is_target(rgb(222, 31, 28), target(), tenth()));
}

#[test]
fn red_channel_out_of_tolerance_rejects() {
    // red differs by 23 and 10 * 23 >= 222
    assert!(!is_target(rgb(199, 35, 28), target(), tenth()));
    assert!(!is_target(rgb(245, 35, 28), target(), tenth()));
}

#[test]
fn red_channel_within_tolerance_matches() {
    // red differs by 21 and 10 * 21 < 222, green and blue are exact
    assert!(is_target(rgb(201, 35, 28), target(), tenth()));
}

#[test]
fn zero_target_channel_admits_no_pixel() {
    let t = rgb(222, 35, 0);
    assert!(!is_target(t, t, tenth()));
}

#[test]
fn classify_finds_target_outside_regions() {
    // pixel (0, 0) would match but sits inside the declared region;
    // pixel (3, 3) is off in red; pixel (2, 2) matches exactly
    let img = image_with(
        4,
        4,
        rgb(0, 0, 0),
        &[(0, 0, target()), (3, 3, rgb(200, 35, 28)), (2, 2, target())],
    );
    let cfg = config(vec![rect(0, 0, 0, 0)]);
    let state = classify(&img, &cfg);
    assert!(matches!(state, FrameState::Targets));
}

#[test]
fn classify_never_matches_inside_regions() {
    // the only matching pixel lies inside the declared region
    let img = image_with(4, 4, rgb(0, 0, 0), &[(0, 0, target())]);
    let cfg = config(vec![rect(0, 0, 0, 0)]);
    let state = classify(&img, &cfg);
    assert!(matches!(state, FrameState::NoTargets));
}

#[test]
fn classify_fully_excluded_image_has_no_targets() {
    // every pixel matches the target color, and every pixel is excluded
    let img = image_with(2, 2, target(), &[]);
    let cfg = config(vec![rect(0, 0, 1, 1)]);
    let state = classify(&img, &cfg);
    assert!(matches!(state, FrameState::NoTargets));
}

#[test]
fn classify_empty_region_table_scans_everything() {
    let img = image_with(2, 2, rgb(0, 0, 0), &[(1, 1, target())]);
    let cfg = config(vec![]);
    assert!(matches!(classify(&img, &cfg), FrameState::Targets));
    let blank = image_with(2, 2, rgb(0, 0, 0), &[]);
    assert!(matches!(classify(&blank, &cfg), FrameState::NoTargets));
}

#[test]
fn classify_twice_gives_the_same_verdict() {
    let img = image_with(3, 3, rgb(7, 7, 7), &[(1, 2, target())]);
    let cfg = config(vec![rect(2, 2, 2, 2)]);
    let first = classify(&img, &cfg);
    let second = classify(&img, &cfg);
    assert!(matches!(first, FrameState::Targets));
    assert!(matches!(second, FrameState::Targets));
}

#[test]
fn image_new_rejects_a_grid_of_the_wrong_size() {
    assert!(Image::new(2, 2, vec![rgb(0, 0, 0); 3]).is_none());
    assert!(Image::new(2, 2, vec![rgb(0, 0, 0); 4]).is_some());
}

#[test]
fn image_pixel_reads_row_major() {
    let img = image_with(3, 2, rgb(0, 0, 0), &[(2, 1, rgb(9, 8, 7))]);
    assert_eq!(img.pixel(2, 1), rgb(9, 8, 7));
    assert_eq!(img.pixel(0, 0), rgb(0, 0, 0));
}

#[test]
fn discovery_yields_one_uncategorised_frame_per_path() {
    let paths = vec![
        path(&["frames", "a", "one.png"]),
        path(&["frames", "a", "two.png"]),
        path(&["frames", "b", "deep", "three.png"]),
    ];
    let frames = frames_from_paths(&paths);
    assert_eq!(frames.len(), 3);
    for (frame, p) in frames.iter().zip(paths.iter()) {
        assert!(matches!(frame.state, FrameState::Uncategorised));
        assert!(frame.image.is_none());
        assert_eq!(frame.file_path.as_ref().unwrap(), p);
    }
}

#[test]
fn detect_targets_keeps_path_and_image() {
    let img = image_with(2, 2, rgb(0, 0, 0), &[(0, 1, target())]);
    let mut frame = Frame {
        state: FrameState::Uncategorised,
        image: Some(img),
        file_path: Some(path(&["a", "one.png"])),
    };
    detect_targets(&mut frame, &config(vec![]));
    assert!(matches!(frame.state, FrameState::Targets));
    assert!(frame.image.is_some());
    assert_eq!(frame.file_path.as_ref().unwrap(), &path(&["a", "one.png"]));
}

#[test]
fn apply_classification_sets_state_and_detaches_image() {
    let img = image_with(2, 2, rgb(0, 0, 0), &[]);
    let mut frame = Frame {
        state: FrameState::Uncategorised,
        image: None,
        file_path: Some(path(&["a", "one.png"])),
    };
    apply_classification(&mut frame, img, &config(vec![]));
    assert!(matches!(frame.state, FrameState::NoTargets));
    assert!(frame.image.is_none());
    assert_eq!(frame.file_path.as_ref().unwrap(), &path(&["a", "one.png"]));
}

#[test]
fn category_label_of_every_state() {
    assert_eq!(category_label(&FrameState::Uncategorised), "uncategorised");
    assert_eq!(category_label(&FrameState::NoTargets), "no_targets");
    assert_eq!(category_label(&FrameState::Targets), "targets");
    assert_eq!(category_label(&FrameState::HitBoxes(vec![])), "hitboxes");
    assert_eq!(category_label(&FrameState::Unsure(vec![])), "unsure");
}

#[test]
fn default_config_holds_the_reference_setup() {
    let cfg = default_config();
    assert_eq!(cfg.target, rgb(222, 35, 28));
    assert_eq!(cfg.tolerance, Tolerance { num: 1, den: 10 });
    assert_eq!(
        cfg.regions,
        vec![
            rect(0, 0, 339, 346),
            rect(691, 0, 1869, 100),
            rect(2178, 0, 2560, 352),
            rect(0, 1216, 564, 1440),
            rect(2079, 960, 2560, 1440),
        ]
    );
}

fn classified(p: Vec<String>, state: FrameState) -> Frame {
    Frame { state, image: None, file_path: Some(p) }
}

#[test]
fn plans_group_by_parent_directory() {
    let frames = vec![
        classified(path(&["a", "img1.png"]), FrameState::NoTargets),
        classified(path(&["b", "img1.png"]), FrameState::NoTargets),
    ];
    let plans = plan_outputs(&frames, &path(&["out"]));
    assert_eq!(plans.len(), 2);
    assert_eq!(plans[0].source, path(&["a", "img1.png"]));
    assert_eq!(plans[0].dest, path(&["out", "a", "no_targets", "img1.png"]));
    assert_eq!(plans[1].source, path(&["b", "img1.png"]));
    assert_eq!(plans[1].dest, path(&["out", "b", "no_targets", "img1.png"]));
    assert_ne!(plans[0].dest, plans[1].dest);
}

#[test]
fn plans_with_same_group_and_name_collide() {
    // same parent directory name and same file name under different
    // roots: the planned destinations coincide, and the later copy
    // would overwrite the earlier one
    let frames = vec![
        classified(path(&["x", "a", "img1.png"]), FrameState::Targets),
        classified(path(&["y", "a", "img1.png"]), FrameState::Targets),
    ];
    let plans = plan_outputs(&frames, &path(&["out"]));
    assert_eq!(plans[0].dest, path(&["out", "a", "targets", "img1.png"]));
    assert_eq!(plans[0].dest, plans[1].dest);
}

#[test]
fn planning_twice_gives_identical_plans() {
    let frames = vec![
        classified(path(&["a", "img1.png"]), FrameState::Targets),
        classified(path(&["a", "img2.png"]), FrameState::NoTargets),
    ];
    let first = plan_outputs(&frames, &path(&["out"]));
    let second = plan_outputs(&frames, &path(&["out"]));
    assert_eq!(first.len(), second.len());
    for (p1, p2) in first.iter().zip(second.iter()) {
        assert_eq!(p1.source, p2.source);
        assert_eq!(p1.dest, p2.dest);
    }
}
