use vstd::prelude::*;
use crate::color::{is_target, spec_is_target, Rgb, Tolerance};
use crate::frame::{Frame, FrameState};
use crate::geometry::{pixel_ignored, spec_ignored, Coordinate, Region};
use crate::raster::Image;

verus! {

/// The process-wide configuration of the classifier: the exclusion
/// regions, the target color, and the tolerance. Passed in explicitly so
/// that a run can substitute its own values.
#[derive(Debug)]
pub struct Config {
    pub regions: Vec<Region>,
    pub target: Rgb,
    pub tolerance: Tolerance,
}

/// A rectangle from the coordinates of its two corners.
pub open spec fn rect(x0: u32, y0: u32, x1: u32, y1: u32) -> Region {
    Region {
        top_left: Coordinate { x: x0, y: y0 },
        bottom_right: Coordinate { x: x1, y: y1 },
    }
}

/// The built-in exclusion regions, laid out for a 2560 x 1440 capture:
/// the friendly team roster, the game status banner, the enemy team
/// roster, the health bar and the minimap.
pub open spec fn spec_default_regions() -> Seq<Region> {
    seq![
        rect(0, 0, 339, 346),
        rect(691, 0, 1869, 100),
        rect(2178, 0, 2560, 352),
        rect(0, 1216, 564, 1440),
        rect(2079, 960, 2560, 1440),
    ]
}

fn make_rect(x0: u32, y0: u32, x1: u32, y1: u32) -> (r: Region)
    ensures
        r == rect(x0, y0, x1, y1),
{
    Region {
        top_left: Coordinate { x: x0, y: y0 },
        bottom_right: Coordinate { x: x1, y: y1 },
    }
}

/// The built-in configuration: the fixed exclusion regions, the target
/// color of an enemy health bar, and a tolerance of one tenth.
pub fn default_config() -> (cfg: Config)
    ensures
        cfg.regions@ == spec_default_regions(),
        cfg.target == (Rgb { r: 222, g: 35, b: 28 }),
        cfg.tolerance == (Tolerance { num: 1, den: 10 }),
{
    let mut regions: Vec<Region> = Vec::new();
    regions.push(make_rect(0, 0, 339, 346));
    regions.push(make_rect(691, 0, 1869, 100));
    regions.push(make_rect(2178, 0, 2560, 352));
    regions.push(make_rect(0, 1216, 564, 1440));
    regions.push(make_rect(2079, 960, 2560, 1440));
    proof {
        assert(regions@ =~= spec_default_regions());
    }
    Config { regions, target: Rgb { r: 222, g: 35, b: 28 }, tolerance: Tolerance { num: 1, den: 10 } }
}

/// Whether some pixel of the image that lies outside every exclusion
/// region matches the target color.
pub open spec fn spec_has_target(img: Image, cfg: Config) -> bool {
    exists|x: int, y: int|
        {
            &&& 0 <= x < img.width
            &&& 0 <= y < img.height
            &&& !spec_ignored(cfg.regions@, x, y)
            &&& #[trigger] spec_is_target(img.spec_pixel(x, y), cfg.target, cfg.tolerance)
        }
}

/// Scans every pixel in row-major order, skipping those inside an
/// exclusion region, and stops at the first pixel that matches the
/// target color: one match is enough to call the frame `Targets`. Only
/// when the whole non-excluded area has been scanned without a match is
/// the frame `NoTargets`; no other verdict can come out.
pub fn classify(img: &Image, cfg: &Config) -> (state: FrameState)
    requires
        img.wf(),
    ensures
        (state is Targets) <==> spec_has_target(*img, *cfg),
        (state is NoTargets) <==> !spec_has_target(*img, *cfg),
        state is Targets || state is NoTargets,
{
    let mut y: u32 = 0;
    while y < img.height
        invariant
            img.wf(),
            y <= img.height,
            forall|xx: int, yy: int|
                0 <= xx < img.width && 0 <= yy < y && !spec_ignored(cfg.regions@, xx, yy)
                    ==> !#[trigger] spec_is_target(img.spec_pixel(xx, yy), cfg.target, cfg.tolerance),
        decreases img.height - y,
    {
        let mut x: u32 = 0;
        while x < img.width
            invariant
                img.wf(),
                y < img.height,
                x <= img.width,
                forall|xx: int, yy: int|
                    0 <= xx < img.width && 0 <= yy < y && !spec_ignored(cfg.regions@, xx, yy)
                        ==> !#[trigger] spec_is_target(
                        img.spec_pixel(xx, yy),
                        cfg.target,
                        cfg.tolerance,
                    ),
                forall|xx: int|
                    0 <= xx < x && !spec_ignored(cfg.regions@, xx, y as int)
                        ==> !#[trigger] spec_is_target(
                        img.spec_pixel(xx, y as int),
                        cfg.target,
                        cfg.tolerance,
                    ),
            decreases img.width - x,
        {
            if !pixel_ignored(&cfg.regions, x, y) {
                let p = img.pixel(x, y);
                if is_target(p, cfg.target, cfg.tolerance) {
                    return FrameState::Targets;
                }
            }
            x += 1;
        }
        y += 1;
    }
    FrameState::NoTargets
}

/// Classifies the image currently attached to the frame and records the
/// verdict on it; the path and the attached image are left as they were.
pub fn detect_targets(frame: &mut Frame, cfg: &Config)
    requires
        old(frame).image matches Some(img) && img.wf(),
    ensures
        final(frame).image == old(frame).image,
        final(frame).file_path == old(frame).file_path,
        (final(frame).state is Targets) <==> spec_has_target(old(frame).image->0, *cfg),
        (final(frame).state is NoTargets) <==> !spec_has_target(old(frame).image->0, *cfg),
        final(frame).state is Targets || final(frame).state is NoTargets,
{
    let state = match &frame.image {
        Some(img) => classify(img, cfg),
        None => FrameState::Uncategorised,
    };
    frame.state = state;
}

/// One worker's whole step on one frame: attach the decoded image,
/// classify, then detach the buffer again, so that no decoded image
/// outlives the classification of its frame.
pub fn apply_classification(frame: &mut Frame, image: Image, cfg: &Config)
    requires
        image.wf(),
    ensures
        final(frame).image is None,
        final(frame).file_path == old(frame).file_path,
        (final(frame).state is Targets) <==> spec_has_target(image, *cfg),
        (final(frame).state is NoTargets) <==> !spec_has_target(image, *cfg),
        final(frame).state is Targets || final(frame).state is NoTargets,
{
    frame.image = Some(image);
    detect_targets(frame, cfg);
    frame.image = None;
}

/// Region exclusion is absolute: the verdict never depends on the color
/// of an excluded pixel, so the matcher need never look at one. Two
/// images of the same size that agree on every non-excluded pixel are
/// classified alike, whatever their excluded pixels hold.
pub proof fn lemma_excluded_pixels_do_not_matter(img1: Image, img2: Image, cfg: Config)
    requires
        img1.width == img2.width,
        img1.height == img2.height,
        forall|x: int, y: int|
            0 <= x < img1.width && 0 <= y < img1.height && !spec_ignored(cfg.regions@, x, y)
                ==> #[trigger] img1.spec_pixel(x, y) == #[trigger] img2.spec_pixel(x, y),
    ensures
        spec_has_target(img1, cfg) == spec_has_target(img2, cfg),
{
    if spec_has_target(img1, cfg) {
        let (x, y) = choose|x: int, y: int|
            {
                &&& 0 <= x < img1.width
                &&& 0 <= y < img1.height
                &&& !spec_ignored(cfg.regions@, x, y)
                &&& #[trigger] spec_is_target(img1.spec_pixel(x, y), cfg.target, cfg.tolerance)
            };
        assert(img1.spec_pixel(x, y) == img2.spec_pixel(x, y));
        assert(spec_is_target(img2.spec_pixel(x, y), cfg.target, cfg.tolerance));
        assert(spec_has_target(img2, cfg));
    }
    if spec_has_target(img2, cfg) {
        let (x, y) = choose|x: int, y: int|
            {
                &&& 0 <= x < img2.width
                &&& 0 <= y < img2.height
                &&& !spec_ignored(cfg.regions@, x, y)
                &&& #[trigger] spec_is_target(img2.spec_pixel(x, y), cfg.target, cfg.tolerance)
            };
        assert(img1.spec_pixel(x, y) == img2.spec_pixel(x, y));
        assert(spec_is_target(img1.spec_pixel(x, y), cfg.target, cfg.tolerance));
        assert(spec_has_target(img1, cfg));
    }
}

/// An image whose every pixel lies inside some exclusion region is
/// classified `NoTargets`, whatever its pixels hold.
pub proof fn lemma_fully_excluded_image_has_no_target(img: Image, cfg: Config)
    requires
        forall|x: int, y: int|
            0 <= x < img.width && 0 <= y < img.height ==> #[trigger] spec_ignored(
                cfg.regions@,
                x,
                y,
            ),
    ensures
        !spec_has_target(img, cfg),
{
}

/// Classification is a pure function of the image and the configuration:
/// any two verdicts that `classify` may return for the same image under
/// the same configuration agree.
pub proof fn lemma_classification_deterministic(
    img: Image,
    cfg: Config,
    s1: FrameState,
    s2: FrameState,
)
    requires
        (s1 is Targets) <==> spec_has_target(img, cfg),
        (s1 is NoTargets) <==> !spec_has_target(img, cfg),
        (s2 is Targets) <==> spec_has_target(img, cfg),
        (s2 is NoTargets) <==> !spec_has_target(img, cfg),
    ensures
        (s1 is Targets) <==> (s2 is Targets),
        (s1 is NoTargets) <==> (s2 is NoTargets),
{
}

} // verus!
