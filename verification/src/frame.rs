use vstd::prelude::*;
use crate::geometry::Region;
use crate::raster::Image;

verus! {

/// The classification verdict of one frame. `HitBoxes` and `Unsure` are
/// reserved for a finer-grained classifier: the state space anticipates
/// them, but nothing here produces them.
#[derive(Debug)]
pub enum FrameState {
    Uncategorised,
    NoTargets,
    Targets,
    HitBoxes(Vec<Region>),
    Unsure(Vec<Region>),
}

/// One source image file: its path, its current classification state,
/// and — only transiently, while a worker classifies it — its decoded
/// pixel buffer. A path is handled as its list of components, root-most
/// first.
#[derive(Debug)]
pub struct Frame {
    pub state: FrameState,
    pub image: Option<Image>,
    pub file_path: Option<Vec<String>>,
}

/// Copies a path, component by component.
pub fn clone_segments(p: &Vec<String>) -> (r: Vec<String>)
    ensures
        r@ == p@,
{
    let mut r: Vec<String> = Vec::new();
    let mut i: usize = 0;
    while i < p.len()
        invariant
            i <= p.len(),
            r@.len() == i,
            forall|j: int| 0 <= j < i ==> r@[j] == p@[j],
        decreases p.len() - i,
    {
        r.push(p[i].clone());
        i += 1;
    }
    proof {
        assert(r@ =~= p@);
    }
    r
}

/// One fresh frame per discovered file path: the state starts
/// `Uncategorised`, no image is attached, and the path is kept as given.
/// The order of the paths — which discovery leaves unspecified — is
/// passed through unchanged and carries no meaning downstream.
pub fn frames_from_paths(paths: &Vec<Vec<String>>) -> (frames: Vec<Frame>)
    ensures
        frames@.len() == paths@.len(),
        forall|i: int|
            0 <= i < paths@.len() ==> {
                &&& (#[trigger] frames@[i]).state is Uncategorised
                &&& frames@[i].image is None
                &&& frames@[i].file_path matches Some(p) && p@ == paths@[i]@
            },
{
    let mut frames: Vec<Frame> = Vec::new();
    let mut i: usize = 0;
    while i < paths.len()
        invariant
            i <= paths.len(),
            frames@.len() == i,
            forall|j: int|
                0 <= j < i ==> {
                    &&& (#[trigger] frames@[j]).state is Uncategorised
                    &&& frames@[j].image is None
                    &&& frames@[j].file_path matches Some(p) && p@ == paths@[j]@
                },
        decreases paths.len() - i,
    {
        let path = clone_segments(&paths[i]);
        frames.push(
            Frame { state: FrameState::Uncategorised, image: None, file_path: Some(path) },
        );
        i += 1;
    }
    frames
}

} // verus!
