use vstd::prelude::*;
use crate::frame::{clone_segments, Frame, FrameState};

verus! {

/// The fixed directory label of each classification verdict.
pub open spec fn spec_category_label(state: FrameState) -> Seq<char> {
    match state {
        FrameState::Uncategorised => "uncategorised"@,
        FrameState::NoTargets => "no_targets"@,
        FrameState::Targets => "targets"@,
        FrameState::HitBoxes(_) => "hitboxes"@,
        FrameState::Unsure(_) => "unsure"@,
    }
}

/// The directory label of a verdict, one fixed string per variant.
pub fn category_label(state: &FrameState) -> (r: &'static str)
    ensures
        r@ == spec_category_label(*state),
{
    match state {
        FrameState::Uncategorised => "uncategorised",
        FrameState::NoTargets => "no_targets",
        FrameState::Targets => "targets",
        FrameState::HitBoxes(_) => "hitboxes",
        FrameState::Unsure(_) => "unsure",
    }
}

/// One planned copy: the source file and its destination, each as a list
/// of path components.
#[derive(Debug)]
pub struct CopyPlan {
    pub source: Vec<String>,
    pub dest: Vec<String>,
}

/// Where a classified frame's copy lands: the output root, then the name
/// of the source file's immediate parent directory, then the category
/// label, then the file name.
pub open spec fn spec_dest(
    out_root: Seq<Seq<char>>,
    path: Seq<Seq<char>>,
    state: FrameState,
) -> Seq<Seq<char>>
    recommends
        path.len() >= 2,
{
    out_root + seq![path[path.len() - 2], spec_category_label(state), path[path.len() - 1]]
}

/// Plans, frame by frame and in order, one copy per classified frame.
/// Each frame needs a path with at least a parent directory and a file
/// name. Nothing guards against two plans sharing a destination: two
/// sources with one file name under one group and category overwrite one
/// another, the later copy winning.
pub fn plan_outputs(frames: &Vec<Frame>, out_root: &Vec<String>) -> (plans: Vec<CopyPlan>)
    requires
        forall|i: int|
            0 <= i < frames@.len() ==> ((#[trigger] frames@[i]).file_path matches Some(p)
                && p@.len() >= 2),
    ensures
        plans@.len() == frames@.len(),
        forall|i: int|
            0 <= i < frames@.len() ==> {
                &&& (#[trigger] plans@[i]).source.deep_view() == frames@[i].file_path->0.deep_view()
                &&& plans@[i].dest.deep_view() == spec_dest(
                    out_root.deep_view(),
                    frames@[i].file_path->0.deep_view(),
                    frames@[i].state,
                )
            },
{
    let mut plans: Vec<CopyPlan> = Vec::new();
    let mut i: usize = 0;
    while i < frames.len()
        invariant
            i <= frames.len(),
            plans@.len() == i,
            forall|k: int|
                0 <= k < frames@.len() ==> ((#[trigger] frames@[k]).file_path matches Some(p)
                    && p@.len() >= 2),
            forall|k: int|
                0 <= k < i ==> {
                    &&& (#[trigger] plans@[k]).source.deep_view()
                        == frames@[k].file_path->0.deep_view()
                    &&& plans@[k].dest.deep_view() == spec_dest(
                        out_root.deep_view(),
                        frames@[k].file_path->0.deep_view(),
                        frames@[k].state,
                    )
                },
        decreases frames.len() - i,
    {
        let frame = &frames[i];
        let path = frame.file_path.as_ref().unwrap();
        let source = clone_segments(path);
        let mut dest = clone_segments(out_root);
        dest.push(path[path.len() - 2].clone());
        let label = category_label(&frame.state);
        dest.push(label.to_owned());
        dest.push(path[path.len() - 1].clone());
        proof {
            assert(source.deep_view() =~= path.deep_view());
            assert(dest.deep_view() =~= spec_dest(
                out_root.deep_view(),
                path.deep_view(),
                frame.state,
            ));
        }
        plans.push(CopyPlan { source, dest });
        i += 1;
    }
    plans
}

/// The path components of one frame's source file, for a frame that has
/// been given one.
pub open spec fn spec_frame_path(f: Frame) -> Seq<Seq<char>>
    recommends
        f.file_path is Some,
{
    f.file_path->0.deep_view()
}

/// The planned copies depend only on each frame's path and verdict
/// label, never on anything a second run could do differently: two
/// frame lists that agree on those, frame by frame, are planned the
/// same destinations. With classification itself a pure function of
/// image and configuration, a repeated run over the same input plans
/// identical copies.
pub proof fn lemma_plans_deterministic(frames1: Seq<Frame>, frames2: Seq<Frame>, out_root: Seq<Seq<char>>)
    requires
        frames1.len() == frames2.len(),
        forall|i: int|
            0 <= i < frames1.len() ==> {
                &&& (#[trigger] frames1[i]).file_path is Some
                &&& (#[trigger] frames2[i]).file_path is Some
                &&& spec_frame_path(frames1[i]) == spec_frame_path(frames2[i])
                &&& spec_category_label(frames1[i].state) == spec_category_label(frames2[i].state)
            },
    ensures
        forall|i: int|
            0 <= i < frames1.len() ==> spec_dest(
                out_root,
                spec_frame_path(#[trigger] frames1[i]),
                frames1[i].state,
            ) == spec_dest(out_root, spec_frame_path(frames2[i]), frames2[i].state),
{
    assert forall|i: int| 0 <= i < frames1.len() implies spec_dest(
        out_root,
        spec_frame_path(#[trigger] frames1[i]),
        frames1[i].state,
    ) == spec_dest(out_root, spec_frame_path(frames2[i]), frames2[i].state) by {
        assert(spec_frame_path(frames1[i]) == spec_frame_path(frames2[i]));
    }
}

} // verus!
