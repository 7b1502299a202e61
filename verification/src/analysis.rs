//! What the vision workers produce.
//!
//! The analysis passes themselves — landmark extraction, background
//! segmentation, object detection — are outside collaborators: each is an
//! opaque function from a frame to one of these results, run on its own
//! worker thread. This module only models the data the coordinator stores
//! and the renderer reads. Coordinates that the collaborators report as
//! fractions of the frame are carried in thousandths, so the model holds
//! plain integers.

use vstd::prelude::*;

use crate::frame::Frame;

verus! {

/// The analysis passes a worker can be configured for.
#[derive(Clone, Copy, PartialEq, Eq, Structural, Debug)]
pub enum WorkerKind {
    /// Face or body landmark extraction.
    Landmarks,
    /// Background segmentation.
    Segmentation,
    /// Object detection with per-instance masks.
    Detection,
}

/// One 2D landmark, in thousandths of the frame's extent.
#[derive(Clone, Copy, PartialEq, Eq, Structural, Debug)]
pub struct LandmarkPoint {
    /// Horizontal position, thousandths of the width.
    pub x_milli: i32,
    /// Vertical position, thousandths of the height.
    pub y_milli: i32,
}

/// The ordered landmarks of one detected subject.
pub struct SubjectLandmarks {
    /// The subject's landmarks, in the collaborator's fixed order.
    pub points: Vec<LandmarkPoint>,
}

/// An axis-aligned box, in thousandths of the frame's extent.
#[derive(Clone, Copy, PartialEq, Eq, Structural, Debug)]
pub struct BoundingBox {
    /// Left edge, thousandths of the width.
    pub left: i32,
    /// Top edge, thousandths of the height.
    pub top: i32,
    /// Right edge, thousandths of the width.
    pub right: i32,
    /// Bottom edge, thousandths of the height.
    pub bottom: i32,
}

/// One detected object instance.
pub struct Detection {
    /// The collaborator's class identifier.
    pub class_id: i32,
    /// Where the instance sits in the frame.
    pub bounds: BoundingBox,
    /// The instance's mask, if the pass produces one: a single-channel
    /// frame.
    pub mask: Option<Frame>,
}

/// What one completed analysis pass produced. The coordinator keeps one
/// slot of these per configured worker kind, each replaced only by the next
/// completed result of the same kind.
pub enum AnalysisResult {
    /// Ordered landmark sequences, grouped per detected subject.
    Landmarks(Vec<SubjectLandmarks>),
    /// A segmentation mask covering the frame.
    SegmentationMask(Frame),
    /// The detected object instances.
    Detections(Vec<Detection>),
}

/// The worker kind that produces a given result variant.
pub open spec fn kind_of(r: AnalysisResult) -> WorkerKind {
    match r {
        AnalysisResult::Landmarks(_) => WorkerKind::Landmarks,
        AnalysisResult::SegmentationMask(_) => WorkerKind::Segmentation,
        AnalysisResult::Detections(_) => WorkerKind::Detection,
    }
}

impl AnalysisResult {
    /// The worker kind that produces this result variant.
    pub fn kind(&self) -> (k: WorkerKind)
        ensures
            k == kind_of(*self),
    {
        match self {
            AnalysisResult::Landmarks(_) => WorkerKind::Landmarks,
            AnalysisResult::SegmentationMask(_) => WorkerKind::Segmentation,
            AnalysisResult::Detections(_) => WorkerKind::Detection,
        }
    }
}

/// The mask the renderer should treat as the foreground: the first detected
/// instance's mask when there is one, the segmentation mask itself, and
/// nothing for landmark results.
pub open spec fn foreground_mask_of(r: AnalysisResult) -> Option<Frame> {
    match r {
        AnalysisResult::Landmarks(_) => None,
        AnalysisResult::SegmentationMask(m) => Some(m),
        AnalysisResult::Detections(ds) => if ds.len() > 0 {
            ds[0].mask
        } else {
            None
        },
    }
}

/// The foreground mask of a result, as [`foreground_mask_of`] picks it.
pub fn foreground_mask(r: &AnalysisResult) -> (m: Option<&Frame>)
    ensures
        match m {
            Some(f) => foreground_mask_of(*r) == Some(*f),
            None => foreground_mask_of(*r) is None,
        },
{
    match r {
        AnalysisResult::Landmarks(_) => None,
        AnalysisResult::SegmentationMask(m) => Some(m),
        AnalysisResult::Detections(ds) => {
            if ds.len() > 0 {
                match &ds[0].mask {
                    Some(f) => Some(f),
                    None => None,
                }
            } else {
                None
            }
        },
    }
}

} // verus!
