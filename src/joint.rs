//! Joint kinds and the layout of their position and velocity tuples.
use vstd::prelude::*;

verus! {

/// The mechanical kind of a joint, fixed when the model is loaded.
#[derive(Clone, Copy, Debug, PartialEq, Eq, Structural)]
pub enum JointKind {
    Free,
    Ball,
    Slide,
    Hinge,
}

/// Number of position coordinates of a joint of kind `k`.
pub open spec fn spec_qpos_size(k: JointKind) -> nat {
    match k {
        JointKind::Free => 7,
        JointKind::Ball => 4,
        JointKind::Slide => 1,
        JointKind::Hinge => 1,
    }
}

/// Number of velocity coordinates (degrees of freedom) of a joint of kind `k`.
pub open spec fn spec_qvel_size(k: JointKind) -> nat {
    match k {
        JointKind::Free => 6,
        JointKind::Ball => 3,
        JointKind::Slide => 1,
        JointKind::Hinge => 1,
    }
}

impl JointKind {
    /// Number of position coordinates: a free joint holds a point and a quaternion,
    /// a ball joint a quaternion, slide and hinge joints one scalar.
    pub fn qpos_size(self) -> (r: usize)
        ensures
            r == spec_qpos_size(self),
    {
        match self {
            JointKind::Free => 7,
            JointKind::Ball => 4,
            JointKind::Slide => 1,
            JointKind::Hinge => 1,
        }
    }

    /// Number of velocity coordinates: six for a free joint, three for a ball
    /// joint, one for slide and hinge joints.
    pub fn qvel_size(self) -> (r: usize)
        ensures
            r == spec_qvel_size(self),
    {
        match self {
            JointKind::Free => 6,
            JointKind::Ball => 3,
            JointKind::Slide => 1,
            JointKind::Hinge => 1,
        }
    }
}

/// A joint kind named at the type level, so that a call site states which kind it
/// expects; the expectation is checked against the model on every access.
pub trait JointType {
    spec fn spec_kind() -> JointKind;

    fn kind() -> (k: JointKind)
        ensures
            k == Self::spec_kind(),
    ;
}

/// Six degrees of freedom: position and orientation in space.
pub struct Free;

/// Three rotational degrees of freedom about a point.
pub struct Ball;

/// One translational degree of freedom along an axis.
pub struct Slide;

/// One rotational degree of freedom about an axis.
pub struct Hinge;

impl JointType for Free {
    open spec fn spec_kind() -> JointKind {
        JointKind::Free
    }

    fn kind() -> (k: JointKind) {
        JointKind::Free
    }
}

impl JointType for Ball {
    open spec fn spec_kind() -> JointKind {
        JointKind::Ball
    }

    fn kind() -> (k: JointKind) {
        JointKind::Ball
    }
}

impl JointType for Slide {
    open spec fn spec_kind() -> JointKind {
        JointKind::Slide
    }

    fn kind() -> (k: JointKind) {
        JointKind::Slide
    }
}

impl JointType for Hinge {
    open spec fn spec_kind() -> JointKind {
        JointKind::Hinge
    }

    fn kind() -> (k: JointKind) {
        JointKind::Hinge
    }
}

} // verus!
