//! Errors of the state accessor layer and of model loading.
use vstd::prelude::*;
use crate::joint::JointKind;

verus! {

#[derive(Debug)]
pub enum Error {
    /// The physics engine refused a scene or a load path; its own message is kept.
    Mujoco(String),
    /// The scene compiler refused a scene description; its own message is kept.
    Mjs(String),
    /// No object of the requested category carries this name.
    NameNotFound(String),
    /// A joint was accessed as one kind while the model declares another.
    JointTypeNotMatch { expected: JointKind, found: JointKind },
}

} // verus!
