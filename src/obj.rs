//! Object categories and the typed handles that index into them.
use vstd::prelude::*;
use std::marker::PhantomData;

verus! {

/// The category of a simulation object; each category is a namespace of its own.
#[derive(Clone, Copy, Debug, PartialEq, Eq, Structural)]
pub enum ObjType {
    Joint,
    Dof,
    Actuator,
}

/// A category named at the type level, carried by a handle as a tag.
pub trait Obj {
    spec fn spec_obj_type() -> ObjType;

    fn obj_type() -> (t: ObjType)
        ensures
            t == Self::spec_obj_type(),
    ;
}

#[derive(Clone, Copy, Debug)]
pub struct Joint;

#[derive(Clone, Copy, Debug)]
pub struct Dof;

#[derive(Clone, Copy, Debug)]
pub struct Actuator;

impl Obj for Joint {
    open spec fn spec_obj_type() -> ObjType {
        ObjType::Joint
    }

    fn obj_type() -> (t: ObjType) {
        ObjType::Joint
    }
}

impl Obj for Dof {
    open spec fn spec_obj_type() -> ObjType {
        ObjType::Dof
    }

    fn obj_type() -> (t: ObjType) {
        ObjType::Dof
    }
}

impl Obj for Actuator {
    open spec fn spec_obj_type() -> ObjType {
        ObjType::Actuator
    }

    fn obj_type() -> (t: ObjType) {
        ObjType::Actuator
    }
}

/// A handle to an object of category `O`: an index into that category's
/// namespace. A joint handle cannot stand where an actuator handle is asked for.
/// The index is meaningful only for the model it was resolved against.
#[derive(Debug)]
pub struct ObjectId<O> {
    index: usize,
    category: PhantomData<O>,
}

impl<O> Clone for ObjectId<O> {
    fn clone(&self) -> (r: Self)
        ensures
            r == *self,
    {
        ObjectId { index: self.index, category: PhantomData }
    }
}

impl<O> Copy for ObjectId<O> {
}

impl<O> ObjectId<O> {
    pub closed spec fn spec_index(self) -> nat {
        self.index as nat
    }

    /// A handle to the object at `index` of category `O`.
    pub fn new(index: usize) -> (r: Self)
        ensures
            r.spec_index() == index,
    {
        ObjectId { index, category: PhantomData }
    }

    pub fn index(&self) -> (r: usize)
        ensures
            r == self.spec_index(),
    {
        self.index
    }
}

} // verus!
