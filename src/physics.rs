//! The simulation state: the model's joint layout and the flat runtime buffers of
//! positions, velocities and controls, with kind-checked access to them.
use vstd::prelude::*;
use crate::error::Error;
use crate::joint::{JointKind, JointType, spec_qpos_size, spec_qvel_size};
use crate::obj::{Actuator, Joint, Obj, ObjType, ObjectId};

verus! {

/// `s` with the elements from `start` on replaced by `v`.
pub open spec fn spec_splice<T>(s: Seq<T>, start: nat, v: Seq<T>) -> Seq<T> {
    s.subrange(0, start as int) + v + s.subrange((start + v.len()) as int, s.len() as int)
}

/// The state of one simulation: static joint layout (kind, position address,
/// velocity address of each joint), the model's default and spring reference
/// poses, and mutable runtime buffers. Values of the
/// buffers are of the engine's scalar type `T`.
pub struct Physics<T> {
    jnt_type: Vec<JointKind>,
    jnt_qposadr: Vec<usize>,
    jnt_dofadr: Vec<Option<usize>>,
    qpos0: Vec<T>,
    qpos_spring: Vec<T>,
    qpos: Vec<T>,
    qvel: Vec<T>,
    ctrl: Vec<T>,
    time: T,
}

impl<T: Copy> Physics<T> {
    pub closed spec fn njnt_spec(&self) -> nat {
        self.jnt_type@.len()
    }

    pub closed spec fn nu_spec(&self) -> nat {
        self.ctrl@.len()
    }

    /// Declared kind of joint `j`.
    pub closed spec fn kind_of(&self, j: nat) -> JointKind {
        self.jnt_type@[j as int]
    }

    /// Address of joint `j`'s first position coordinate.
    pub closed spec fn qposadr_of(&self, j: nat) -> nat {
        self.jnt_qposadr@[j as int] as nat
    }

    /// Address of joint `j`'s first velocity coordinate, if it has any.
    pub closed spec fn dofadr_of(&self, j: nat) -> Option<usize> {
        self.jnt_dofadr@[j as int]
    }

    pub closed spec fn qpos_buf(&self) -> Seq<T> {
        self.qpos@
    }

    /// The model's default pose.
    pub closed spec fn qpos0_buf(&self) -> Seq<T> {
        self.qpos0@
    }

    /// The model's reference pose for springs.
    pub closed spec fn qpos_spring_buf(&self) -> Seq<T> {
        self.qpos_spring@
    }

    pub closed spec fn qvel_buf(&self) -> Seq<T> {
        self.qvel@
    }

    pub closed spec fn ctrl_buf(&self) -> Seq<T> {
        self.ctrl@
    }

    pub closed spec fn time_spec(&self) -> T {
        self.time
    }

    /// The layout tables cover every joint, and each joint's coordinates lie
    /// inside the buffers.
    pub closed spec fn wf(&self) -> bool {
        &&& self.jnt_qposadr@.len() == self.jnt_type@.len()
        &&& self.jnt_dofadr@.len() == self.jnt_type@.len()
        &&& self.qpos0@.len() == self.qpos@.len()
        &&& self.qpos_spring@.len() == self.qpos@.len()
        &&& layout_fits(
            self.jnt_type@,
            self.jnt_qposadr@,
            self.jnt_dofadr@,
            self.qpos@.len(),
            self.qvel@.len(),
            self.jnt_type@.len(),
        )
    }

    /// Joint `j`'s position coordinates within a buffer laid out like `qpos`.
    pub open spec fn joint_slice(&self, buf: Seq<T>, j: nat) -> Seq<T> {
        buf.subrange(
            self.qposadr_of(j) as int,
            (self.qposadr_of(j) + spec_qpos_size(self.kind_of(j))) as int,
        )
    }

    /// Position coordinates of joint `j` as they stand in the buffer.
    pub open spec fn spec_qpos_of(&self, j: nat) -> Seq<T> {
        self.joint_slice(self.qpos_buf(), j)
    }

    /// Velocity coordinates of joint `j`; none where the joint has no degree of
    /// freedom of its own.
    pub open spec fn spec_qvel_of(&self, j: nat) -> Seq<T> {
        match self.dofadr_of(j) {
            Some(a) => self.qvel_buf().subrange(a as int, (a + spec_qvel_size(self.kind_of(j))) as int),
            None => Seq::empty(),
        }
    }

    /// The same state with the position coordinates of joint `j` replaced by `v`.
    pub open spec fn spec_with_qpos(&self, j: nat, v: Seq<T>) -> Seq<T> {
        spec_splice(self.qpos_buf(), self.qposadr_of(j), v)
    }

    /// The velocity buffer with joint `j`'s velocity coordinates replaced by `v`.
    pub open spec fn spec_with_qvel(&self, j: nat, v: Seq<T>) -> Seq<T> {
        match self.dofadr_of(j) {
            Some(a) => spec_splice(self.qvel_buf(), a as nat, v),
            None => self.qvel_buf(),
        }
    }

    /// `new` is `self` with joint `j`'s position coordinates replaced by `v`;
    /// layout, velocities, controls and time are kept.
    pub open spec fn qpos_written(&self, new: &Self, j: nat, v: Seq<T>) -> bool {
        &&& new.wf()
        &&& new.same_layout(self)
        &&& new.qpos_buf() == self.spec_with_qpos(j, v)
        &&& new.qvel_buf() == self.qvel_buf()
        &&& new.ctrl_buf() == self.ctrl_buf()
        &&& new.time_spec() == self.time_spec()
    }

    /// `new` is `self` with joint `j`'s velocity coordinates replaced by `v`;
    /// layout, positions, controls and time are kept.
    pub open spec fn qvel_written(&self, new: &Self, j: nat, v: Seq<T>) -> bool {
        &&& new.wf()
        &&& new.same_layout(self)
        &&& new.qpos_buf() == self.qpos_buf()
        &&& new.qvel_buf() == self.spec_with_qvel(j, v)
        &&& new.ctrl_buf() == self.ctrl_buf()
        &&& new.time_spec() == self.time_spec()
    }

    /// The layout and reference poses of `other` equal this one's.
    pub open spec fn same_layout(&self, other: &Self) -> bool {
        &&& self.njnt_spec() == other.njnt_spec()
        &&& self.qpos0_buf() == other.qpos0_buf()
        &&& self.qpos_spring_buf() == other.qpos_spring_buf()
        &&& forall|j: nat| j < self.njnt_spec() ==> {
            &&& #[trigger] self.kind_of(j) == other.kind_of(j)
            &&& self.qposadr_of(j) == other.qposadr_of(j)
            &&& self.dofadr_of(j) == other.dofadr_of(j)
        }
    }
}

/// The layout of joints `0..n` is consistent with buffers of lengths `nq` and `nv`.
pub open spec fn layout_fits(
    kinds: Seq<JointKind>,
    qposadr: Seq<usize>,
    dofadr: Seq<Option<usize>>,
    nq: nat,
    nv: nat,
    n: nat,
) -> bool {
    forall|j: int|
        #![trigger qposadr[j]]
        0 <= j < n ==> {
            &&& qposadr[j] + spec_qpos_size(kinds[j]) <= nq
            &&& match dofadr[j] {
                Some(a) => a + spec_qvel_size(kinds[j]) <= nv,
                None => true,
            }
        }
}


/// A copy of `buf[start .. start + len]`.
fn read_slice<T: Copy>(buf: &Vec<T>, start: usize, len: usize) -> (r: Vec<T>)
    requires
        start + len <= buf@.len(),
    ensures
        r@ == buf@.subrange(start as int, start + len),
{
    let total = buf.len();
    let mut out: Vec<T> = Vec::new();
    let mut k: usize = 0;
    while k < len
        invariant
            k <= len,
            total == buf@.len(),
            start + len <= total,
            out@ == buf@.subrange(start as int, start + k),
        decreases len - k,
    {
        out.push(buf[start + k]);
        k += 1;
        assert(out@ =~= buf@.subrange(start as int, start + k));
    }
    out
}

/// Overwrites `buf[start ..]` with the elements of `src`.
fn write_slice<T: Copy>(buf: &mut Vec<T>, start: usize, src: &[T])
    requires
        start + src@.len() <= old(buf)@.len(),
    ensures
        final(buf)@ == spec_splice(old(buf)@, start as nat, src@),
{
    let ghost orig = buf@;
    let total = buf.len();
    let mut k: usize = 0;
    while k < src.len()
        invariant
            k <= src@.len(),
            start + src@.len() <= total,
            total == orig.len(),
            buf@.len() == orig.len(),
            forall|i: int| 0 <= i < start ==> buf@[i] == orig[i],
            forall|i: int| start + k <= i < orig.len() ==> buf@[i] == orig[i],
            forall|i: int| 0 <= i < k ==> buf@[start + i] == src@[i],
        decreases src@.len() - k,
    {
        buf.set(start + k, src[k]);
        k += 1;
    }
    assert(buf@ =~= spec_splice(orig, start as nat, src@));
}

impl<T: Copy> Physics<T> {
    /// A state over the given joint layout, reference poses and buffers. `None`
    /// when the layout tables differ in length from `jnt_type`, when a reference
    /// pose differs in length from `qpos`, or when some joint's coordinates do not
    /// lie inside the buffers.
    pub fn new(
        jnt_type: Vec<JointKind>,
        jnt_qposadr: Vec<usize>,
        jnt_dofadr: Vec<Option<usize>>,
        qpos0: Vec<T>,
        qpos_spring: Vec<T>,
        qpos: Vec<T>,
        qvel: Vec<T>,
        ctrl: Vec<T>,
        time: T,
    ) -> (r: Option<Self>)
        ensures
            r.is_some() <==> {
                &&& jnt_qposadr@.len() == jnt_type@.len()
                &&& jnt_dofadr@.len() == jnt_type@.len()
                &&& qpos0@.len() == qpos@.len()
                &&& qpos_spring@.len() == qpos@.len()
                &&& layout_fits(
                    jnt_type@,
                    jnt_qposadr@,
                    jnt_dofadr@,
                    qpos@.len(),
                    qvel@.len(),
                    jnt_type@.len(),
                )
            },
            r matches Some(p) ==> {
                &&& p.wf()
                &&& p.njnt_spec() == jnt_type@.len()
                &&& forall|j: nat|
                    j < jnt_type@.len() ==> {
                        &&& #[trigger] p.kind_of(j) == jnt_type@[j as int]
                        &&& p.qposadr_of(j) == jnt_qposadr@[j as int]
                        &&& p.dofadr_of(j) == jnt_dofadr@[j as int]
                    }
                &&& p.qpos0_buf() == qpos0@
                &&& p.qpos_spring_buf() == qpos_spring@
                &&& p.qpos_buf() == qpos@
                &&& p.qvel_buf() == qvel@
                &&& p.ctrl_buf() == ctrl@
                &&& p.time_spec() == time
            },
    {
        let n = jnt_type.len();
        if jnt_qposadr.len() != n || jnt_dofadr.len() != n {
            return None;
        }
        let nq = qpos.len();
        if qpos0.len() != nq || qpos_spring.len() != nq {
            return None;
        }
        let nv = qvel.len();
        let mut j: usize = 0;
        while j < n
            invariant
                j <= n,
                n == jnt_type@.len(),
                jnt_qposadr@.len() == n,
                jnt_dofadr@.len() == n,
                nq == qpos@.len(),
                nv == qvel@.len(),
                layout_fits(jnt_type@, jnt_qposadr@, jnt_dofadr@, nq as nat, nv as nat, j as nat),
            decreases n - j,
        {
            let size = jnt_type[j].qpos_size();
            let adr = jnt_qposadr[j];
            if adr > nq || size > nq - adr {
                return None;
            }
            match jnt_dofadr[j] {
                Some(a) => {
                    let vsize = jnt_type[j].qvel_size();
                    if a > nv || vsize > nv - a {
                        return None;
                    }
                },
                None => {},
            }
            j += 1;
        }
        Some(
            Physics {
                jnt_type,
                jnt_qposadr,
                jnt_dofadr,
                qpos0,
                qpos_spring,
                qpos,
                qvel,
                ctrl,
                time,
            },
        )
    }

    /// Number of joints in the model.
    pub fn njnt(&self) -> (r: usize)
        ensures
            r == self.njnt_spec(),
    {
        self.jnt_type.len()
    }

    /// Number of objects of category `O`: joints, degrees of freedom (the length
    /// of the velocity buffer) or actuators (the length of the control buffer).
    pub fn object_count_of<O: Obj>(&self) -> (r: usize)
        ensures
            r == match O::spec_obj_type() {
                ObjType::Joint => self.njnt_spec(),
                ObjType::Dof => self.qvel_buf().len(),
                ObjType::Actuator => self.nu_spec(),
            },
    {
        match O::obj_type() {
            ObjType::Joint => self.jnt_type.len(),
            ObjType::Dof => self.qvel.len(),
            ObjType::Actuator => self.ctrl.len(),
        }
    }

    /// Number of actuators in the model.
    pub fn nu(&self) -> (r: usize)
        ensures
            r == self.nu_spec(),
    {
        self.ctrl.len()
    }

    /// The declared kind of a joint.
    pub fn joint_kind(&self, id: ObjectId<Joint>) -> (r: JointKind)
        requires
            id.spec_index() < self.njnt_spec(),
        ensures
            r == self.kind_of(id.spec_index()),
    {
        self.jnt_type[id.index()]
    }

    /// Position coordinates of a joint expected to be of kind `J`.
    /// Fails with `JointTypeNotMatch` where the model declares another kind.
    pub fn qpos<J: JointType>(&self, id: ObjectId<Joint>) -> (r: Result<Vec<T>, Error>)
        requires
            self.wf(),
            id.spec_index() < self.njnt_spec(),
        ensures
            match r {
                Ok(v) => self.kind_of(id.spec_index()) == J::spec_kind() && v@ == self.spec_qpos_of(
                    id.spec_index(),
                ),
                Err(e) => self.kind_of(id.spec_index()) != J::spec_kind() && e
                    == (Error::JointTypeNotMatch {
                    expected: J::spec_kind(),
                    found: self.kind_of(id.spec_index()),
                }),
            },
    {
        let j = id.index();
        let expected = J::kind();
        let found = self.jnt_type[j];
        if found != expected {
            return Err(Error::JointTypeNotMatch { expected, found });
        }
        assert(self.jnt_qposadr@[j as int] + spec_qpos_size(self.jnt_type@[j as int])
            <= self.qpos@.len());
        Ok(read_slice(&self.qpos, self.jnt_qposadr[j], found.qpos_size()))
    }
}


impl<T: Copy> Physics<T> {
    /// Joint `id`'s coordinates in the model's default pose, for a joint expected
    /// to be of kind `J`. Fails with `JointTypeNotMatch` where the model declares
    /// another kind.
    pub fn qpos0<J: JointType>(&self, id: ObjectId<Joint>) -> (r: Result<Vec<T>, Error>)
        requires
            self.wf(),
            id.spec_index() < self.njnt_spec(),
        ensures
            match r {
                Ok(v) => self.kind_of(id.spec_index()) == J::spec_kind() && v@ == self.joint_slice(
                    self.qpos0_buf(),
                    id.spec_index(),
                ),
                Err(e) => self.kind_of(id.spec_index()) != J::spec_kind() && e
                    == (Error::JointTypeNotMatch {
                    expected: J::spec_kind(),
                    found: self.kind_of(id.spec_index()),
                }),
            },
    {
        let j = id.index();
        let expected = J::kind();
        let found = self.jnt_type[j];
        if found != expected {
            return Err(Error::JointTypeNotMatch { expected, found });
        }
        assert(self.jnt_qposadr@[j as int] + spec_qpos_size(self.jnt_type@[j as int])
            <= self.qpos@.len());
        Ok(read_slice(&self.qpos0, self.jnt_qposadr[j], found.qpos_size()))
    }

    /// Joint `id`'s coordinates in the model's reference pose for springs, for a
    /// joint expected to be of kind `J`. Fails with `JointTypeNotMatch` where the
    /// model declares another kind.
    pub fn qpos_spring<J: JointType>(&self, id: ObjectId<Joint>) -> (r: Result<Vec<T>, Error>)
        requires
            self.wf(),
            id.spec_index() < self.njnt_spec(),
        ensures
            match r {
                Ok(v) => self.kind_of(id.spec_index()) == J::spec_kind() && v@ == self.joint_slice(
                    self.qpos_spring_buf(),
                    id.spec_index(),
                ),
                Err(e) => self.kind_of(id.spec_index()) != J::spec_kind() && e
                    == (Error::JointTypeNotMatch {
                    expected: J::spec_kind(),
                    found: self.kind_of(id.spec_index()),
                }),
            },
    {
        let j = id.index();
        let expected = J::kind();
        let found = self.jnt_type[j];
        if found != expected {
            return Err(Error::JointTypeNotMatch { expected, found });
        }
        assert(self.jnt_qposadr@[j as int] + spec_qpos_size(self.jnt_type@[j as int])
            <= self.qpos@.len());
        Ok(read_slice(&self.qpos_spring, self.jnt_qposadr[j], found.qpos_size()))
    }
}

impl<T: Copy> Physics<T> {
    /// Writes the position coordinates of a joint expected to be of kind `J`.
    /// Fails with `JointTypeNotMatch`, changing nothing, where the model
    /// declares another kind.
    pub fn set_qpos<J: JointType>(&mut self, id: ObjectId<Joint>, qpos: &[T]) -> (r: Result<(), Error>)
        requires
            old(self).wf(),
            id.spec_index() < old(self).njnt_spec(),
            qpos@.len() == spec_qpos_size(J::spec_kind()),
        ensures
            match r {
                Ok(()) => old(self).kind_of(id.spec_index()) == J::spec_kind() && old(self).qpos_written(
                    &*final(self),
                    id.spec_index(),
                    qpos@,
                ),
                Err(e) => old(self).kind_of(id.spec_index()) != J::spec_kind() && e
                    == (Error::JointTypeNotMatch {
                    expected: J::spec_kind(),
                    found: old(self).kind_of(id.spec_index()),
                }) && *final(self) == *old(self),
            },
    {
        let j = id.index();
        let expected = J::kind();
        let found = self.jnt_type[j];
        if found != expected {
            return Err(Error::JointTypeNotMatch { expected, found });
        }
        assert(self.jnt_qposadr@[j as int] + spec_qpos_size(self.jnt_type@[j as int])
            <= self.qpos@.len());
        let adr = self.jnt_qposadr[j];
        write_slice(&mut self.qpos, adr, qpos);
        Ok(())
    }

    /// Velocity coordinates of a joint expected to be of kind `J`; empty where
    /// the joint has no degree of freedom of its own. Fails with
    /// `JointTypeNotMatch` where the model declares another kind.
    pub fn qvel<J: JointType>(&self, id: ObjectId<Joint>) -> (r: Result<Vec<T>, Error>)
        requires
            self.wf(),
            id.spec_index() < self.njnt_spec(),
        ensures
            match r {
                Ok(v) => self.kind_of(id.spec_index()) == J::spec_kind() && v@ == self.spec_qvel_of(
                    id.spec_index(),
                ),
                Err(e) => self.kind_of(id.spec_index()) != J::spec_kind() && e
                    == (Error::JointTypeNotMatch {
                    expected: J::spec_kind(),
                    found: self.kind_of(id.spec_index()),
                }),
            },
    {
        let j = id.index();
        let expected = J::kind();
        let found = self.jnt_type[j];
        if found != expected {
            return Err(Error::JointTypeNotMatch { expected, found });
        }
        assert(self.jnt_qposadr@[j as int] + spec_qpos_size(self.jnt_type@[j as int])
            <= self.qpos@.len());
        match self.jnt_dofadr[j] {
            Some(a) => Ok(read_slice(&self.qvel, a, found.qvel_size())),
            None => Ok(Vec::new()),
        }
    }

    /// Writes the velocity coordinates of a joint expected to be of kind `J`;
    /// a joint without degrees of freedom of its own keeps nothing. Fails with
    /// `JointTypeNotMatch`, changing nothing, where the model declares another kind.
    pub fn set_qvel<J: JointType>(&mut self, id: ObjectId<Joint>, qvel: &[T]) -> (r: Result<(), Error>)
        requires
            old(self).wf(),
            id.spec_index() < old(self).njnt_spec(),
            qvel@.len() == spec_qvel_size(J::spec_kind()),
        ensures
            match r {
                Ok(()) => old(self).kind_of(id.spec_index()) == J::spec_kind() && old(self).qvel_written(
                    &*final(self),
                    id.spec_index(),
                    qvel@,
                ),
                Err(e) => old(self).kind_of(id.spec_index()) != J::spec_kind() && e
                    == (Error::JointTypeNotMatch {
                    expected: J::spec_kind(),
                    found: old(self).kind_of(id.spec_index()),
                }) && *final(self) == *old(self),
            },
    {
        let j = id.index();
        let expected = J::kind();
        let found = self.jnt_type[j];
        if found != expected {
            return Err(Error::JointTypeNotMatch { expected, found });
        }
        assert(self.jnt_qposadr@[j as int] + spec_qpos_size(self.jnt_type@[j as int])
            <= self.qpos@.len());
        match self.jnt_dofadr[j] {
            Some(a) => write_slice(&mut self.qvel, a, qvel),
            None => {},
        }
        Ok(())
    }
}


impl<T: Copy> Physics<T> {
    /// Control input of an actuator.
    pub fn ctrl(&self, id: ObjectId<Actuator>) -> (r: T)
        requires
            id.spec_index() < self.nu_spec(),
        ensures
            r == self.ctrl_buf()[id.spec_index() as int],
    {
        self.ctrl[id.index()]
    }

    /// Writes the control input of an actuator as given; bounds are the
    /// caller's to check.
    pub fn set_ctrl(&mut self, id: ObjectId<Actuator>, value: T)
        requires
            id.spec_index() < old(self).nu_spec(),
        ensures
            final(self).ctrl_buf() == old(self).ctrl_buf().update(id.spec_index() as int, value),
            final(self).wf() == old(self).wf(),
            final(self).same_layout(&*old(self)),
            final(self).qpos_buf() == old(self).qpos_buf(),
            final(self).qvel_buf() == old(self).qvel_buf(),
            final(self).time_spec() == old(self).time_spec(),
    {
        self.ctrl.set(id.index(), value);
    }

    /// Simulation time.
    pub fn time(&self) -> (r: T)
        ensures
            r == self.time_spec(),
    {
        self.time
    }

    pub fn set_time(&mut self, time: T)
        ensures
            final(self).time_spec() == time,
            final(self).wf() == old(self).wf(),
            final(self).same_layout(&*old(self)),
            final(self).qpos_buf() == old(self).qpos_buf(),
            final(self).qvel_buf() == old(self).qvel_buf(),
            final(self).ctrl_buf() == old(self).ctrl_buf(),
    {
        self.time = time;
    }

    /// The whole position buffer.
    pub fn qpos_data(&self) -> (r: &Vec<T>)
        ensures
            r@ == self.qpos_buf(),
    {
        &self.qpos
    }

    /// The whole velocity buffer.
    pub fn qvel_data(&self) -> (r: &Vec<T>)
        ensures
            r@ == self.qvel_buf(),
    {
        &self.qvel
    }

    /// The whole control buffer.
    pub fn ctrl_data(&self) -> (r: &Vec<T>)
        ensures
            r@ == self.ctrl_buf(),
    {
        &self.ctrl
    }

    /// Replaces the runtime buffers and time wholesale, as after the engine
    /// advanced the simulation; the layout is kept.
    pub fn load_data(&mut self, qpos: Vec<T>, qvel: Vec<T>, ctrl: Vec<T>, time: T)
        requires
            qpos@.len() == old(self).qpos_buf().len(),
            qvel@.len() == old(self).qvel_buf().len(),
            ctrl@.len() == old(self).ctrl_buf().len(),
        ensures
            final(self).wf() == old(self).wf(),
            final(self).same_layout(&*old(self)),
            final(self).qpos_buf() == qpos@,
            final(self).qvel_buf() == qvel@,
            final(self).ctrl_buf() == ctrl@,
            final(self).time_spec() == time,
    {
        self.qpos = qpos;
        self.qvel = qvel;
        self.ctrl = ctrl;
        self.time = time;
    }
}

/// Reading a joint's position coordinates right after writing them, with no
/// simulation advance in between, gives back exactly what was written.
pub proof fn lemma_qpos_read_after_write<T: Copy>(
    before: Physics<T>,
    after: Physics<T>,
    j: nat,
    v: Seq<T>,
)
    requires
        before.wf(),
        j < before.njnt_spec(),
        v.len() == spec_qpos_size(before.kind_of(j)),
        before.qpos_written(&after, j, v),
    ensures
        after.spec_qpos_of(j) == v,
        after.kind_of(j) == before.kind_of(j),
{
    assert(before.jnt_qposadr@[j as int] + spec_qpos_size(before.jnt_type@[j as int])
        <= before.qpos@.len());
    assert(after.spec_qpos_of(j) =~= v);
}

/// Reading a joint's velocity coordinates right after writing them gives back
/// what was written, where the joint has degrees of freedom of its own.
pub proof fn lemma_qvel_read_after_write<T: Copy>(
    before: Physics<T>,
    after: Physics<T>,
    j: nat,
    v: Seq<T>,
)
    requires
        before.wf(),
        j < before.njnt_spec(),
        v.len() == spec_qvel_size(before.kind_of(j)),
        before.dofadr_of(j).is_some(),
        before.qvel_written(&after, j, v),
    ensures
        after.spec_qvel_of(j) == v,
{
    let a = before.jnt_dofadr@[j as int].unwrap();
    assert(a + spec_qvel_size(before.jnt_type@[j as int]) <= before.qvel@.len()) by {
        assert(before.jnt_qposadr@[j as int] + spec_qpos_size(before.jnt_type@[j as int])
            <= before.qpos@.len());
    }
    assert(after.spec_qvel_of(j) =~= v);
}

} // verus!
