//! The tabular agent: a ladder of discrete actions, a table of action values over
//! the digitized states, and the digitization resolution the table was built for.
use vstd::prelude::*;
use crate::obj::{Actuator, ObjectId};
use crate::qtable::{Action, QTable, State};
use crate::state::{AcrobotBalanceTask, AcrobotState, spec_state_size};
use crate::strategy::{Strategy, is_first_max, select_action};

verus! {

/// One rung of the action ladder: a control magnitude for one actuator, and the
/// rung's index, which is the table column it stands for.
pub struct AcrobotAction<V> {
    pub actuator_id: ObjectId<Actuator>,
    pub torque: V,
    pub digitization_index: usize,
}

impl<V: Copy> Clone for AcrobotAction<V> {
    fn clone(&self) -> (r: Self)
        ensures
            r == *self,
    {
        AcrobotAction {
            actuator_id: self.actuator_id,
            torque: self.torque,
            digitization_index: self.digitization_index,
        }
    }
}

impl<V: Copy> Copy for AcrobotAction<V> {
}

/// Rung `i` of `ladder` is the control `torques[i]` on `actuator`, with index `i`.
pub open spec fn is_ladder<V>(
    ladder: Seq<AcrobotAction<V>>,
    actuator: ObjectId<Actuator>,
    torques: Seq<V>,
) -> bool {
    &&& ladder.len() == torques.len()
    &&& forall|i: int|
        0 <= i < ladder.len() ==> #[trigger] ladder[i] == (AcrobotAction {
            actuator_id: actuator,
            torque: torques[i],
            digitization_index: i as usize,
        })
}

/// Every rung's index is its position in the ladder.
pub open spec fn indexed<V>(ladder: Seq<AcrobotAction<V>>) -> bool {
    forall|i: int| 0 <= i < ladder.len() ==> #[trigger] ladder[i].digitization_index == i
}

/// The ladder of `torques` on `actuator`, in the order given.
pub fn make_digitized_actions<V: Copy>(actuator_id: ObjectId<Actuator>, torques: &[V]) -> (r: Vec<
    AcrobotAction<V>,
>)
    ensures
        is_ladder(r@, actuator_id, torques@),
{
    let mut out: Vec<AcrobotAction<V>> = Vec::new();
    let mut k: usize = 0;
    while k < torques.len()
        invariant
            k <= torques@.len(),
            is_ladder(out@, actuator_id, torques@.subrange(0, k as int)),
        decreases torques@.len() - k,
    {
        out.push(AcrobotAction { actuator_id, torque: torques[k], digitization_index: k });
        k += 1;
    }
    assert(torques@.subrange(0, k as int) =~= torques@);
    out
}

/// The conditions under which parts make an agent: a non-empty ladder whose rungs
/// are indexed by position, `cells` holding `state_size` rows of one value per
/// rung, and `state_size` the number of flat states of the resolution.
pub open spec fn parts_ok<V>(
    ladder: Seq<AcrobotAction<V>>,
    state_size: nat,
    cells: Seq<V>,
    n_arm: nat,
    n_pendulum: nat,
) -> bool {
    &&& 0 < ladder.len()
    &&& indexed(ladder)
    &&& 0 < n_arm
    &&& 0 < n_pendulum
    &&& state_size == spec_state_size(n_pendulum as int, n_arm as int)
    &&& cells.len() == state_size * ladder.len()
}

pub struct QTableAgent<V> {
    digitized_actions: Vec<AcrobotAction<V>>,
    qtable: QTable<V>,
    n_arm_digitization: usize,
    n_pendulum_digitization: usize,
}

impl<V: Copy> QTableAgent<V> {
    pub closed spec fn ladder(&self) -> Seq<AcrobotAction<V>> {
        self.digitized_actions@
    }

    pub closed spec fn table(&self) -> QTable<V> {
        self.qtable
    }

    pub closed spec fn n_arm(&self) -> nat {
        self.n_arm_digitization as nat
    }

    pub closed spec fn n_pendulum(&self) -> nat {
        self.n_pendulum_digitization as nat
    }

    pub open spec fn wf(&self) -> bool {
        &&& self.table().wf()
        &&& self.table().cols() == self.ladder().len()
        &&& parts_ok(
            self.ladder(),
            self.table().rows(),
            self.table().cells(),
            self.n_arm(),
            self.n_pendulum(),
        )
    }

    /// An agent for `task`: one rung per control in `torques` (in that order) on
    /// `actuator_id`, and a table of one row per flat state of the task, every
    /// cell `initial`. `None` when `torques` is empty or the table's cells would
    /// not fit in a `usize`.
    pub fn new(task: &AcrobotBalanceTask, actuator_id: ObjectId<Actuator>, torques: &[V], initial: V) -> (r:
        Option<Self>)
        requires
            task.wf(),
        ensures
            r.is_some() <==> 0 < torques@.len() && spec_state_size(
                task.n_pendulum() as int,
                task.n_arm() as int,
            ) * torques@.len() <= usize::MAX,
            r matches Some(a) ==> {
                &&& a.wf()
                &&& is_ladder(a.ladder(), actuator_id, torques@)
                &&& a.n_arm() == task.n_arm()
                &&& a.n_pendulum() == task.n_pendulum()
                &&& a.table().rows() == spec_state_size(task.n_pendulum() as int, task.n_arm() as int)
                &&& a.table().cells() == Seq::new(a.table().rows() * torques@.len(), |_i: int| initial)
            },
    {
        if torques.len() == 0 {
            return None;
        }
        let state_size = task.state_size();
        let qtable = match QTable::new(state_size, torques.len(), initial) {
            Some(t) => t,
            None => return None,
        };
        let digitized_actions = make_digitized_actions(actuator_id, torques);
        Some(
            QTableAgent {
                digitized_actions,
                qtable,
                n_arm_digitization: task.n_arm_digitization(),
                n_pendulum_digitization: task.n_pendulum_digitization(),
            },
        )
    }

    /// An agent reassembled from saved parts; `None` unless `parts_ok` holds of
    /// them.
    pub fn from_parts(
        digitized_actions: Vec<AcrobotAction<V>>,
        state_size: usize,
        cells: Vec<V>,
        n_arm_digitization: usize,
        n_pendulum_digitization: usize,
    ) -> (r: Option<Self>)
        ensures
            r.is_some() <==> parts_ok(
                digitized_actions@,
                state_size as nat,
                cells@,
                n_arm_digitization as nat,
                n_pendulum_digitization as nat,
            ),
            r matches Some(a) ==> {
                &&& a.wf()
                &&& a.ladder() == digitized_actions@
                &&& a.table().rows() == state_size
                &&& a.table().cells() == cells@
                &&& a.n_arm() == n_arm_digitization
                &&& a.n_pendulum() == n_pendulum_digitization
            },
    {
        let n = digitized_actions.len();
        if n == 0 || n_arm_digitization == 0 || n_pendulum_digitization == 0 {
            return None;
        }
        let mut k: usize = 0;
        while k < n
            invariant
                k <= n,
                n == digitized_actions@.len(),
                forall|i: int| 0 <= i < k ==> #[trigger] digitized_actions@[i].digitization_index == i,
            decreases n - k,
        {
            if digitized_actions[k].digitization_index != k {
                return None;
            }
            k += 1;
        }
        let (dp, da) = (n_pendulum_digitization, n_arm_digitization);
        let size = match da.checked_mul(da) {
            Some(a2) => match dp.checked_mul(a2) {
                Some(pa2) => dp.checked_mul(pa2),
                None => None,
            },
            None => None,
        };
        match size {
            Some(s) => if s != state_size {
                return None;
            },
            None => {
                proof {
                    let (p, a) = (dp as int, da as int);
                    assert(a * a <= p * (a * a) <= p * (p * (a * a))) by (nonlinear_arith)
                        requires
                            0 < p,
                            0 < a,
                    ;
                }
                return None;
            },
        }
        let qtable = match QTable::from_cells(state_size, n, cells) {
            Some(t) => t,
            None => return None,
        };
        Some(
            QTableAgent {
                digitized_actions,
                qtable,
                n_arm_digitization,
                n_pendulum_digitization,
            },
        )
    }

    /// The action ladder, in column order.
    pub fn digitized_actions(&self) -> (r: &Vec<AcrobotAction<V>>)
        ensures
            r@ == self.ladder(),
    {
        &self.digitized_actions
    }

    /// The table of action values.
    pub fn qtable(&self) -> (r: &QTable<V>)
        ensures
            *r == self.table(),
    {
        &self.qtable
    }

    pub fn action_size(&self) -> (r: usize)
        ensures
            r == self.ladder().len(),
    {
        self.digitized_actions.len()
    }

    pub fn n_arm_digitization(&self) -> (r: usize)
        ensures
            r == self.n_arm(),
    {
        self.n_arm_digitization
    }

    pub fn n_pendulum_digitization(&self) -> (r: usize)
        ensures
            r == self.n_pendulum(),
    {
        self.n_pendulum_digitization
    }
}

impl<V: Copy> QTableAgent<V> {
    /// The values of `state`'s row, one per rung in ladder order.
    pub fn row(&self, state: &AcrobotState) -> (r: Vec<V>)
        requires
            self.wf(),
            state.digitized_state < self.table().rows(),
        ensures
            r@ == self.table().row_spec(state.digitized_state as nat),
            r@.len() == self.ladder().len(),
    {
        let s = State::new_on(&self.qtable, state.digitized_state).unwrap();
        self.qtable.row(s)
    }

    /// The rung picked by `strategy` in `state`. `row_keys` are the order keys
    /// (see `order_key`) of `state`'s row, `explore` the outcome of the epsilon
    /// draw and `random_index` a uniform draw over the rungs.
    pub fn get_action(
        &self,
        strategy: Strategy,
        state: &AcrobotState,
        row_keys: &[i64],
        explore: bool,
        random_index: usize,
    ) -> (r: AcrobotAction<V>)
        requires
            self.wf(),
            state.digitized_state < self.table().rows(),
            row_keys@.len() == self.ladder().len(),
            random_index < self.ladder().len(),
        ensures
            r.digitization_index < self.ladder().len(),
            r == self.ladder()[r.digitization_index as int],
            match strategy {
                Strategy::Random => r.digitization_index == random_index,
                Strategy::EpsilonGreedy => if explore {
                    r.digitization_index == random_index
                } else {
                    is_first_max(row_keys@, r.digitization_index as int)
                },
                Strategy::MostQValue => is_first_max(row_keys@, r.digitization_index as int),
            },
    {
        let i = select_action(strategy, row_keys, explore, random_index);
        self.digitized_actions[i]
    }

    /// The value of taking `action` in `state`.
    pub fn value(&self, state: &AcrobotState, action: &AcrobotAction<V>) -> (r: V)
        requires
            self.wf(),
            state.digitized_state < self.table().rows(),
            action.digitization_index < self.ladder().len(),
        ensures
            r == self.table().cell(state.digitized_state as nat, action.digitization_index as nat),
    {
        let s = State::new_on(&self.qtable, state.digitized_state).unwrap();
        let a = Action::new_on(&self.qtable, action.digitization_index).unwrap();
        self.qtable.get(s, a)
    }

    /// Sets the value of taking `action` in `state`; every other cell, the ladder
    /// and the resolution are kept.
    pub fn set_value(&mut self, state: &AcrobotState, action: &AcrobotAction<V>, value: V)
        requires
            old(self).wf(),
            state.digitized_state < old(self).table().rows(),
            action.digitization_index < old(self).ladder().len(),
        ensures
            final(self).wf(),
            final(self).ladder() == old(self).ladder(),
            final(self).n_arm() == old(self).n_arm(),
            final(self).n_pendulum() == old(self).n_pendulum(),
            final(self).table().rows() == old(self).table().rows(),
            final(self).table().cells() == old(self).table().cells().update(
                (state.digitized_state * old(self).ladder().len() + action.digitization_index) as int,
                value,
            ),
    {
        let s = State::new_on(&self.qtable, state.digitized_state).unwrap();
        let a = Action::new_on(&self.qtable, action.digitization_index).unwrap();
        self.qtable.set(s, a, value);
    }
}

/// Saving an agent keeps its ladder, its table's rows and cells and its
/// resolution; reassembling exactly those parts is accepted, and so gives back
/// the same ladder order, table and resolution.
pub proof fn lemma_parts_reload<V: Copy>(a: QTableAgent<V>)
    requires
        a.wf(),
    ensures
        parts_ok(a.ladder(), a.table().rows(), a.table().cells(), a.n_arm(), a.n_pendulum()),
{
}

} // verus!
