//! A dense table of action values: one row per digitized state, one column per
//! discrete action.
use vstd::prelude::*;

verus! {

/// A row index checked against the table it was made for.
#[derive(Clone, Copy, Debug, PartialEq, Eq, Structural)]
pub struct State {
    index: usize,
}

/// A column index checked against the table it was made for.
#[derive(Clone, Copy, Debug, PartialEq, Eq, Structural)]
pub struct Action {
    index: usize,
}

impl State {
    pub closed spec fn spec_index(self) -> nat {
        self.index as nat
    }

    /// The state `index` of `table`; `None` when the table has no such row.
    pub fn new_on<V: Copy>(table: &QTable<V>, index: usize) -> (r: Option<State>)
        ensures
            r.is_some() <==> index < table.rows(),
            r matches Some(s) ==> s.spec_index() == index,
    {
        if index < table.state_size {
            Some(State { index })
        } else {
            None
        }
    }

    pub fn index(&self) -> (r: usize)
        ensures
            r == self.spec_index(),
    {
        self.index
    }
}

impl Action {
    pub closed spec fn spec_index(self) -> nat {
        self.index as nat
    }

    /// The action `index` of `table`; `None` when the table has no such column.
    pub fn new_on<V: Copy>(table: &QTable<V>, index: usize) -> (r: Option<Action>)
        ensures
            r.is_some() <==> index < table.cols(),
            r matches Some(a) ==> a.spec_index() == index,
    {
        if index < table.action_size {
            Some(Action { index })
        } else {
            None
        }
    }

    pub fn index(&self) -> (r: usize)
        ensures
            r == self.spec_index(),
    {
        self.index
    }
}

/// Rows of `cols` values each, stored row after row.
pub struct QTable<V> {
    state_size: usize,
    action_size: usize,
    values: Vec<V>,
}

impl<V: Copy> QTable<V> {
    pub closed spec fn rows(&self) -> nat {
        self.state_size as nat
    }

    pub closed spec fn cols(&self) -> nat {
        self.action_size as nat
    }

    /// The table's contents, row after row.
    pub closed spec fn cells(&self) -> Seq<V> {
        self.values@
    }

    pub open spec fn wf(&self) -> bool {
        &&& self.cells().len() == self.rows() * self.cols()
        &&& self.rows() * self.cols() <= usize::MAX
    }

    /// The value at row `s`, column `a`.
    pub open spec fn cell(&self, s: nat, a: nat) -> V {
        self.cells()[(s * self.cols() + a) as int]
    }

    /// Row `s` as a sequence.
    pub open spec fn row_spec(&self, s: nat) -> Seq<V> {
        self.cells().subrange((s * self.cols()) as int, (s * self.cols() + self.cols()) as int)
    }

    /// A table of `state_size` rows and `action_size` columns, every cell
    /// `initial`. `None` when the number of cells does not fit in a `usize`.
    pub fn new(state_size: usize, action_size: usize, initial: V) -> (r: Option<Self>)
        ensures
            r.is_some() <==> state_size * action_size <= usize::MAX,
            r matches Some(t) ==> {
                &&& t.wf()
                &&& t.rows() == state_size
                &&& t.cols() == action_size
                &&& t.cells() == Seq::new((state_size * action_size) as nat, |_i: int| initial)
            },
    {
        let n = match state_size.checked_mul(action_size) {
            Some(n) => n,
            None => return None,
        };
        let mut values: Vec<V> = Vec::new();
        let mut k: usize = 0;
        while k < n
            invariant
                k <= n,
                values@ == Seq::new(k as nat, |_i: int| initial),
            decreases n - k,
        {
            values.push(initial);
            k += 1;
            assert(values@ =~= Seq::new(k as nat, |_i: int| initial));
        }
        Some(QTable { state_size, action_size, values })
    }

    /// A table of `state_size` rows and `action_size` columns holding `values`
    /// row after row; `None` when their number is not the product of the two.
    pub fn from_cells(state_size: usize, action_size: usize, values: Vec<V>) -> (r: Option<Self>)
        ensures
            r.is_some() <==> values@.len() == state_size * action_size,
            r matches Some(t) ==> {
                &&& t.wf()
                &&& t.rows() == state_size
                &&& t.cols() == action_size
                &&& t.cells() == values@
            },
    {
        let len = values.len();
        match state_size.checked_mul(action_size) {
            Some(n) => if len == n {
                Some(QTable { state_size, action_size, values })
            } else {
                None
            },
            None => None,
        }
    }

    pub fn state_size(&self) -> (r: usize)
        ensures
            r == self.rows(),
    {
        self.state_size
    }

    pub fn action_size(&self) -> (r: usize)
        ensures
            r == self.cols(),
    {
        self.action_size
    }

    /// The table's contents, row after row.
    pub fn cells_data(&self) -> (r: &Vec<V>)
        ensures
            r@ == self.cells(),
    {
        &self.values
    }
}

proof fn lemma_cell_in_range(s: nat, a: nat, rows: nat, cols: nat)
    requires
        s < rows,
        a < cols,
    ensures
        s * cols + a < rows * cols,
        s * cols + cols <= rows * cols,
{
    assert(s * cols + cols <= rows * cols) by (nonlinear_arith)
        requires
            s < rows,
    ;
}

impl<V: Copy> QTable<V> {
    /// The value for `state` and `action`.
    pub fn get(&self, state: State, action: Action) -> (r: V)
        requires
            self.wf(),
            state.spec_index() < self.rows(),
            action.spec_index() < self.cols(),
        ensures
            r == self.cell(state.spec_index(), action.spec_index()),
    {
        proof {
            lemma_cell_in_range(state.spec_index(), action.spec_index(), self.rows(), self.cols());
        }
        self.values[state.index * self.action_size + action.index]
    }

    /// Sets the value for `state` and `action`; every other cell is kept.
    pub fn set(&mut self, state: State, action: Action, value: V)
        requires
            old(self).wf(),
            state.spec_index() < old(self).rows(),
            action.spec_index() < old(self).cols(),
        ensures
            final(self).wf(),
            final(self).rows() == old(self).rows(),
            final(self).cols() == old(self).cols(),
            final(self).cells() == old(self).cells().update(
                (state.spec_index() * old(self).cols() + action.spec_index()) as int,
                value,
            ),
    {
        proof {
            lemma_cell_in_range(state.spec_index(), action.spec_index(), self.rows(), self.cols());
        }
        let i = state.index * self.action_size + action.index;
        self.values.set(i, value);
    }

    /// The values of `state` for every action, in action order.
    pub fn row(&self, state: State) -> (r: Vec<V>)
        requires
            self.wf(),
            state.spec_index() < self.rows(),
        ensures
            r@ == self.row_spec(state.spec_index()),
            r@.len() == self.cols(),
    {
        proof {
            if 0 < self.cols() {
                lemma_cell_in_range(state.spec_index(), 0, self.rows(), self.cols());
            } else {
                assert(state.spec_index() * self.cols() == 0) by (nonlinear_arith)
                    requires
                        self.cols() == 0,
                ;
            }
        }
        let start = state.index * self.action_size;
        let n = self.action_size;
        let mut out: Vec<V> = Vec::new();
        let mut k: usize = 0;
        while k < n
            invariant
                k <= n,
                n == self.cols(),
                start == state.spec_index() * self.cols(),
                start + n <= self.cells().len(),
                self.cells().len() <= usize::MAX,
                self.cells() == self.values@,
                out@ == self.cells().subrange(start as int, start + k),
            decreases n - k,
        {
            out.push(self.values[start + k]);
            k += 1;
            assert(out@ =~= self.cells().subrange(start as int, start + k));
        }
        out
    }
}

} // verus!
