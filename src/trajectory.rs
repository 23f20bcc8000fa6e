use vstd::prelude::*;

verus! {

/// Why a state could not be read from a trajectory.
#[derive(PartialEq, Eq, Structural, Clone, Copy, Debug)]
pub enum IndexError {
    /// The index is not below the number of states.
    OutOfRange { index: usize, len: usize },
}

/// An accepted trajectory: the initial state followed by one state per
/// integration step, all taken with the same timestep.
pub struct Trajectory<S> {
    initial: S,
    steps: Vec<S>,
    halvings: u32,
}

impl<S> View for Trajectory<S> {
    type V = Seq<S>;

    closed spec fn view(&self) -> Seq<S> {
        seq![self.initial] + self.steps@
    }
}

impl<S> Trajectory<S> {
    #[verifier::type_invariant]
    spec fn inv(&self) -> bool {
        self.steps@.len() < usize::MAX
    }

    /// How many times the initial timestep was halved before this
    /// trajectory was accepted.
    pub closed spec fn halvings_spec(&self) -> nat {
        self.halvings as nat
    }

    /// Builds a trajectory from its initial state and the states after each step.
    pub(crate) fn from_parts(initial: S, steps: Vec<S>, halvings: u32) -> (r: Self)
        requires
            steps@.len() < usize::MAX,
        ensures
            r@ == seq![initial] + steps@,
            r.halvings_spec() == halvings,
    {
        Trajectory { initial, steps, halvings }
    }

    /// Number of states, the initial one included.
    pub fn len(&self) -> (r: usize)
        ensures
            r == self@.len(),
    {
        proof {
            use_type_invariant(self);
        }
        self.steps.len() + 1
    }

    /// How many times the initial timestep was halved before acceptance.
    pub fn halvings(&self) -> (r: u32)
        ensures
            r == self.halvings_spec(),
    {
        self.halvings
    }

    /// The state after `i` steps; index 0 is the initial state.
    pub fn at(&self, i: usize) -> (r: Result<&S, IndexError>)
        ensures
            i < self@.len() ==> r == Ok::<&S, IndexError>(&self@[i as int]),
            i >= self@.len() ==> r == Err::<&S, IndexError>(
                IndexError::OutOfRange { index: i, len: self@.len() as usize },
            ),
    {
        proof {
            use_type_invariant(self);
        }
        let n = self.steps.len();
        if i == 0 {
            Ok(&self.initial)
        } else if i <= n {
            Ok(&self.steps[i - 1])
        } else {
            Err(IndexError::OutOfRange { index: i, len: n + 1 })
        }
    }
}

} // verus!
