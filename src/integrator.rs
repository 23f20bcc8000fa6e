use vstd::prelude::*;
use crate::trajectory::Trajectory;

verus! {

/// Where a build stands.
#[derive(PartialEq, Eq, Structural, Clone, Copy, Debug)]
pub enum Phase {
    /// Steps are still owed for the current timestep.
    Building,
    /// Every step of the current timestep passed the stability check.
    Accepted,
    /// The check failed with the last allowed timestep.
    Abandoned,
}

/// What the caller does next, after handing a step to the builder.
#[derive(PartialEq, Eq, Structural, Clone, Copy, Debug)]
pub enum Action {
    /// Step once more from `current()` with the same timestep.
    Advance,
    /// The sequence was dropped: halve the timestep and step again from
    /// the initial state. `halvings` counts the halvings made so far.
    Restart { halvings: u32 },
    /// All steps are in: call `finish`.
    Finished,
    /// No smaller timestep is allowed: call `finish` for the error.
    GaveUp,
}

/// Why a build produced no trajectory.
#[derive(PartialEq, Eq, Structural, Clone, Copy, Debug)]
pub enum BuildError {
    /// The stability check still failed after `halvings` halvings.
    DidNotStabilize { halvings: u32 },
}

/// Number of offers in `events` that failed the stability check.
pub open spec fn count_unstable<S>(events: Seq<(S, S, bool)>) -> nat
    decreases events.len(),
{
    if events.len() == 0 {
        0
    } else {
        count_unstable(events.drop_last()) + if events.last().2 {
            0nat
        } else {
            1nat
        }
    }
}

/// The state that `steps[i]` was stepped from: the one before it, or `initial`.
pub open spec fn step_origin<S>(initial: S, steps: Seq<S>, i: int) -> S {
    if i == 0 {
        initial
    } else {
        steps[i - 1]
    }
}

/// `steps` are the last offers of `events`, in order, each one judged
/// stable and stepped from the state before it (the first from `initial`),
/// and the offer before them (if any) was judged unstable: they are the
/// whole run of the current timestep.
pub open spec fn is_current_run<S>(initial: S, events: Seq<(S, S, bool)>, steps: Seq<S>) -> bool {
    &&& steps.len() <= events.len()
    &&& forall|i: int|
        0 <= i < steps.len() ==> #[trigger] events[events.len() - steps.len() + i] == (
        step_origin(initial, steps, i),
        steps[i],
        true,
    )
    &&& steps.len() < events.len() ==> !events[events.len() - steps.len() - 1].2
}

/// The adaptive timestep controller. It collects the states of one
/// attempt, drops them when a step fails the stability check, and asks
/// for a restart with half the timestep, up to a bound on the halvings.
pub struct Builder<S> {
    initial: S,
    steps: Vec<S>,
    n_steps: usize,
    max_halvings: u32,
    halvings: u32,
    phase: Phase,
    history: Ghost<Seq<(S, S, bool)>>,
}

impl<S> Builder<S> {
    pub closed spec fn initial_spec(&self) -> S {
        self.initial
    }

    /// The states accepted so far in the current attempt (initial state excluded).
    pub closed spec fn steps_spec(&self) -> Seq<S> {
        self.steps@
    }

    pub closed spec fn n_steps_spec(&self) -> nat {
        self.n_steps as nat
    }

    pub closed spec fn max_halvings_spec(&self) -> nat {
        self.max_halvings as nat
    }

    pub closed spec fn halvings_spec(&self) -> nat {
        self.halvings as nat
    }

    pub closed spec fn phase_spec(&self) -> Phase {
        self.phase
    }

    /// Every step offered so far: the state it started from, the state it
    /// reached, and the verdict of the stability check on it.
    pub closed spec fn history(&self) -> Seq<(S, S, bool)> {
        self.history@
    }

    /// The state that the next step starts from.
    pub open spec fn current_spec(&self) -> S {
        if self.steps_spec().len() == 0 {
            self.initial_spec()
        } else {
            self.steps_spec().last()
        }
    }

    pub closed spec fn wf(&self) -> bool {
        &&& self.n_steps < usize::MAX
        &&& self.steps@.len() <= self.n_steps
        &&& self.halvings <= self.max_halvings
        &&& self.phase != Phase::Abandoned ==> self.halvings == count_unstable(self.history@)
        &&& is_current_run(self.initial, self.history@, self.steps@)
        &&& self.history@.len() <= count_unstable(self.history@) * self.n_steps
            + self.steps@.len()
        &&& (self.phase == Phase::Accepted <==> (self.phase != Phase::Abandoned
            && self.steps@.len() == self.n_steps))
        &&& (self.phase == Phase::Abandoned ==> self.steps@.len() == 0 && self.halvings
            == self.max_halvings && self.n_steps > 0 && count_unstable(self.history@)
            == self.halvings + 1)
    }

    /// Starts a build of `n_steps` steps from `initial`, allowing at most
    /// `max_halvings` halvings of the timestep.
    pub fn new(initial: S, n_steps: usize, max_halvings: u32) -> (r: Self)
        requires
            n_steps < usize::MAX,
        ensures
            r.wf(),
            r.initial_spec() == initial,
            r.steps_spec() == Seq::<S>::empty(),
            r.n_steps_spec() == n_steps,
            r.max_halvings_spec() == max_halvings,
            r.halvings_spec() == 0,
            r.history() == Seq::<(S, S, bool)>::empty(),
            r.phase_spec() == if n_steps == 0 {
                Phase::Accepted
            } else {
                Phase::Building
            },
    {
        let phase = if n_steps == 0 {
            Phase::Accepted
        } else {
            Phase::Building
        };
        Builder {
            initial,
            steps: Vec::new(),
            n_steps,
            max_halvings,
            halvings: 0,
            phase,
            history: Ghost(Seq::empty()),
        }
    }

    /// Where the build stands.
    pub fn phase(&self) -> (r: Phase)
        ensures
            r == self.phase_spec(),
    {
        self.phase
    }

    /// Whether more steps are owed.
    pub fn is_building(&self) -> (r: bool)
        ensures
            r == (self.phase_spec() == Phase::Building),
    {
        self.phase == Phase::Building
    }

    /// How many times the timestep has been halved so far.
    pub fn halvings(&self) -> (r: u32)
        ensures
            r == self.halvings_spec(),
    {
        self.halvings
    }

    /// The state that the next step starts from: the last accepted state
    /// of the current attempt, or the initial state.
    pub fn current(&self) -> (r: &S)
        ensures
            *r == self.current_spec(),
    {
        let n = self.steps.len();
        if n == 0 {
            &self.initial
        } else {
            &self.steps[n - 1]
        }
    }
    /// A build ends after a bounded number of steps: each failed attempt
    /// takes at most `n_steps` offers, and at most `max_halvings + 1`
    /// attempts fail, so no build is offered more than
    /// `(max_halvings + 2) * n_steps` steps.
    pub proof fn lemma_offers_bounded(&self)
        requires
            self.wf(),
        ensures
            count_unstable(self.history()) <= self.max_halvings_spec() + 1,
            self.history().len() <= count_unstable(self.history()) * self.n_steps_spec()
                + self.steps_spec().len(),
            self.history().len() <= (self.max_halvings_spec() + 2) * self.n_steps_spec(),
    {
        let c = count_unstable(self.history@);
        let m = self.max_halvings as int;
        let n = self.n_steps as int;
        assert(c * n <= (m + 1) * n) by (nonlinear_arith)
            requires
                c <= m + 1,
                n >= 0,
        ;
        assert((m + 1) * n + n == (m + 2) * n) by (nonlinear_arith);
    }

    /// Hands the builder the state reached by one step from `current()`,
    /// with the verdict of the stability check on it. A stable state is
    /// kept; an unstable one drops the whole attempt, which restarts with
    /// the timestep halved, or ends the build when no halving is left.
    pub fn offer(&mut self, next: S, stable: bool) -> (r: Action)
        requires
            old(self).wf(),
            old(self).phase_spec() == Phase::Building,
        ensures
            final(self).wf(),
            final(self).initial_spec() == old(self).initial_spec(),
            final(self).n_steps_spec() == old(self).n_steps_spec(),
            final(self).max_halvings_spec() == old(self).max_halvings_spec(),
            final(self).history() == old(self).history().push(
                (old(self).current_spec(), next, stable),
            ),
            stable ==> final(self).steps_spec() == old(self).steps_spec().push(next),
            stable ==> final(self).halvings_spec() == old(self).halvings_spec(),
            stable && final(self).steps_spec().len() == old(self).n_steps_spec() ==> {
                &&& final(self).phase_spec() == Phase::Accepted
                &&& r == Action::Finished
            },
            stable && final(self).steps_spec().len() < old(self).n_steps_spec() ==> {
                &&& final(self).phase_spec() == Phase::Building
                &&& r == Action::Advance
            },
            !stable ==> final(self).steps_spec() == Seq::<S>::empty(),
            !stable && old(self).halvings_spec() < old(self).max_halvings_spec() ==> {
                &&& final(self).halvings_spec() == old(self).halvings_spec() + 1
                &&& final(self).phase_spec() == Phase::Building
                &&& r == (Action::Restart { halvings: final(self).halvings_spec() as u32 })
            },
            !stable && old(self).halvings_spec() == old(self).max_halvings_spec() ==> {
                &&& final(self).halvings_spec() == old(self).halvings_spec()
                &&& final(self).phase_spec() == Phase::Abandoned
                &&& r == Action::GaveUp
            },
    {
        let ghost old_history = self.history@;
        let ghost old_steps = self.steps@;
        let ghost from = self.current_spec();
        self.history = Ghost(old_history.push((from, next, stable)));
        let ghost events = self.history@;
        assert(events.drop_last() == old_history);
        assert(count_unstable(events) == count_unstable(old_history) + if stable {
            0nat
        } else {
            1nat
        });
        if stable {
            self.steps.push(next);
            assert forall|i: int| 0 <= i < self.steps@.len() implies #[trigger] events[events.len()
                - self.steps@.len() + i] == (
                step_origin(self.initial, self.steps@, i),
                self.steps@[i],
                true,
            ) by {
                if i < old_steps.len() {
                    assert(step_origin(self.initial, self.steps@, i) == step_origin(
                        self.initial,
                        old_steps,
                        i,
                    ));
                    assert(events[events.len() - self.steps@.len() + i] == old_history[
                        old_history.len() - old_steps.len() + i
                    ]);
                }
            }
            if self.steps.len() == self.n_steps {
                self.phase = Phase::Accepted;
                Action::Finished
            } else {
                Action::Advance
            }
        } else {
            self.steps.clear();
            let ghost c = count_unstable(old_history);
            let ghost n = self.n_steps as int;
            assert((c + 1) * n == c * n + n) by (nonlinear_arith);
            if self.halvings < self.max_halvings {
                self.halvings = self.halvings + 1;
                Action::Restart { halvings: self.halvings }
            } else {
                self.phase = Phase::Abandoned;
                Action::GaveUp
            }
        }
    }

    /// Ends a build that owes no more steps: the trajectory of the accepted
    /// attempt, or the error of an abandoned one. An accepted trajectory has
    /// one state per step after the initial one; those are the last offers
    /// made, in order, each judged stable and each stepped from the state
    /// before it, all with the timestep of the final attempt.
    pub fn finish(self) -> (r: Result<Trajectory<S>, BuildError>)
        requires
            self.wf(),
            self.phase_spec() != Phase::Building,
        ensures
            self.phase_spec() == Phase::Accepted <==> r is Ok,
            r matches Ok(t) ==> {
                &&& t@ == seq![self.initial_spec()] + self.steps_spec()
                &&& t@.len() == self.n_steps_spec() + 1
                &&& t@[0] == self.initial_spec()
                &&& t.halvings_spec() == self.halvings_spec()
                &&& t.halvings_spec() == count_unstable(self.history())
                &&& forall|i: int|
                    1 <= i < t@.len() ==> #[trigger] self.history()[self.history().len()
                        - self.n_steps_spec() + i - 1] == (t@[i - 1], t@[i], true)
            },
            r matches Err(e) ==> e == (BuildError::DidNotStabilize {
                halvings: self.halvings_spec() as u32,
            }) && self.halvings_spec() == self.max_halvings_spec() && count_unstable(
                self.history(),
            ) == self.max_halvings_spec() + 1,
    {
        if self.phase == Phase::Accepted {
            let ghost events = self.history@;
            let ghost steps = self.steps@;
            let t = Trajectory::from_parts(self.initial, self.steps, self.halvings);
            assert forall|i: int| 1 <= i < t@.len() implies #[trigger] events[events.len()
                - steps.len() + i - 1] == (t@[i - 1], t@[i], true) by {
                assert(t@[i] == steps[i - 1]);
                assert(t@[i - 1] == step_origin(self.initial, steps, i - 1));
                assert(events[events.len() - steps.len() + (i - 1)] == (
                    step_origin(self.initial, steps, i - 1),
                    steps[i - 1],
                    true,
                ));
            }
            Ok(t)
        } else {
            Err(BuildError::DidNotStabilize { halvings: self.halvings })
        }
    }
}

} // verus!
