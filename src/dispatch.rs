use vstd::prelude::*;

use crate::cache::Cache;
use crate::config::Step;
use crate::connector::{cache_after, connector_of, connector_spec, fits, judge, outcome_fits, Connector, outcome_spec, plan, plan_spec, shared_key, shared_key_string, Outcome, Request, StepError};

verus! {

/// Where a pipeline run stands.
#[derive(Clone, Copy, Debug, PartialEq, Eq, Structural)]
pub enum RunState {
    Idle,
    Running(usize),
    Done,
    Failed(StepError, usize),
}

/// The indices `0..k` in order.
pub open spec fn indices(k: nat) -> Seq<int> {
    Seq::new(k, |j: int| j)
}

/// Sequences the steps of one run, one at a time and each exactly once. The
/// caller performs each request it hands out and reports the outcome back.
pub struct Dispatcher {
    steps: Vec<Step>,
    state: RunState,
    pending: Option<Connector>,
    cache: Cache,
    visited: Ghost<Seq<int>>,
}

impl Dispatcher {
    pub closed spec fn steps_spec(&self) -> Seq<Step> {
        self.steps@
    }

    pub closed spec fn state_spec(&self) -> RunState {
        self.state
    }

    /// Whether a request has been handed out and its outcome not yet reported.
    pub closed spec fn awaiting_spec(&self) -> bool {
        self.pending is Some
    }

    /// The connector of the request handed out and not yet answered.
    pub closed spec fn pending_spec(&self) -> Option<Connector> {
        self.pending
    }

    pub closed spec fn cache_spec(&self) -> Map<Seq<char>, Seq<u8>> {
        self.cache@
    }

    /// The indices of the steps that have finished, successfully or not, in
    /// the order they finished.
    pub closed spec fn visited(&self) -> Seq<int> {
        self.visited@
    }

    pub closed spec fn wf(&self) -> bool {
        &&& self.cache.wf()
        &&& self.pending is Some ==> self.state is Running
        &&& match self.state {
            RunState::Idle => self.visited@ == indices(0),
            RunState::Running(k) => k < self.steps@.len() && self.visited@ == indices(k as nat),
            RunState::Done => self.visited@ == indices(self.steps@.len()),
            RunState::Failed(_, i) => i < self.steps@.len() && self.visited@ == indices(
                i as nat + 1,
            ),
        }
    }

    /// A run over `steps`, not yet started, with an empty cache.
    pub fn new(steps: Vec<Step>) -> (r: Dispatcher)
        ensures
            r.wf(),
            r.steps_spec() == steps@,
            r.state_spec() == RunState::Idle,
            !r.awaiting_spec(),
            r.cache_spec() == Map::<Seq<char>, Seq<u8>>::empty(),
    {
        Dispatcher {
            steps,
            state: RunState::Idle,
            pending: None,
            cache: Cache::new(),
            visited: Ghost(indices(0)),
        }
    }

    /// Starts an idle run at its first step; a run with no steps is done at
    /// once. Any other state is left as it is.
    pub fn start(&mut self)
        requires
            old(self).wf(),
        ensures
            final(self).wf(),
            final(self).steps_spec() == old(self).steps_spec(),
            final(self).cache_spec() == old(self).cache_spec(),
            final(self).pending_spec() == old(self).pending_spec(),
            final(self).state_spec() == if old(self).state_spec() == RunState::Idle {
                if old(self).steps_spec().len() > 0 {
                    RunState::Running(0)
                } else {
                    RunState::Done
                }
            } else {
                old(self).state_spec()
            },
    {
        if self.state == RunState::Idle {
            if self.steps.len() > 0 {
                self.state = RunState::Running(0);
            } else {
                self.state = RunState::Done;
            }
        }
    }

    pub fn state(&self) -> (r: RunState)
        ensures
            r == self.state_spec(),
    {
        self.state
    }

    pub fn is_running(&self) -> (r: bool)
        ensures
            r == self.state_spec() is Running,
    {
        match self.state {
            RunState::Running(_) => true,
            _ => false,
        }
    }

    pub fn is_awaiting(&self) -> (r: bool)
        ensures
            r == self.awaiting_spec(),
    {
        match self.pending {
            Some(_) => true,
            None => false,
        }
    }

    /// Whether `outcome` answers the pending request.
    pub fn accepts(&self, outcome: &Outcome) -> (r: bool)
        ensures
            r == (self.pending_spec() matches Some(c) && outcome_fits(c, *outcome)),
    {
        match self.pending {
            Some(c) => fits(c, outcome),
            None => false,
        }
    }

    pub fn cache(&self) -> (r: &Cache)
        requires
            self.wf(),
        ensures
            r.wf(),
            r@ == self.cache_spec(),
    {
        &self.cache
    }

    /// Moves past step `i`, which succeeded: to the next step, or to done
    /// after the last.
    fn succeed(&mut self, i: usize)
        requires
            old(self).wf(),
            old(self).state == RunState::Running(i),
            old(self).pending is None,
        ensures
            final(self).wf(),
            final(self).steps == old(self).steps,
            final(self).cache == old(self).cache,
            final(self).pending is None,
            final(self).state == if i + 1 < old(self).steps@.len() {
                RunState::Running((i + 1) as usize)
            } else {
                RunState::Done
            },
            final(self).visited@ == old(self).visited@.push(i as int),
    {
        self.visited = Ghost(self.visited@.push(i as int));
        assert(self.visited@ =~= indices(i as nat + 1));
        if i < self.steps.len() - 1 {
            self.state = RunState::Running(i + 1);
        } else {
            self.state = RunState::Done;
        }
    }

    /// Ends the run at step `i` with error `e`.
    fn fail(&mut self, e: StepError, i: usize)
        requires
            old(self).wf(),
            old(self).state == RunState::Running(i),
        ensures
            final(self).wf(),
            final(self).steps == old(self).steps,
            final(self).cache == old(self).cache,
            final(self).pending is None,
            final(self).state == RunState::Failed(e, i),
            final(self).visited@ == old(self).visited@.push(i as int),
    {
        self.visited = Ghost(self.visited@.push(i as int));
        assert(self.visited@ =~= indices(i as nat + 1));
        self.pending = None;
        self.state = RunState::Failed(e, i);
    }

    /// Hands out the request of the current step. A step that cannot start
    /// (a write with nothing cached, a database write) ends the run with its
    /// error and hands out nothing. Outside a running step with no request
    /// pending, nothing changes.
    pub fn advance(&mut self) -> (r: Option<Request>)
        requires
            old(self).wf(),
        ensures
            final(self).wf(),
            final(self).steps_spec() == old(self).steps_spec(),
            final(self).cache_spec() == old(self).cache_spec(),
            match old(self).state_spec() {
                RunState::Running(i) if !old(self).awaiting_spec() => {
                    let step = old(self).steps_spec()[i as int];
                    match r {
                        Some(req) => {
                            &&& plan_spec(step.kind, step.env, old(self).cache_spec(), Ok(req))
                            &&& final(self).state_spec() == old(self).state_spec()
                            &&& final(self).pending_spec() == Some(connector_spec(step.kind))
                            &&& final(self).visited() == old(self).visited()
                        },
                        None => {
                            &&& final(self).state_spec() matches RunState::Failed(e, j) && j == i
                                && plan_spec(step.kind, step.env, old(self).cache_spec(), Err(e))
                            &&& final(self).pending_spec() is None
                            &&& final(self).visited() == old(self).visited().push(i as int)
                        },
                    }
                },
                _ => r is None && final(self).state_spec() == old(self).state_spec()
                    && final(self).pending_spec() == old(self).pending_spec()
                    && final(self).visited() == old(self).visited(),
            },
    {
        match self.state {
            RunState::Running(i) => {
                if let Some(_) = self.pending {
                    return None;
                }
                let c = connector_of(&self.steps[i].kind);
                let planned = plan(&self.steps[i].kind, &self.steps[i].env, &self.cache);
                match planned {
                    Ok(req) => {
                        self.pending = Some(c);
                        Some(req)
                    },
                    Err(e) => {
                        self.fail(e, i);
                        None
                    },
                }
            },
            _ => None,
        }
    }

    /// Steps finish in the order they are listed, each at most once, and none
    /// is passed over: a running run has finished exactly the steps before the
    /// current one, a finished run all of them, and a failed run those up to
    /// and including the one that failed.
    pub proof fn lemma_visit_order(&self)
        requires
            self.wf(),
        ensures
            forall|j: int| 0 <= j < self.visited().len() ==> #[trigger] self.visited()[j] == j,
            forall|a: int, b: int|
                0 <= a < b < self.visited().len() ==> #[trigger] self.visited()[a]
                    != #[trigger] self.visited()[b],
            match self.state_spec() {
                RunState::Idle => self.visited().len() == 0,
                RunState::Running(k) => self.visited().len() == k && k < self.steps_spec().len(),
                RunState::Done => self.visited().len() == self.steps_spec().len(),
                RunState::Failed(_, i) => self.visited().len() == i + 1 && i < self.steps_spec().len(),
            },
    {
    }

    /// Reports the outcome of the pending request, which must answer it. On
    /// success the payload, if the step produced one, is stored under the
    /// shared key and the run moves to the next step, or is done after the
    /// last; on failure the run ends with the error and the cache is left as
    /// it was.
    pub fn complete(&mut self, outcome: Outcome)
        requires
            old(self).wf(),
            old(self).pending_spec() matches Some(c) && outcome_fits(c, outcome),
        ensures
            final(self).wf(),
            final(self).steps_spec() == old(self).steps_spec(),
            !final(self).awaiting_spec(),
            final(self).visited() == old(self).visited().push(
                old(self).state_spec()->Running_0 as int,
            ),
            ({
                let i = old(self).state_spec()->Running_0;
                match outcome_spec(outcome) {
                    Ok(stored) => {
                        &&& final(self).state_spec() == if i + 1 < old(
                            self,
                        ).steps_spec().len() {
                            RunState::Running((i + 1) as usize)
                        } else {
                            RunState::Done
                        }
                        &&& final(self).cache_spec() == cache_after(
                            old(self).cache_spec(),
                            Ok(stored),
                        )
                    },
                    Err(e) => {
                        &&& final(self).state_spec() == RunState::Failed(e, i)
                        &&& final(self).cache_spec() == old(self).cache_spec()
                    },
                }
            }),
    {
        let i = match self.state {
            RunState::Running(i) => i,
            _ => 0,
        };
        self.pending = None;
        match judge(outcome) {
            Ok(Some(v)) => {
                self.cache.put(shared_key_string(), v);
                self.succeed(i);
            },
            Ok(None) => {
                self.succeed(i);
            },
            Err(e) => {
                self.fail(e, i);
            },
        }
    }
}

} // verus!
