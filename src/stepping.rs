//! Stepping commands: when to stop ticking.
//!
//! A command is started from the session's current state and then told the
//! result of each tick; it answers with the command's result once it is over.
use crate::artifact::SourceLocation;
use crate::context::{DebugCommandResult, DebugContext};
use vstd::prelude::*;

verus! {

/// The stopping rule of a command.
#[derive(Debug, PartialEq, Eq)]
pub enum Policy {
    /// Until the source location changes.
    Into,
    /// Until the source location changes at the starting depth or above.
    Over,
    /// Until the source location changes above the starting depth.
    Out,
    /// Until a tick does not complete normally.
    Continue,
    /// Until the ACIR index changes.
    OutOfBrillig,
    /// One whole ACIR opcode, solved by the ACVM in one go.
    AcirOpcode,
    /// Nothing is left to run.
    Finished,
}

/// What the driver does next for a command.
#[derive(Debug, PartialEq, Eq)]
pub enum Tick {
    /// One `step_into_opcode` tick.
    StepInto,
    /// Let the ACVM solve the current opcode, and report its status.
    SolveOpcode,
    /// The command is over with this result, without a tick.
    Stop(DebugCommandResult),
}

/// A stepping command in progress.
#[derive(Debug)]
pub struct Stepper {
    policy: Policy,
    into_start: Option<Vec<SourceLocation>>,
    start_depth: usize,
    start_acir: usize,
}

pub open spec fn view_locations(o: Option<Vec<SourceLocation>>) -> Option<Seq<SourceLocation>> {
    match o {
        None => None,
        Some(v) => Some(v@),
    }
}

/// The source location has moved on from `start`.
pub open spec fn moved_from(start: Option<Seq<SourceLocation>>, ctx: DebugContext) -> bool {
    let cur = ctx.current_source_location_spec();
    cur is Some && cur != start
}

pub open spec fn depth(ctx: DebugContext) -> int {
    ctx.source_call_stack_spec().len() as int
}

fn same_locations(a: &Option<Vec<SourceLocation>>, b: &Option<Vec<SourceLocation>>) -> (r: bool)
    ensures
        r == (view_locations(*a) == view_locations(*b)),
{
    match (a, b) {
        (None, None) => true,
        (Some(x), Some(y)) => {
            if x.len() != y.len() {
                return false;
            }
            let mut i: usize = 0;
            while i < x.len()
                invariant
                    i <= x@.len() == y@.len(),
                    view_locations(*a) == Some(x@),
                    view_locations(*b) == Some(y@),
                    forall|j: int| 0 <= j < i ==> x@[j] == y@[j],
                decreases x@.len() - i,
            {
                if x[i] != y[i] {
                    assert(x@[i as int] != y@[i as int]);
                    return false;
                }
                i = i + 1;
            }
            assert(x@ =~= y@);
            true
        },
        _ => false,
    }
}

impl Stepper {
    pub closed spec fn policy_spec(&self) -> Policy {
        self.policy
    }

    pub closed spec fn into_start_spec(&self) -> Option<Seq<SourceLocation>> {
        view_locations(self.into_start)
    }

    pub closed spec fn start_depth_spec(&self) -> int {
        self.start_depth as int
    }

    pub closed spec fn start_acir_spec(&self) -> usize {
        self.start_acir
    }

    /// What the driver does next.
    pub fn tick(&self) -> (r: Tick)
        ensures
            r == match self.policy_spec() {
                Policy::AcirOpcode => Tick::SolveOpcode,
                Policy::Finished => Tick::Stop(DebugCommandResult::Done),
                _ => Tick::StepInto,
            },
    {
        match self.policy {
            Policy::AcirOpcode => Tick::SolveOpcode,
            Policy::Finished => Tick::Stop(DebugCommandResult::Done),
            _ => Tick::StepInto,
        }
    }

    /// Takes the result of one tick, with the session as that tick left it.
    /// Returns the command's result once it is over, `None` to tick again.
    pub fn after_tick(&mut self, ctx: &DebugContext, result: DebugCommandResult) -> (r: Option<
        DebugCommandResult,
    >)
        ensures
            final(self).policy_spec() == old(self).policy_spec(),
            final(self).start_depth_spec() == old(self).start_depth_spec(),
            final(self).start_acir_spec() == old(self).start_acir_spec(),
            old(self).policy_spec() != Policy::Over && old(self).policy_spec() != Policy::Out
                ==> final(self).into_start_spec() == old(self).into_start_spec(),
            result != DebugCommandResult::Stepped ==> r == Some(result)
                && final(self).into_start_spec() == old(self).into_start_spec(),
            result == DebugCommandResult::Stepped ==> match old(self).policy_spec() {
                Policy::Into => r == (if moved_from(old(self).into_start_spec(), *ctx) {
                    Some(DebugCommandResult::Stepped)
                } else {
                    None
                }),
                Policy::Over => if !moved_from(old(self).into_start_spec(), *ctx) {
                    r is None && final(self).into_start_spec() == old(self).into_start_spec()
                } else if depth(*ctx) <= old(self).start_depth_spec() {
                    r == Some(DebugCommandResult::Stepped)
                } else {
                    r is None && final(self).into_start_spec()
                        == ctx.current_source_location_spec()
                },
                Policy::Out => if !moved_from(old(self).into_start_spec(), *ctx) {
                    r is None && final(self).into_start_spec() == old(self).into_start_spec()
                } else if depth(*ctx) < old(self).start_depth_spec() {
                    r == Some(DebugCommandResult::Stepped)
                } else {
                    r is None && final(self).into_start_spec()
                        == ctx.current_source_location_spec()
                },
                Policy::Continue => r is None,
                Policy::OutOfBrillig => r == (if ctx.acir_index_spec() != Some(
                    old(self).start_acir_spec(),
                ) {
                    Some(DebugCommandResult::Stepped)
                } else {
                    None
                }),
                Policy::AcirOpcode => r == Some(result),
                Policy::Finished => r == Some(DebugCommandResult::Done),
            },
            r == Some(DebugCommandResult::Stepped) && old(self).policy_spec() == Policy::Over
                ==> depth(*ctx) <= old(self).start_depth_spec(),
            r == Some(DebugCommandResult::Stepped) && old(self).policy_spec() == Policy::Out
                ==> depth(*ctx) < old(self).start_depth_spec(),
            r == Some(DebugCommandResult::Stepped) && old(self).policy_spec()
                == Policy::OutOfBrillig ==> ctx.acir_index_spec() != Some(
                old(self).start_acir_spec(),
            ),
    {
        if !matches!(result, DebugCommandResult::Stepped) {
            return Some(result);
        }
        match self.policy {
            Policy::Into | Policy::Over | Policy::Out => {
                let current = ctx.get_current_source_location();
                if current.is_none() || same_locations(&current, &self.into_start) {
                    return None;
                }
                if matches!(self.policy, Policy::Into) {
                    return Some(DebugCommandResult::Stepped);
                }
                let new_depth = ctx.get_source_call_stack().len();
                let done = if matches!(self.policy, Policy::Over) {
                    new_depth <= self.start_depth
                } else {
                    new_depth < self.start_depth
                };
                if done {
                    Some(DebugCommandResult::Stepped)
                } else {
                    self.into_start = current;
                    None
                }
            },
            Policy::Continue => None,
            Policy::OutOfBrillig => {
                match ctx.get_current_acir_index() {
                    Some(a) => {
                        if a != self.start_acir {
                            Some(DebugCommandResult::Stepped)
                        } else {
                            None
                        }
                    },
                    None => Some(DebugCommandResult::Stepped),
                }
            },
            Policy::AcirOpcode => Some(result),
            Policy::Finished => Some(DebugCommandResult::Done),
        }
    }
}

impl DebugContext {
    fn stepper_from_here(&self, policy: Policy) -> (r: Stepper)
        ensures
            r.policy_spec() == policy,
            r.into_start_spec() == self.current_source_location_spec(),
            r.start_depth_spec() == depth(*self),
            r.start_acir_spec() == 0,
    {
        let into_start = self.get_current_source_location();
        let start_depth = self.get_source_call_stack().len();
        Stepper { policy, into_start, start_depth, start_acir: 0 }
    }

    /// Steps until the source location changes: opcodes of one source line
    /// make one step.
    pub fn next_into(&self) -> (r: Stepper)
        ensures
            r.policy_spec() == Policy::Into,
            r.into_start_spec() == self.current_source_location_spec(),
    {
        self.stepper_from_here(Policy::Into)
    }

    /// Steps to the next source location at the current call depth or
    /// above, without stopping inside calls.
    pub fn next_over(&self) -> (r: Stepper)
        ensures
            r.policy_spec() == Policy::Over,
            r.into_start_spec() == self.current_source_location_spec(),
            r.start_depth_spec() == depth(*self),
    {
        self.stepper_from_here(Policy::Over)
    }

    /// Steps to the next source location above the current call depth:
    /// finishes the current function.
    pub fn next_out(&self) -> (r: Stepper)
        ensures
            r.policy_spec() == Policy::Out,
            r.into_start_spec() == self.current_source_location_spec(),
            r.start_depth_spec() == depth(*self),
    {
        self.stepper_from_here(Policy::Out)
    }

    /// Runs until execution finishes, fails or reaches a breakpoint.
    pub fn cont(&self) -> (r: Stepper)
        ensures
            r.policy_spec() == Policy::Continue,
    {
        Stepper { policy: Policy::Continue, into_start: None, start_depth: 0, start_acir: 0 }
    }

    /// Steps until the ACIR index changes, finishing the Brillig block that
    /// execution is in; done at once when execution has finished.
    pub fn step_out_of_brillig_opcode(&self) -> (r: Stepper)
        ensures
            match self.acir_index_spec() {
                None => r.policy_spec() == Policy::Finished,
                Some(a) => r.policy_spec() == Policy::OutOfBrillig && r.start_acir_spec() == a,
            },
    {
        match self.get_current_acir_index() {
            None => Stepper {
                policy: Policy::Finished,
                into_start: None,
                start_depth: 0,
                start_acir: 0,
            },
            Some(a) => Stepper {
                policy: Policy::OutOfBrillig,
                into_start: None,
                start_depth: 0,
                start_acir: a,
            },
        }
    }

    /// Executes one ACIR opcode: inside (or at) a Brillig block, ticks
    /// through the whole block; elsewhere the ACVM solves the opcode in one
    /// go. Never stops in the middle of a block but at a breakpoint.
    pub fn step_acir_opcode(&self) -> (r: Stepper)
        ensures
            self.executing_brillig_spec() ==> match self.acir_index_spec() {
                None => r.policy_spec() == Policy::Finished,
                Some(a) => r.policy_spec() == Policy::OutOfBrillig && r.start_acir_spec() == a,
            },
            !self.executing_brillig_spec() ==> r.policy_spec() == Policy::AcirOpcode,
    {
        if self.currently_executing_brillig() {
            self.step_out_of_brillig_opcode()
        } else {
            Stepper { policy: Policy::AcirOpcode, into_start: None, start_depth: 0, start_acir: 0 }
        }
    }
}

} // verus!
