//! The debugging session: what it knows of the solvers, and how it reacts to
//! what they report.
use crate::artifact::{DebugArtifact, SourceLocation};
use crate::breakpoints::Breakpoints;
use crate::location::{
    acir_index_of, offset_in_layout, offset_spec, valid_location, OpcodeLocation, OpcodeShape,
};
use vstd::prelude::*;

verus! {

/// Why a command could not go on.
#[derive(Debug, PartialEq, Eq)]
pub enum DebugError {
    /// The ACVM or the Brillig solver failed; execution cannot resume.
    SolvingError(String),
    /// The foreign call executor failed; execution cannot resume.
    ForeignCallError(String),
}

/// The outcome of every tick and every stepping command.
#[derive(Debug, PartialEq, Eq)]
pub enum DebugCommandResult {
    /// The circuit is fully solved.
    Done,
    /// One tick completed and execution goes on.
    Stepped,
    BreakpointReached(OpcodeLocation),
    Error(DebugError),
}

/// What the ACVM reports after it was asked to step or to take back a
/// finished Brillig solver.
#[derive(Debug, PartialEq, Eq)]
pub enum AcvmStatus {
    Solved,
    InProgress,
    Failure(String),
    RequiresForeignCall,
}

/// What the Brillig solver reports after one step.
#[derive(Debug, PartialEq, Eq)]
pub enum BrilligStatus {
    InProgress,
    Finished,
    ForeignCallWait,
    Failure(String),
}

/// What the session needs next after a report.
#[derive(Debug, PartialEq, Eq)]
pub enum Reaction {
    /// The tick is over, with this result.
    Complete(DebugCommandResult),
    /// Hand the pending foreign call to the executor, then report back with
    /// `on_foreign_call_result`.
    ExecuteForeignCall,
    /// Hand the finished Brillig solver back to the ACVM, then report its
    /// status with `on_acvm_status`.
    FinishBrillig,
}

/// One of the two solvers.
#[derive(Debug, PartialEq, Eq)]
pub enum Engine {
    Acvm,
    Brillig,
}

/// Which engine receives ticks: the ACVM, or the Brillig solver of the block
/// at the instruction pointer, with its program counter and call stack.
#[derive(Debug)]
pub enum Mode {
    Acir,
    Brillig { program_counter: usize, call_stack: Vec<usize> },
}

/// A debugging session over one circuit.
pub struct DebugContext {
    opcodes: Vec<OpcodeShape>,
    artifact: DebugArtifact,
    breakpoints: Breakpoints,
    instruction_pointer: usize,
    mode: Mode,
}

/// The source call stack of `stack`: each opcode location paired with each of
/// its visible source locations.
pub open spec fn expand_stack(artifact: DebugArtifact, stack: Seq<OpcodeLocation>) -> Seq<
    (OpcodeLocation, SourceLocation),
>
    decreases stack.len(),
{
    if stack.len() == 0 {
        seq![]
    } else {
        let l = stack.last();
        expand_stack(artifact, stack.drop_last()) + artifact.source_locations_spec(l).map_values(
            |s: SourceLocation| (l, s),
        )
    }
}

impl DebugContext {
    /// The breakpoint set is well formed, and ticks go to a Brillig solver
    /// only at an opcode that is a Brillig block.
    pub closed spec fn wf(&self) -> bool {
        &&& self.breakpoints.wf()
        &&& self.mode is Brillig ==> self.instruction_pointer < self.opcodes@.len()
            && self.opcodes@[self.instruction_pointer as int] is Brillig
    }

    pub closed spec fn opcodes_spec(&self) -> Seq<OpcodeShape> {
        self.opcodes@
    }

    pub closed spec fn artifact_spec(&self) -> DebugArtifact {
        self.artifact
    }

    pub closed spec fn breakpoints_spec(&self) -> Set<OpcodeLocation> {
        self.breakpoints@
    }

    pub closed spec fn ip_spec(&self) -> usize {
        self.instruction_pointer
    }

    pub closed spec fn mode_spec(&self) -> Mode {
        self.mode
    }

    pub open spec fn in_brillig_spec(&self) -> bool {
        self.mode_spec() is Brillig
    }

    pub open spec fn current_location_spec(&self) -> Option<OpcodeLocation> {
        let ip = self.ip_spec();
        if ip >= self.opcodes_spec().len() {
            None
        } else {
            match self.mode_spec() {
                Mode::Brillig { program_counter, .. } => Some(
                    OpcodeLocation::Brillig { acir_index: ip, brillig_index: program_counter },
                ),
                Mode::Acir => Some(OpcodeLocation::Acir(ip)),
            }
        }
    }

    pub open spec fn call_stack_spec(&self) -> Seq<OpcodeLocation> {
        let ip = self.ip_spec();
        if ip >= self.opcodes_spec().len() {
            seq![]
        } else {
            match self.mode_spec() {
                Mode::Brillig { call_stack, .. } => call_stack@.map_values(
                    |pc: usize| OpcodeLocation::Brillig { acir_index: ip, brillig_index: pc },
                ),
                Mode::Acir => seq![OpcodeLocation::Acir(ip)],
            }
        }
    }

    pub open spec fn current_source_location_spec(&self) -> Option<Seq<SourceLocation>> {
        match self.current_location_spec() {
            None => None,
            Some(l) => {
                let v = self.artifact_spec().source_locations_spec(l);
                if v.len() == 0 {
                    None
                } else {
                    Some(v)
                }
            },
        }
    }

    pub open spec fn source_call_stack_spec(&self) -> Seq<(OpcodeLocation, SourceLocation)> {
        expand_stack(self.artifact_spec(), self.call_stack_spec())
    }

    pub open spec fn breakpoint_reached_spec(&self) -> bool {
        match self.current_location_spec() {
            Some(l) => self.breakpoints_spec().contains(l),
            None => false,
        }
    }

    /// The result of a tick that left execution in progress.
    pub open spec fn in_progress_result(&self) -> DebugCommandResult {
        if self.breakpoint_reached_spec() {
            DebugCommandResult::BreakpointReached(self.current_location_spec().unwrap())
        } else {
            DebugCommandResult::Stepped
        }
    }

    pub open spec fn acir_index_spec(&self) -> Option<usize> {
        match self.current_location_spec() {
            None => None,
            Some(l) => Some(acir_index_of(l) as usize),
        }
    }

    pub open spec fn executing_brillig_spec(&self) -> bool {
        self.in_brillig_spec() || match self.current_location_spec() {
            Some(OpcodeLocation::Acir(a)) => self.opcodes_spec()[a as int] is Brillig,
            Some(OpcodeLocation::Brillig { .. }) => true,
            None => false,
        }
    }

    /// A session at the first opcode of a circuit whose opcodes have the
    /// shapes `opcodes`, with no breakpoint.
    pub fn new(opcodes: Vec<OpcodeShape>, artifact: DebugArtifact) -> (r: DebugContext)
        ensures
            r.wf(),
            r.opcodes_spec() == opcodes@,
            r.artifact_spec() == artifact,
            r.breakpoints_spec() == Set::<OpcodeLocation>::empty(),
            r.ip_spec() == 0,
            r.mode_spec() is Acir,
    {
        DebugContext {
            opcodes,
            artifact,
            breakpoints: Breakpoints::new(),
            instruction_pointer: 0,
            mode: Mode::Acir,
        }
    }

    pub fn get_opcodes(&self) -> (r: &Vec<OpcodeShape>)
        ensures
            r@ == self.opcodes_spec(),
    {
        &self.opcodes
    }

    pub fn debug_artifact(&self) -> (r: &DebugArtifact)
        ensures
            *r == self.artifact_spec(),
    {
        &self.artifact
    }

    /// The engine that receives the next tick and the result of a pending
    /// foreign call: the Brillig solver while one is active, else the ACVM.
    pub fn active_engine(&self) -> (r: Engine)
        ensures
            r == (if self.in_brillig_spec() {
                Engine::Brillig
            } else {
                Engine::Acvm
            }),
    {
        match self.mode {
            Mode::Brillig { .. } => Engine::Brillig,
            Mode::Acir => Engine::Acvm,
        }
    }

    /// Whether ticks go to the Brillig solver.
    pub fn is_in_brillig(&self) -> (r: bool)
        ensures
            r == self.in_brillig_spec(),
    {
        matches!(self.mode, Mode::Brillig { .. })
    }

    pub fn get_current_opcode_location(&self) -> (r: Option<OpcodeLocation>)
        ensures
            r == self.current_location_spec(),
    {
        let ip = self.instruction_pointer;
        if ip >= self.opcodes.len() {
            None
        } else {
            match &self.mode {
                Mode::Brillig { program_counter, .. } => Some(
                    OpcodeLocation::Brillig { acir_index: ip, brillig_index: *program_counter },
                ),
                Mode::Acir => Some(OpcodeLocation::Acir(ip)),
            }
        }
    }

    /// The opcode call stack: the Brillig solver's frames inside a block, the
    /// current opcode alone outside, nothing once execution has finished.
    pub fn get_call_stack(&self) -> (r: Vec<OpcodeLocation>)
        ensures
            r@ == self.call_stack_spec(),
    {
        let ip = self.instruction_pointer;
        if ip >= self.opcodes.len() {
            return Vec::new();
        }
        match &self.mode {
            Mode::Brillig { call_stack, .. } => {
                let mut out: Vec<OpcodeLocation> = Vec::new();
                let mut i: usize = 0;
                while i < call_stack.len()
                    invariant
                        i <= call_stack@.len(),
                        out@ == call_stack@.subrange(0, i as int).map_values(
                            |pc: usize| OpcodeLocation::Brillig { acir_index: ip, brillig_index: pc },
                        ),
                    decreases call_stack@.len() - i,
                {
                    out.push(OpcodeLocation::Brillig { acir_index: ip, brillig_index: call_stack[i] });
                    i = i + 1;
                    assert(out@ =~= call_stack@.subrange(0, i as int).map_values(
                        |pc: usize| OpcodeLocation::Brillig { acir_index: ip, brillig_index: pc },
                    ));
                }
                assert(call_stack@.subrange(0, i as int) =~= call_stack@);
                out
            },
            Mode::Acir => vec![OpcodeLocation::Acir(ip)],
        }
    }

    pub fn get_source_location_for_opcode_location(&self, opcode_location: &OpcodeLocation) -> (r:
        Vec<SourceLocation>)
        ensures
            r@ == self.artifact_spec().source_locations_spec(*opcode_location),
    {
        self.artifact.source_locations_for(opcode_location)
    }

    /// The visible source locations of the current opcode; `None` both when
    /// execution has finished and when the opcode maps to no source.
    pub fn get_current_source_location(&self) -> (r: Option<Vec<SourceLocation>>)
        ensures
            match r {
                None => self.current_source_location_spec() is None,
                Some(v) => self.current_source_location_spec() == Some(v@),
            },
    {
        match self.get_current_opcode_location() {
            None => None,
            Some(l) => {
                let v = self.artifact.source_locations_for(&l);
                if v.len() == 0 {
                    None
                } else {
                    Some(v)
                }
            },
        }
    }

    /// The call stack in source terms, one entry per source location of each
    /// opcode location on the stack.
    pub fn get_source_call_stack(&self) -> (r: Vec<(OpcodeLocation, SourceLocation)>)
        ensures
            r@ == self.source_call_stack_spec(),
    {
        let stack = self.get_call_stack();
        let ghost art = self.artifact;
        let mut out: Vec<(OpcodeLocation, SourceLocation)> = Vec::new();
        let mut i: usize = 0;
        while i < stack.len()
            invariant
                i <= stack@.len(),
                art == self.artifact_spec(),
                out@ == expand_stack(art, stack@.subrange(0, i as int)),
            decreases stack@.len() - i,
        {
            let l = stack[i];
            let locs = self.artifact.source_locations_for(&l);
            let ghost base = out@;
            let mut j: usize = 0;
            while j < locs.len()
                invariant
                    j <= locs@.len(),
                    out@ == base + locs@.subrange(0, j as int).map_values(
                        |s: SourceLocation| (l, s),
                    ),
                decreases locs@.len() - j,
            {
                out.push((l, locs[j]));
                j = j + 1;
                assert(out@ =~= base + locs@.subrange(0, j as int).map_values(
                    |s: SourceLocation| (l, s),
                ));
            }
            let ghost next = stack@.subrange(0, i + 1);
            assert(next.drop_last() =~= stack@.subrange(0, i as int));
            assert(locs@.subrange(0, j as int) =~= locs@);
            i = i + 1;
        }
        assert(stack@.subrange(0, i as int) =~= stack@);
        out
    }

    /// `location` moved by `offset` atomic steps; see `offset_in_layout`.
    pub fn offset_opcode_location(&self, location: &Option<OpcodeLocation>, offset: i64) -> (r: (
        Option<OpcodeLocation>,
        i64,
    ))
        ensures
            (r.0, r.1 as int) == offset_spec(self.opcodes_spec(), *location, offset as int),
    {
        offset_in_layout(&self.opcodes, location, offset)
    }

    pub fn is_valid_opcode_location(&self, location: &OpcodeLocation) -> (r: bool)
        ensures
            r == valid_location(self.opcodes_spec(), *location),
    {
        match *location {
            OpcodeLocation::Acir(a) => a < self.opcodes.len(),
            OpcodeLocation::Brillig { acir_index, brillig_index } => {
                if acir_index >= self.opcodes.len() {
                    false
                } else {
                    match self.opcodes[acir_index] {
                        OpcodeShape::Brillig { len } => brillig_index < len,
                        OpcodeShape::Plain => false,
                    }
                }
            },
        }
    }

    /// Whether the opcode at the instruction pointer is a Brillig block.
    pub fn is_executing_brillig(&self) -> (r: bool)
        ensures
            r == (self.ip_spec() < self.opcodes_spec().len() && self.opcodes_spec()[self.ip_spec()
                as int] is Brillig),
    {
        let ip = self.instruction_pointer;
        ip < self.opcodes.len() && matches!(self.opcodes[ip], OpcodeShape::Brillig { .. })
    }

    /// Whether execution is inside a Brillig block, or about to enter one.
    pub fn currently_executing_brillig(&self) -> (r: bool)
        ensures
            r == self.executing_brillig_spec(),
    {
        if matches!(self.mode, Mode::Brillig { .. }) {
            return true;
        }
        match self.get_current_opcode_location() {
            Some(OpcodeLocation::Brillig { .. }) => true,
            Some(OpcodeLocation::Acir(a)) => matches!(self.opcodes[a], OpcodeShape::Brillig { .. }),
            None => false,
        }
    }

    pub fn get_current_acir_index(&self) -> (r: Option<usize>)
        ensures
            r == self.acir_index_spec(),
    {
        match self.get_current_opcode_location() {
            None => None,
            Some(OpcodeLocation::Acir(a)) => Some(a),
            Some(OpcodeLocation::Brillig { acir_index, .. }) => Some(acir_index),
        }
    }

    pub fn breakpoint_reached(&self) -> (r: bool)
        ensures
            r == self.breakpoint_reached_spec(),
    {
        match self.get_current_opcode_location() {
            Some(l) => self.breakpoints.contains(&l),
            None => false,
        }
    }

    fn in_progress(&self) -> (r: DebugCommandResult)
        ensures
            r == self.in_progress_result(),
    {
        if self.breakpoint_reached() {
            match self.get_current_opcode_location() {
                Some(l) => DebugCommandResult::BreakpointReached(l),
                None => DebugCommandResult::Stepped,
            }
        } else {
            DebugCommandResult::Stepped
        }
    }

    pub fn is_breakpoint_set(&self, location: &OpcodeLocation) -> (r: bool)
        ensures
            r == self.breakpoints_spec().contains(*location),
    {
        self.breakpoints.contains(location)
    }

    /// Adds a breakpoint; returns whether it was not set before.
    pub fn add_breakpoint(&mut self, location: OpcodeLocation) -> (r: bool)
        requires
            old(self).wf(),
        ensures
            final(self).wf(),
            final(self).breakpoints_spec() == old(self).breakpoints_spec().insert(location),
            r == !old(self).breakpoints_spec().contains(location),
            final(self).opcodes_spec() == old(self).opcodes_spec(),
            final(self).artifact_spec() == old(self).artifact_spec(),
            final(self).ip_spec() == old(self).ip_spec(),
            final(self).mode_spec() == old(self).mode_spec(),
    {
        self.breakpoints.insert(location)
    }

    /// Removes a breakpoint; returns whether it was set.
    pub fn delete_breakpoint(&mut self, location: &OpcodeLocation) -> (r: bool)
        requires
            old(self).wf(),
        ensures
            final(self).wf(),
            final(self).breakpoints_spec() == old(self).breakpoints_spec().remove(*location),
            r == old(self).breakpoints_spec().contains(*location),
            final(self).opcodes_spec() == old(self).opcodes_spec(),
            final(self).artifact_spec() == old(self).artifact_spec(),
            final(self).ip_spec() == old(self).ip_spec(),
            final(self).mode_spec() == old(self).mode_spec(),
    {
        self.breakpoints.remove(location)
    }

    /// The breakpoints, each once.
    pub fn iterate_breakpoints(&self) -> (r: Vec<OpcodeLocation>)
        requires
            self.wf(),
        ensures
            r@.no_duplicates(),
            r@.to_set() == self.breakpoints_spec(),
    {
        self.breakpoints.to_vec()
    }

    pub fn clear_breakpoints(&mut self)
        requires
            old(self).wf(),
        ensures
            final(self).wf(),
            final(self).breakpoints_spec() == Set::<OpcodeLocation>::empty(),
            final(self).opcodes_spec() == old(self).opcodes_spec(),
            final(self).artifact_spec() == old(self).artifact_spec(),
            final(self).ip_spec() == old(self).ip_spec(),
            final(self).mode_spec() == old(self).mode_spec(),
    {
        self.breakpoints.clear()
    }

    /// The ACVM handed out a Brillig solver for the block at the instruction
    /// pointer: from now on ticks go to that solver.
    pub fn on_enter_brillig(&mut self, program_counter: usize, call_stack: Vec<usize>)
        requires
            old(self).wf(),
            old(self).ip_spec() < old(self).opcodes_spec().len(),
            old(self).opcodes_spec()[old(self).ip_spec() as int] is Brillig,
        ensures
            final(self).wf(),
            final(self).mode_spec() == (Mode::Brillig { program_counter, call_stack }),
            final(self).current_location_spec() == Some(
                OpcodeLocation::Brillig { acir_index: old(self).ip_spec(), brillig_index: program_counter },
            ),
            final(self).opcodes_spec() == old(self).opcodes_spec(),
            final(self).artifact_spec() == old(self).artifact_spec(),
            final(self).breakpoints_spec() == old(self).breakpoints_spec(),
            final(self).ip_spec() == old(self).ip_spec(),
    {
        self.mode = Mode::Brillig { program_counter, call_stack };
    }

    /// Reacts to a status of the ACVM, whose instruction pointer is now
    /// `instruction_pointer`: solved ends execution, in progress checks the
    /// breakpoints, a failure is an error, and a pending foreign call goes to
    /// the executor.
    pub fn on_acvm_status(&mut self, status: AcvmStatus, instruction_pointer: usize) -> (r: Reaction)
        requires
            old(self).wf(),
            !old(self).in_brillig_spec(),
        ensures
            final(self).wf(),
            final(self).ip_spec() == instruction_pointer,
            final(self).mode_spec() == old(self).mode_spec(),
            final(self).current_location_spec() is None || final(self).current_location_spec()
                == Some(OpcodeLocation::Acir(instruction_pointer)),
            final(self).opcodes_spec() == old(self).opcodes_spec(),
            final(self).artifact_spec() == old(self).artifact_spec(),
            final(self).breakpoints_spec() == old(self).breakpoints_spec(),
            r == match status {
                AcvmStatus::Solved => Reaction::Complete(DebugCommandResult::Done),
                AcvmStatus::InProgress => Reaction::Complete(final(self).in_progress_result()),
                AcvmStatus::Failure(e) => Reaction::Complete(
                    DebugCommandResult::Error(DebugError::SolvingError(e)),
                ),
                AcvmStatus::RequiresForeignCall => Reaction::ExecuteForeignCall,
            },
    {
        self.instruction_pointer = instruction_pointer;
        match status {
            AcvmStatus::Solved => Reaction::Complete(DebugCommandResult::Done),
            AcvmStatus::InProgress => Reaction::Complete(self.in_progress()),
            AcvmStatus::Failure(e) => Reaction::Complete(
                DebugCommandResult::Error(DebugError::SolvingError(e)),
            ),
            AcvmStatus::RequiresForeignCall => Reaction::ExecuteForeignCall,
        }
    }

    /// Reacts to what the Brillig solver reported after one step, now at
    /// `program_counter` with `call_stack`. A finished solver goes back to the
    /// ACVM. A failed one stays in place, at the instruction that failed, so
    /// that its location and memory can be inspected; its error ends the tick.
    pub fn on_brillig_step(&mut self, status: BrilligStatus, program_counter: usize, call_stack: Vec<
        usize,
    >) -> (r: Reaction)
        requires
            old(self).wf(),
            old(self).in_brillig_spec(),
        ensures
            final(self).wf(),
            final(self).ip_spec() == old(self).ip_spec(),
            final(self).opcodes_spec() == old(self).opcodes_spec(),
            final(self).artifact_spec() == old(self).artifact_spec(),
            final(self).breakpoints_spec() == old(self).breakpoints_spec(),
            match status {
                BrilligStatus::InProgress => final(self).mode_spec() == (Mode::Brillig {
                    program_counter,
                    call_stack,
                }) && r == Reaction::Complete(final(self).in_progress_result()),
                BrilligStatus::ForeignCallWait => final(self).mode_spec() == (Mode::Brillig {
                    program_counter,
                    call_stack,
                }) && r == Reaction::ExecuteForeignCall,
                BrilligStatus::Finished => final(self).mode_spec() is Acir && r
                    == Reaction::FinishBrillig,
                BrilligStatus::Failure(e) => final(self).mode_spec() == (Mode::Brillig {
                    program_counter,
                    call_stack,
                }) && r == Reaction::Complete(
                    DebugCommandResult::Error(DebugError::SolvingError(e)),
                ),
            },
            !(status is Finished) ==> final(self).current_location_spec() == Some(
                OpcodeLocation::Brillig {
                    acir_index: old(self).ip_spec(),
                    brillig_index: program_counter,
                },
            ),
    {
        match status {
            BrilligStatus::InProgress => {
                self.mode = Mode::Brillig { program_counter, call_stack };
                Reaction::Complete(self.in_progress())
            },
            BrilligStatus::ForeignCallWait => {
                self.mode = Mode::Brillig { program_counter, call_stack };
                Reaction::ExecuteForeignCall
            },
            BrilligStatus::Finished => {
                self.mode = Mode::Acir;
                Reaction::FinishBrillig
            },
            BrilligStatus::Failure(e) => {
                self.mode = Mode::Brillig { program_counter, call_stack };
                Reaction::Complete(DebugCommandResult::Error(DebugError::SolvingError(e)))
            },
        }
    }

    /// The result of a tick that went through the foreign call executor:
    /// a resolved call completes the tick, a failed one is an error.
    pub fn handle_foreign_call(&self, outcome: Result<(), String>) -> (r: DebugCommandResult)
        ensures
            r == match outcome {
                Ok(()) => DebugCommandResult::Stepped,
                Err(e) => DebugCommandResult::Error(DebugError::ForeignCallError(e)),
            },
    {
        match outcome {
            Ok(()) => DebugCommandResult::Stepped,
            Err(e) => DebugCommandResult::Error(DebugError::ForeignCallError(e)),
        }
    }
}

} // verus!
