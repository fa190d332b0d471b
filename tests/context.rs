use noir_debugger::artifact::{DebugArtifact, SourceLocation};
use noir_debugger::context::{
    AcvmStatus, BrilligStatus, DebugCommandResult, DebugContext, DebugError, Engine, Reaction,
};
use noir_debugger::location::{OpcodeLocation, OpcodeShape};
use noir_debugger::stepping::Tick;

fn empty_artifact() -> DebugArtifact {
    DebugArtifact { locations: vec![], files: vec![] }
}

/// One tick that enters a Brillig block and runs its first instruction.
fn enter_and_step(context: &mut DebugContext, status: BrilligStatus, pc: usize) -> Reaction {
    assert!(!context.is_in_brillig());
    context.on_enter_brillig(0, vec![0]);
    context.on_brillig_step(status, pc, vec![pc])
}

#[test]
fn scripted_foreign_call_inside_brillig() {
    // one Brillig block: CalldataCopy, Const, ForeignCall("clear_mock"), Stop
    let opcodes = vec![OpcodeShape::Brillig { len: 4 }];
    let mut context = DebugContext::new(opcodes, empty_artifact());

    assert_eq!(context.get_current_opcode_location(), Some(OpcodeLocation::Acir(0)));

    // Execute the first Brillig opcode (calldata copy)
    let result = enter_and_step(&mut context, BrilligStatus::InProgress, 1);
    assert!(matches!(result, Reaction::Complete(DebugCommandResult::Stepped)));
    assert_eq!(
        context.get_current_opcode_location(),
        Some(OpcodeLocation::Brillig { acir_index: 0, brillig_index: 1 })
    );

    // execute the second Brillig opcode (const)
    let result = context.on_brillig_step(BrilligStatus::InProgress, 2, vec![2]);
    assert!(matches!(result, Reaction::Complete(DebugCommandResult::Stepped)));
    assert_eq!(
        context.get_current_opcode_location(),
        Some(OpcodeLocation::Brillig { acir_index: 0, brillig_index: 2 })
    );

    // try to execute the third Brillig opcode (and resolve the foreign call)
    let reaction = context.on_brillig_step(BrilligStatus::ForeignCallWait, 2, vec![2]);
    assert_eq!(reaction, Reaction::ExecuteForeignCall);
    assert!(context.is_in_brillig());
    let result = context.handle_foreign_call(Ok(()));
    assert!(matches!(result, DebugCommandResult::Stepped));
    assert_eq!(
        context.get_current_opcode_location(),
        Some(OpcodeLocation::Brillig { acir_index: 0, brillig_index: 2 })
    );

    // retry the third Brillig opcode (foreign call should be finished)
    let result = context.on_brillig_step(BrilligStatus::InProgress, 3, vec![3]);
    assert!(matches!(result, Reaction::Complete(DebugCommandResult::Stepped)));
    assert_eq!(
        context.get_current_opcode_location(),
        Some(OpcodeLocation::Brillig { acir_index: 0, brillig_index: 3 })
    );

    // last Brillig opcode
    let reaction = context.on_brillig_step(BrilligStatus::Finished, 3, vec![3]);
    assert_eq!(reaction, Reaction::FinishBrillig);
    let result = context.on_acvm_status(AcvmStatus::Solved, 1);
    assert!(matches!(result, Reaction::Complete(DebugCommandResult::Done)));
    assert_eq!(context.get_current_opcode_location(), None);
}

#[test]
fn scripted_breakpoint_inside_brillig_block() {
    // z = x + y as a Brillig block, then the assertion x + y - z = 0
    let opcodes = vec![OpcodeShape::Brillig { len: 3 }, OpcodeShape::Plain];
    let mut context = DebugContext::new(opcodes, empty_artifact());

    // set breakpoint
    let breakpoint_location = OpcodeLocation::Brillig { acir_index: 0, brillig_index: 1 };
    assert!(context.add_breakpoint(breakpoint_location));

    // execute the first ACIR opcode (Brillig block) -> should reach the breakpoint instead
    let mut stepper = context.step_acir_opcode();
    assert_eq!(stepper.tick(), Tick::StepInto);
    let reaction = enter_and_step(&mut context, BrilligStatus::InProgress, 1);
    let Reaction::Complete(tick_result) = reaction else { panic!("tick did not complete") };
    let result = stepper.after_tick(&context, tick_result);
    assert!(matches!(result, Some(DebugCommandResult::BreakpointReached(_))));
    assert_eq!(context.get_current_opcode_location(), Some(breakpoint_location));

    // continue execution to the next ACIR opcode
    let mut stepper = context.step_acir_opcode();
    assert_eq!(stepper.tick(), Tick::StepInto);
    let reaction = context.on_brillig_step(BrilligStatus::InProgress, 2, vec![2]);
    let Reaction::Complete(tick_result) = reaction else { panic!("tick did not complete") };
    assert_eq!(stepper.after_tick(&context, tick_result), None);
    assert_eq!(
        context.on_brillig_step(BrilligStatus::Finished, 2, vec![2]),
        Reaction::FinishBrillig
    );
    let Reaction::Complete(tick_result) = context.on_acvm_status(AcvmStatus::InProgress, 1) else {
        panic!("tick did not complete")
    };
    let result = stepper.after_tick(&context, tick_result);
    assert!(matches!(result, Some(DebugCommandResult::Stepped)));
    assert_eq!(context.get_current_opcode_location(), Some(OpcodeLocation::Acir(1)));

    // last ACIR opcode
    let mut stepper = context.step_acir_opcode();
    assert_eq!(stepper.tick(), Tick::SolveOpcode);
    let Reaction::Complete(tick_result) = context.on_acvm_status(AcvmStatus::Solved, 2) else {
        panic!("tick did not complete")
    };
    let result = stepper.after_tick(&context, tick_result);
    assert!(matches!(result, Some(DebugCommandResult::Done)));
    assert_eq!(context.get_current_opcode_location(), None);
}

fn loc(file: usize, start: u32) -> SourceLocation {
    SourceLocation { file, start, end: start + 1 }
}

/// Opcode 0 is in `main` (depth 1); opcode 1 is inlined from a call (depth 2);
/// opcode 2 is back in `main`; opcode 3 is instrumentation.
fn call_artifact() -> DebugArtifact {
    DebugArtifact {
        locations: vec![
            (OpcodeLocation::Acir(0), vec![loc(0, 10)]),
            (OpcodeLocation::Acir(1), vec![loc(0, 20), loc(0, 40)]),
            (OpcodeLocation::Acir(2), vec![loc(0, 30)]),
            (OpcodeLocation::Acir(3), vec![loc(1, 0)]),
        ],
        files: vec![(0, "src/main.nr".to_string()), (1, "__debug/mod.nr".to_string())],
    }
}

fn plain_context(n: usize) -> DebugContext {
    DebugContext::new(vec![OpcodeShape::Plain; n], call_artifact())
}

#[test]
fn source_locations_leave_out_the_debug_module() {
    let context = plain_context(5);
    assert_eq!(
        context.get_source_location_for_opcode_location(&OpcodeLocation::Acir(1)),
        vec![loc(0, 20), loc(0, 40)]
    );
    assert!(context
        .get_source_location_for_opcode_location(&OpcodeLocation::Acir(3))
        .is_empty());
    assert!(context
        .get_source_location_for_opcode_location(&OpcodeLocation::Acir(4))
        .is_empty());
    assert!(context.debug_artifact().is_source_location_in_debug_module(&loc(1, 0)));
    assert!(!context.debug_artifact().is_source_location_in_debug_module(&loc(0, 0)));
    assert!(!context.debug_artifact().is_source_location_in_debug_module(&loc(7, 0)));
}

#[test]
fn current_source_location_and_call_stack() {
    let mut context = plain_context(5);
    assert_eq!(context.get_current_source_location(), Some(vec![loc(0, 10)]));
    assert_eq!(context.get_call_stack(), vec![OpcodeLocation::Acir(0)]);
    context.on_acvm_status(AcvmStatus::InProgress, 1);
    assert_eq!(
        context.get_source_call_stack(),
        vec![(OpcodeLocation::Acir(1), loc(0, 20)), (OpcodeLocation::Acir(1), loc(0, 40))]
    );
    context.on_acvm_status(AcvmStatus::InProgress, 3);
    // instrumentation: an opcode location, but no source location
    assert_eq!(context.get_current_opcode_location(), Some(OpcodeLocation::Acir(3)));
    assert_eq!(context.get_current_source_location(), None);
    context.on_acvm_status(AcvmStatus::Solved, 5);
    assert_eq!(context.get_current_opcode_location(), None);
    assert_eq!(context.get_current_source_location(), None);
    assert!(context.get_call_stack().is_empty());
}

#[test]
fn brillig_call_stack_is_tagged_with_the_acir_index() {
    let mut context = DebugContext::new(
        vec![OpcodeShape::Plain, OpcodeShape::Brillig { len: 9 }],
        empty_artifact(),
    );
    context.on_acvm_status(AcvmStatus::InProgress, 1);
    context.on_enter_brillig(0, vec![0]);
    context.on_brillig_step(BrilligStatus::InProgress, 7, vec![2, 7]);
    assert_eq!(
        context.get_call_stack(),
        vec![
            OpcodeLocation::Brillig { acir_index: 1, brillig_index: 2 },
            OpcodeLocation::Brillig { acir_index: 1, brillig_index: 7 }
        ]
    );
    assert!(context.currently_executing_brillig());
    assert!(context.is_executing_brillig());
    assert_eq!(context.get_current_acir_index(), Some(1));
}

/// Drives one command over ACIR opcodes that the ACVM steps one by one.
fn run_plain(context: &mut DebugContext, mut stepper: noir_debugger::stepping::Stepper) -> DebugCommandResult {
    loop {
        let ip = context.get_current_acir_index().unwrap();
        let status = if ip + 1 >= context.get_opcodes().len() {
            AcvmStatus::Solved
        } else {
            AcvmStatus::InProgress
        };
        let Reaction::Complete(result) = context.on_acvm_status(status, ip + 1) else {
            panic!("tick did not complete")
        };
        if let Some(r) = stepper.after_tick(context, result) {
            return r;
        }
    }
}

#[test]
fn next_into_stops_at_a_deeper_call() {
    let mut context = plain_context(5);
    let stepper = context.next_into();
    assert_eq!(run_plain(&mut context, stepper), DebugCommandResult::Stepped);
    assert_eq!(context.get_current_opcode_location(), Some(OpcodeLocation::Acir(1)));
    assert_eq!(context.get_source_call_stack().len(), 2);
}

#[test]
fn next_over_does_not_stop_inside_a_call() {
    let mut context = plain_context(5);
    let stepper = context.next_over();
    assert_eq!(run_plain(&mut context, stepper), DebugCommandResult::Stepped);
    assert_eq!(context.get_current_opcode_location(), Some(OpcodeLocation::Acir(2)));
    assert_eq!(context.get_source_call_stack().len(), 1);
}

#[test]
fn next_out_leaves_the_current_call() {
    let mut context = plain_context(5);
    context.on_acvm_status(AcvmStatus::InProgress, 1);
    assert_eq!(context.get_source_call_stack().len(), 2);
    let stepper = context.next_out();
    assert_eq!(run_plain(&mut context, stepper), DebugCommandResult::Stepped);
    assert_eq!(context.get_current_opcode_location(), Some(OpcodeLocation::Acir(2)));
}

#[test]
fn next_out_from_the_outermost_frame_runs_to_the_end() {
    let mut context = plain_context(5);
    let stepper = context.next_out();
    assert_eq!(run_plain(&mut context, stepper), DebugCommandResult::Done);
}

#[test]
fn cont_stops_at_a_breakpoint() {
    let mut context = plain_context(5);
    assert!(context.add_breakpoint(OpcodeLocation::Acir(3)));
    let stepper = context.cont();
    assert_eq!(
        run_plain(&mut context, stepper),
        DebugCommandResult::BreakpointReached(OpcodeLocation::Acir(3))
    );
    let stepper = context.cont();
    assert_eq!(run_plain(&mut context, stepper), DebugCommandResult::Done);
}

#[test]
fn errors_end_a_command() {
    let mut context = plain_context(3);
    let mut stepper = context.cont();
    let reaction = context.on_acvm_status(AcvmStatus::Failure("unsatisfied".to_string()), 0);
    let Reaction::Complete(result) = reaction else { panic!("tick did not complete") };
    assert_eq!(
        stepper.after_tick(&context, result),
        Some(DebugCommandResult::Error(DebugError::SolvingError("unsatisfied".to_string())))
    );
    assert_eq!(
        context.handle_foreign_call(Err("no such oracle".to_string())),
        DebugCommandResult::Error(DebugError::ForeignCallError("no such oracle".to_string()))
    );
    assert_eq!(
        context.on_acvm_status(AcvmStatus::RequiresForeignCall, 0),
        Reaction::ExecuteForeignCall
    );
}

#[test]
fn brillig_failure_keeps_the_failed_solver() {
    let mut context = DebugContext::new(vec![OpcodeShape::Brillig { len: 2 }], empty_artifact());
    let reaction = enter_and_step(&mut context, BrilligStatus::Failure("trap".to_string()), 0);
    assert_eq!(
        reaction,
        Reaction::Complete(DebugCommandResult::Error(DebugError::SolvingError("trap".to_string())))
    );
    assert!(context.is_in_brillig());
    assert_eq!(context.active_engine(), Engine::Brillig);
    assert_eq!(
        context.get_current_opcode_location(),
        Some(OpcodeLocation::Brillig { acir_index: 0, brillig_index: 0 })
    );
}

#[test]
fn step_acir_opcode_after_the_end_is_done() {
    let mut context = plain_context(1);
    context.on_acvm_status(AcvmStatus::Solved, 1);
    assert_eq!(context.step_acir_opcode().tick(), Tick::SolveOpcode);
    assert_eq!(context.step_out_of_brillig_opcode().tick(), Tick::Stop(DebugCommandResult::Done));
}

#[test]
fn foreign_call_result_goes_to_the_waiting_engine() {
    let mut context = DebugContext::new(vec![OpcodeShape::Brillig { len: 3 }], empty_artifact());
    assert_eq!(context.on_acvm_status(AcvmStatus::RequiresForeignCall, 0), Reaction::ExecuteForeignCall);
    assert_eq!(context.active_engine(), Engine::Acvm);
    let reaction = enter_and_step(&mut context, BrilligStatus::ForeignCallWait, 1);
    assert_eq!(reaction, Reaction::ExecuteForeignCall);
    assert_eq!(context.active_engine(), Engine::Brillig);
}

/// Opcodes 0 and 1 map to the same line, opcode 2 to no line, opcode 3 to the
/// same line again, opcode 4 to another one.
#[test]
fn next_into_compares_with_the_line_it_started_from() {
    let artifact = DebugArtifact {
        locations: vec![
            (OpcodeLocation::Acir(0), vec![loc(0, 10)]),
            (OpcodeLocation::Acir(1), vec![loc(0, 10)]),
            (OpcodeLocation::Acir(3), vec![loc(0, 10)]),
            (OpcodeLocation::Acir(4), vec![loc(0, 50)]),
        ],
        files: vec![(0, "src/main.nr".to_string())],
    };
    let mut context = DebugContext::new(vec![OpcodeShape::Plain; 6], artifact);
    let stepper = context.next_into();
    assert_eq!(run_plain(&mut context, stepper), DebugCommandResult::Stepped);
    assert_eq!(context.get_current_opcode_location(), Some(OpcodeLocation::Acir(4)));
}
