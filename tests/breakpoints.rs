use noir_debugger::artifact::DebugArtifact;
use noir_debugger::breakpoints::Breakpoints;
use noir_debugger::context::DebugContext;
use noir_debugger::location::{OpcodeLocation, OpcodeShape};

#[test]
fn add_then_remove_leaves_no_breakpoint() {
    let mut set = Breakpoints::new();
    let l = OpcodeLocation::Brillig { acir_index: 0, brillig_index: 1 };
    assert!(set.insert(l));
    assert!(set.contains(&l));
    assert!(set.remove(&l));
    assert!(!set.contains(&l));
    assert!(!set.remove(&l));
}

#[test]
fn adding_twice_is_adding_once() {
    let mut set = Breakpoints::new();
    let l = OpcodeLocation::Acir(2);
    assert!(set.insert(l));
    assert!(!set.insert(l));
    assert!(set.contains(&l));
    assert_eq!(set.to_vec(), vec![l]);
    assert!(set.remove(&l));
    assert!(!set.contains(&l));
}

#[test]
fn context_breakpoints() {
    let mut context = DebugContext::new(
        vec![OpcodeShape::Plain, OpcodeShape::Brillig { len: 2 }],
        DebugArtifact { locations: vec![], files: vec![] },
    );
    // an out-of-range location is accepted; validity is a separate query
    let far = OpcodeLocation::Brillig { acir_index: 1, brillig_index: 5 };
    assert!(context.add_breakpoint(far));
    assert!(!context.is_valid_opcode_location(&far));
    assert!(context.add_breakpoint(OpcodeLocation::Acir(0)));
    assert!(!context.add_breakpoint(OpcodeLocation::Acir(0)));
    assert!(context.is_breakpoint_set(&OpcodeLocation::Acir(0)));
    assert!(context.breakpoint_reached());
    let mut all = context.iterate_breakpoints();
    all.sort_by_key(|l| format!("{l:?}"));
    assert_eq!(all, vec![OpcodeLocation::Acir(0), far]);
    assert!(context.delete_breakpoint(&OpcodeLocation::Acir(0)));
    assert!(!context.is_breakpoint_set(&OpcodeLocation::Acir(0)));
    assert!(!context.breakpoint_reached());
    context.clear_breakpoints();
    assert!(context.iterate_breakpoints().is_empty());
}
