use eiffel_macros_gen::{
    check_invariant, read_method, tokenize, CallAction, CallEvent, CallState, GuardedCall,
    InvariantViolation, MethodBody, Phase, TimingPolicy,
};

struct MyClass {
    a: i32,
}

impl MyClass {
    fn my_invariant(&self) -> bool {
        self.a > 0
    }

    fn my_method(&mut self, value_to_add: i32) {
        let guard = guard_for("my_invariant", "my_method");
        run(&guard, self, value_to_add);
    }

    fn my_method_before_only(&mut self, value_to_add: i32) {
        let guard = guard_for("my_invariant, \"before\"", "my_method_before_only");
        run(&guard, self, value_to_add);
    }

    fn my_method_after_only(&mut self, value_to_add: i32) {
        let guard = guard_for("my_invariant, \"after\"", "my_method_after_only");
        run(&guard, self, value_to_add);
    }
}

fn guard_for(attr: &str, name: &str) -> GuardedCall {
    let item = format!(
        "fn {}(&mut self, value_to_add: i32) {{ self.a += value_to_add; }}",
        name
    );
    let tokens = tokenize(attr).unwrap();
    let decl = read_method(&item).unwrap();
    let pair = check_invariant(&tokens, &decl).unwrap();
    assert_eq!(pair.wrapper.name, name);
    match pair.wrapper.body {
        MethodBody::Guarded(call) => call,
        MethodBody::Original(_) => panic!("the wrapper must hold a guarded call"),
    }
}

fn run(guard: &GuardedCall, object: &mut MyClass, value_to_add: i32) {
    run_body(guard, object, |object| object.a += value_to_add)
}

fn run_body<R>(guard: &GuardedCall, object: &mut MyClass, body: impl Fn(&mut MyClass) -> R) -> R {
    let mut result = None;
    let mut state = guard.begin();
    loop {
        match state.action() {
            CallAction::EvaluateInvariant => {
                let holds = object.my_invariant();
                state = guard.step(state, CallEvent::InvariantEvaluated(holds));
            }
            CallAction::RunBody => {
                result = Some(body(object));
                state = guard.step(state, CallEvent::BodyReturned);
            }
            CallAction::Return => return result.unwrap(),
            CallAction::Abort(phase) => panic!("{}", guard.violation(phase).message()),
        }
    }
}

fn guard_with(timing: TimingPolicy) -> GuardedCall {
    GuardedCall {
        invariant: "my_invariant".to_string(),
        target: "my_method_no_invariant".to_string(),
        arguments: vec!["value_to_add".to_string()],
        timing,
        binds_result: false,
    }
}

fn trace(guard: &GuardedCall, holds_on_entry: bool, holds_on_exit: bool) -> Vec<CallState> {
    let mut states = vec![guard.begin()];
    loop {
        let state = states[states.len() - 1];
        let event = match state {
            CallState::Checking(Phase::Entry) => CallEvent::InvariantEvaluated(holds_on_entry),
            CallState::Checking(Phase::Exit) => CallEvent::InvariantEvaluated(holds_on_exit),
            CallState::Running => CallEvent::BodyReturned,
            CallState::Returned | CallState::Failed(_) => return states,
        };
        states.push(guard.step(state, event));
    }
}

#[test]
#[should_panic]
fn test_changing_it_to_an_invalid_value() {
    let mut my_class = MyClass { a: 1 };

    my_class.my_method(-2);
}

#[test]
#[should_panic]
fn test_already_wrong() {
    let mut my_class = MyClass { a: -1 };

    my_class.my_method(2);

    assert_eq!(my_class.a, 1);
}

#[test]
fn test_only_check_before_only() {
    let mut my_class = MyClass { a: 1 };

    // Would panic if the check was after the method call
    my_class.my_method_before_only(-2);

    assert_eq!(my_class.a, -1);
}

#[test]
fn test_only_check_after_only() {
    let mut my_class = MyClass { a: -1 };

    // Would panic if the check was after the method call
    my_class.my_method_after_only(2);

    assert_eq!(my_class.a, 1);
}

#[test]
fn default_timing_with_invariant_kept_returns() {
    let mut my_class = MyClass { a: 1 };
    my_class.my_method(4);
    assert_eq!(my_class.a, 5);
}

#[test]
fn the_wrapper_returns_what_the_body_returned() {
    let tokens = tokenize("my_invariant").unwrap();
    let decl = read_method("fn swap(&mut self, next: i32) -> i32 { next }").unwrap();
    let pair = check_invariant(&tokens, &decl).unwrap();
    let guard = match pair.wrapper.body {
        MethodBody::Guarded(call) => call,
        MethodBody::Original(_) => panic!("the wrapper must hold a guarded call"),
    };
    assert!(guard.binds_result);
    assert_eq!(guard.arguments, vec!["next".to_string()]);
    let mut my_class = MyClass { a: 3 };
    let previous = run_body(&guard, &mut my_class, |object| std::mem::replace(&mut object.a, 8));
    assert_eq!(previous, 3);
    assert_eq!(my_class.a, 8);
}

#[test]
fn exit_failure_happens_after_the_body_ran() {
    let guard = guard_for("my_invariant", "my_method");
    let mut object = MyClass { a: 1 };
    let mut state = guard.begin();
    assert_eq!(state, CallState::Checking(Phase::Entry));
    state = guard.step(state, CallEvent::InvariantEvaluated(object.my_invariant()));
    assert_eq!(state, CallState::Running);
    object.a += -2;
    state = guard.step(state, CallEvent::BodyReturned);
    assert_eq!(state, CallState::Checking(Phase::Exit));
    state = guard.step(state, CallEvent::InvariantEvaluated(object.my_invariant()));
    assert_eq!(state, CallState::Failed(Phase::Exit));
    assert_eq!(state.action(), CallAction::Abort(Phase::Exit));
    assert_eq!(object.a, -1);
    assert_eq!(
        guard.violation(Phase::Exit).message(),
        "Invariant my_invariant failed on exit"
    );
}

#[test]
fn entry_failure_never_runs_the_body() {
    let guard = guard_with(TimingPolicy::CheckBeforeAndAfter);
    assert_eq!(
        trace(&guard, false, true),
        vec![CallState::Checking(Phase::Entry), CallState::Failed(Phase::Entry)]
    );
    assert_eq!(
        guard.violation(Phase::Entry),
        InvariantViolation { phase: Phase::Entry, invariant_name: "my_invariant".to_string() }
    );
    assert_eq!(
        guard.violation(Phase::Entry).message(),
        "Invariant my_invariant failed on entry"
    );
}

#[test]
fn both_checks_pass_in_four_states() {
    let guard = guard_with(TimingPolicy::CheckBeforeAndAfter);
    assert_eq!(
        trace(&guard, true, true),
        vec![
            CallState::Checking(Phase::Entry),
            CallState::Running,
            CallState::Checking(Phase::Exit),
            CallState::Returned,
        ]
    );
}

#[test]
fn before_only_skips_the_exit_check() {
    let guard = guard_with(TimingPolicy::CheckBefore);
    for holds_on_exit in [false, true] {
        assert_eq!(
            trace(&guard, true, holds_on_exit),
            vec![CallState::Checking(Phase::Entry), CallState::Running, CallState::Returned]
        );
    }
    assert_eq!(
        trace(&guard, false, true),
        vec![CallState::Checking(Phase::Entry), CallState::Failed(Phase::Entry)]
    );
}

#[test]
fn after_only_skips_the_entry_check() {
    let guard = guard_with(TimingPolicy::CheckAfter);
    for holds_on_entry in [false, true] {
        assert_eq!(
            trace(&guard, holds_on_entry, true),
            vec![CallState::Running, CallState::Checking(Phase::Exit), CallState::Returned]
        );
        assert_eq!(
            trace(&guard, holds_on_entry, false),
            vec![
                CallState::Running,
                CallState::Checking(Phase::Exit),
                CallState::Failed(Phase::Exit),
            ]
        );
    }
}

#[test]
fn an_event_that_is_not_awaited_changes_nothing() {
    let guard = guard_with(TimingPolicy::CheckBeforeAndAfter);
    assert_eq!(
        guard.step(CallState::Checking(Phase::Entry), CallEvent::BodyReturned),
        CallState::Checking(Phase::Entry)
    );
    assert_eq!(
        guard.step(CallState::Running, CallEvent::InvariantEvaluated(false)),
        CallState::Running
    );
    assert_eq!(guard.step(CallState::Returned, CallEvent::BodyReturned), CallState::Returned);
    assert_eq!(
        guard.step(CallState::Failed(Phase::Exit), CallEvent::InvariantEvaluated(true)),
        CallState::Failed(Phase::Exit)
    );
}

#[test]
fn each_state_asks_for_its_action() {
    assert_eq!(CallState::Checking(Phase::Entry).action(), CallAction::EvaluateInvariant);
    assert_eq!(CallState::Checking(Phase::Exit).action(), CallAction::EvaluateInvariant);
    assert_eq!(CallState::Running.action(), CallAction::RunBody);
    assert_eq!(CallState::Returned.action(), CallAction::Return);
    assert_eq!(CallState::Failed(Phase::Entry).action(), CallAction::Abort(Phase::Entry));
}

#[test]
fn timing_says_which_phases_are_checked() {
    assert!(TimingPolicy::CheckBefore.is_checked(Phase::Entry));
    assert!(!TimingPolicy::CheckBefore.is_checked(Phase::Exit));
    assert!(!TimingPolicy::CheckAfter.is_checked(Phase::Entry));
    assert!(TimingPolicy::CheckAfter.is_checked(Phase::Exit));
    assert!(TimingPolicy::CheckBeforeAndAfter.is_checked(Phase::Entry));
    assert!(TimingPolicy::CheckBeforeAndAfter.is_checked(Phase::Exit));
    assert_eq!(TimingPolicy::default(), TimingPolicy::CheckBeforeAndAfter);
}
