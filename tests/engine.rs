use unimock::builder::{BuildError, DynCallPatternBuilder};
use unimock::call_pattern::{CallPattern, CallPatternLocation, DynInputMatcher, DynResponder, InputMatcherDebug};
use unimock::counter::Exactness;
use unimock::error::{CallOrder, MockError};
use unimock::eval::Evaluation;
use unimock::fn_mocker::{DynMockFn, PatternMatchMode};
use unimock::state::{FallbackMode, RegistryError, SharedState};

type M = fn(&u32) -> bool;
type C = fn() -> Option<u32>;
type F = fn(&u32) -> u32;
type Builder = DynCallPatternBuilder<u32, M, C, F>;
type Pattern = CallPattern<u32, M, C, F>;
type State = SharedState<u32, M, C, F>;

const FOO: DynMockFn = DynMockFn { type_id: 1, name: "Foo::foo" };
const BAR: DynMockFn = DynMockFn { type_id: 2, name: "Foo::bar" };

fn any(_: &u32) -> bool {
    true
}

fn is_one(i: &u32) -> bool {
    *i == 1
}

fn is_two(i: &u32) -> bool {
    *i == 2
}

fn below_ten(i: &u32) -> bool {
    *i < 10
}

fn builder(mode: PatternMatchMode, m: M) -> Builder {
    Builder::new(mode, DynInputMatcher::from_matching_fn(Some(m), None))
}

fn debug(i: &u32) -> String {
    format!("({i})")
}

fn call(state: &mut State, f: DynMockFn, input: u32) -> Result<Evaluation<u32>, MockError> {
    state.eval(f, &input, &debug)
}

fn call_value(state: &mut State, f: DynMockFn, input: u32) -> u32 {
    match call(state, f, input) {
        Ok(Evaluation::Evaluated(v)) => v,
        Ok(Evaluation::Cloned(loc)) => state.cloned_value(loc).unwrap(),
        Ok(_) => panic!("not an owned value"),
        Err(e) => panic!("{}", e.to_string()),
    }
}

fn state_with(mode: PatternMatchMode, f: DynMockFn, patterns: Vec<Pattern>) -> State {
    let mut state = State::new(FallbackMode::Error);
    state.register(f, mode, patterns).unwrap();
    state
}

#[test]
fn sequenced_responses() {
    let pattern = builder(PatternMatchMode::InAnyOrder, any)
        .returns_clone(1)
        .once()
        .then()
        .returns_clone(2)
        .n_times(2)
        .then()
        .returns_clone(3)
        .at_least_times(1)
        .finish();
    let mut state = state_with(PatternMatchMode::InAnyOrder, FOO, vec![pattern]);
    let outputs: Vec<u32> = (0..7).map(|_| call_value(&mut state, FOO, 0)).collect();
    assert_eq!(outputs, vec![1, 2, 2, 3, 3, 3, 3]);
    assert!(state.verify().is_empty());
}

#[test]
fn at_least_mismatch_message_shows_floor() {
    let pattern = builder(PatternMatchMode::InAnyOrder, any)
        .returns_clone(1)
        .n_times(2)
        .then()
        .returns_clone(2)
        .finish();
    let mut state = state_with(PatternMatchMode::InAnyOrder, FOO, vec![pattern]);
    call(&mut state, FOO, 0).unwrap();
    call(&mut state, FOO, 0).unwrap();
    let errors = state.verify();
    assert_eq!(
        errors[0].to_string(),
        "Foo::foo: Expected call pattern #0 to match at least 3 calls, but it actually matched 2 calls."
    );
    assert_eq!(call_value(&mut state, FOO, 0), 2);
    assert!(state.verify().is_empty());
}

#[test]
fn sequenced_responses_under_driven_fail_verification() {
    let pattern = builder(PatternMatchMode::InAnyOrder, any)
        .returns_clone(1)
        .once()
        .then()
        .returns_clone(2)
        .n_times(2)
        .finish();
    let mut state = state_with(PatternMatchMode::InAnyOrder, FOO, vec![pattern]);
    assert_eq!(call_value(&mut state, FOO, 0), 1);
    assert_eq!(call_value(&mut state, FOO, 0), 2);
    let errors = state.verify();
    assert_eq!(errors.len(), 1);
    assert!(matches!(errors[0], MockError::CallCountMismatch { pattern: CallPatternLocation::PatIndex(0), actual_count: 2, .. }));
}

#[test]
fn exactness_three_calls() {
    for (calls, ok) in [(2usize, false), (3, true), (4, false)] {
        let pattern = builder(PatternMatchMode::InAnyOrder, any).returns_clone(5).n_times(3).finish();
        let mut state = state_with(PatternMatchMode::InAnyOrder, FOO, vec![pattern]);
        for _ in 0..calls {
            assert_eq!(call_value(&mut state, FOO, 0), 5);
        }
        assert_eq!(state.verify().is_empty(), ok);
    }
}

#[test]
fn at_least_two_calls_verify() {
    for calls in 0..6usize {
        let pattern = builder(PatternMatchMode::InAnyOrder, any).returns_clone(5).at_least_times(2).finish();
        let mut state = state_with(PatternMatchMode::InAnyOrder, FOO, vec![pattern]);
        for _ in 0..calls {
            call(&mut state, FOO, 0).unwrap();
        }
        assert_eq!(state.verify().is_empty(), calls >= 2);
    }
}

#[test]
fn owned_once_value_is_exhausted() {
    let pattern = builder(PatternMatchMode::InAnyOrder, any).returns_once(42).finish();
    let mut state = state_with(PatternMatchMode::InAnyOrder, FOO, vec![pattern]);
    assert_eq!(call_value(&mut state, FOO, 7), 42);
    match call(&mut state, FOO, 7) {
        Err(MockError::CannotReturnValueMoreThanOnce { name, inputs_debug, pat_index }) => {
            assert_eq!(name, "Foo::foo");
            assert_eq!(inputs_debug, "(7)");
            assert_eq!(pat_index, 0);
        }
        _ => panic!(),
    }
}

#[test]
fn owned_once_value_is_quantified_once_by_default() {
    let pattern = builder(PatternMatchMode::InAnyOrder, any).returns_once(42).finish();
    assert_eq!(pattern.call_counter.expectation.minimum, 1);
    assert_eq!(pattern.call_counter.expectation.exactness, Exactness::Exact);
}

#[test]
fn second_response_after_unquantified_once_value_is_refused() {
    let mut b = builder(PatternMatchMode::InAnyOrder, any).returns_once(1);
    assert_eq!(b.push_responder(DynResponder::new_clone_cell(2)), Err(BuildError::OnceValueRequestedMoreThanOnce));
    assert_eq!(b.responders.len(), 1);
    let mut q = builder(PatternMatchMode::InAnyOrder, any).returns_once(1).once().then();
    assert_eq!(q.push_responder(DynResponder::new_clone_cell(2)), Ok(()));
    assert_eq!(q.responders[1].response_index, 1);
}

#[test]
fn strict_order_in_sequence_succeeds() {
    let first = builder(PatternMatchMode::InOrder, is_one).returns_clone(10).once().finish();
    let second = builder(PatternMatchMode::InOrder, is_two).returns_clone(20).once().finish();
    let mut state = state_with(PatternMatchMode::InOrder, FOO, vec![first, second]);
    assert_eq!(call_value(&mut state, FOO, 1), 10);
    assert_eq!(call_value(&mut state, FOO, 2), 20);
    assert!(state.verify().is_empty());
}

#[test]
fn strict_order_swapped_inputs_do_not_match() {
    let first = builder(PatternMatchMode::InOrder, is_one).returns_clone(10).once().finish();
    let second = builder(PatternMatchMode::InOrder, is_two).returns_clone(20).once().finish();
    let mut state = state_with(PatternMatchMode::InOrder, FOO, vec![first, second]);
    match call(&mut state, FOO, 2) {
        Err(MockError::InputsNotMatchedInCallOrder { actual_call_order, pat_index, .. }) => {
            assert_eq!(actual_call_order, CallOrder(0));
            assert_eq!(pat_index, 0);
        }
        _ => panic!(),
    }
    match call(&mut state, FOO, 1) {
        Err(MockError::InputsNotMatchedInCallOrder { actual_call_order, pat_index, .. }) => {
            assert_eq!(actual_call_order, CallOrder(1));
            assert_eq!(pat_index, 1);
        }
        _ => panic!(),
    }
}

#[test]
fn strict_order_across_functions() {
    let mut state = State::new(FallbackMode::Error);
    let first = builder(PatternMatchMode::InOrder, any).returns_clone(10).once().finish();
    let second = builder(PatternMatchMode::InOrder, any).returns_clone(20).once().finish();
    state.register(FOO, PatternMatchMode::InOrder, vec![first]).unwrap();
    state.register(BAR, PatternMatchMode::InOrder, vec![second]).unwrap();
    match call(&mut state, BAR, 0) {
        Err(e @ MockError::CallOrderNotMatchedForMockFn { .. }) => {
            assert_eq!(
                e.to_string(),
                "Foo::bar(0): Matched in wrong order. It supported the call order ranges [1..2], but actual call order was 1."
            );
        }
        _ => panic!(),
    }
    match call(&mut state, FOO, 0) {
        Err(MockError::CallOrderNotMatchedForMockFn { actual_call_order, expected_ranges, .. }) => {
            assert_eq!(actual_call_order, CallOrder(1));
            assert_eq!(expected_ranges, vec![0..1]);
        }
        _ => panic!(),
    }
}

#[test]
fn strict_order_unquantified_takes_one_position() {
    let first = builder(PatternMatchMode::InOrder, any).returns_clone(10).finish();
    let second = builder(PatternMatchMode::InOrder, any).returns_clone(20).n_times(2).finish();
    let mut state = state_with(PatternMatchMode::InOrder, FOO, vec![first, second]);
    assert_eq!(state.fn_mockers[0].call_patterns[0].ordered_call_index_range, 0..1);
    assert_eq!(state.fn_mockers[0].call_patterns[1].ordered_call_index_range, 1..3);
    let outputs: Vec<u32> = (0..3).map(|_| call_value(&mut state, FOO, 0)).collect();
    assert_eq!(outputs, vec![10, 20, 20]);
    assert!(matches!(call(&mut state, FOO, 0), Err(MockError::CallOrderNotMatchedForMockFn { .. })));
}

#[test]
fn unordered_first_match_wins() {
    let a = builder(PatternMatchMode::InAnyOrder, below_ten).returns_clone(1).finish();
    let b = builder(PatternMatchMode::InAnyOrder, any).returns_clone(2).finish();
    let mut state = state_with(PatternMatchMode::InAnyOrder, FOO, vec![a, b]);
    assert_eq!(call_value(&mut state, FOO, 3), 1);
    assert_eq!(call_value(&mut state, FOO, 30), 2);
    assert_eq!(state.fn_mockers[0].call_patterns[0].call_counter.actual_count, 1);
    assert_eq!(state.fn_mockers[0].call_patterns[1].call_counter.actual_count, 1);
}

#[test]
fn unordered_no_match() {
    let a = builder(PatternMatchMode::InAnyOrder, is_one).returns_clone(1).finish();
    let mut state = state_with(PatternMatchMode::InAnyOrder, FOO, vec![a]);
    match call(&mut state, FOO, 5) {
        Err(e @ MockError::NoMatchingCallPatterns { .. }) => {
            assert_eq!(e.to_string(), "Foo::foo(5): No matching call patterns.");
        }
        _ => panic!(),
    }
}

#[test]
fn unknown_function_fails_or_is_skipped() {
    let mut state = State::new(FallbackMode::Error);
    match call(&mut state, FOO, 0) {
        Err(e @ MockError::NoMockImplementation { .. }) => {
            assert_eq!(e.to_string(), "No mock implementation found for Foo::foo.");
        }
        _ => panic!(),
    }
    let mut permissive = State::new(FallbackMode::Unmock);
    assert!(matches!(call(&mut permissive, FOO, 0), Ok(Evaluation::Skipped)));
}

#[test]
fn unmatched_call_is_skipped_when_unmocking() {
    let mut state = State::new(FallbackMode::Unmock);
    let a = builder(PatternMatchMode::InAnyOrder, is_one).returns_clone(1).finish();
    state.register(FOO, PatternMatchMode::InAnyOrder, vec![a]).unwrap();
    assert!(matches!(call(&mut state, FOO, 5), Ok(Evaluation::Skipped)));
    assert_eq!(call_value(&mut state, FOO, 1), 1);
}

#[test]
fn registered_without_patterns() {
    let mut state = state_with(PatternMatchMode::InAnyOrder, FOO, vec![]);
    match call(&mut state, FOO, 4) {
        Err(e @ MockError::NoRegisteredCallPatterns { .. }) => {
            assert_eq!(e.to_string(), "Foo::foo(4): No registered call patterns.");
        }
        _ => panic!(),
    }
}

#[test]
fn mixed_match_modes_are_refused() {
    let mut state = State::new(FallbackMode::Error);
    let a = builder(PatternMatchMode::InAnyOrder, any).returns_clone(1).finish();
    let b = builder(PatternMatchMode::InOrder, any).returns_clone(1).once().finish();
    state.register(FOO, PatternMatchMode::InAnyOrder, vec![a]).unwrap();
    assert_eq!(state.register(FOO, PatternMatchMode::InOrder, vec![b]), Err(RegistryError::MixedMatchModes));
    assert_eq!(state.fn_mockers.len(), 1);
    assert_eq!(state.fn_mockers[0].call_patterns.len(), 1);
}

#[test]
fn registering_again_appends_patterns() {
    let mut state = State::new(FallbackMode::Error);
    let a = builder(PatternMatchMode::InAnyOrder, is_one).returns_clone(1).finish();
    let b = builder(PatternMatchMode::InAnyOrder, any).returns_clone(2).finish();
    state.register(FOO, PatternMatchMode::InAnyOrder, vec![a]).unwrap();
    state.register(FOO, PatternMatchMode::InAnyOrder, vec![b]).unwrap();
    assert_eq!(state.fn_mockers.len(), 1);
    assert_eq!(state.lookup(1), Some(0));
    assert_eq!(state.lookup(2), None);
    assert_eq!(call_value(&mut state, FOO, 1), 1);
    assert_eq!(call_value(&mut state, FOO, 3), 2);
}

#[test]
fn zero_calls_round_trip() {
    let lenient = builder(PatternMatchMode::InAnyOrder, any).returns_clone(1).at_least_times(0).finish();
    let unspecified = builder(PatternMatchMode::InAnyOrder, any).returns_clone(1).finish();
    let state = state_with(PatternMatchMode::InAnyOrder, FOO, vec![lenient, unspecified]);
    assert!(state.verify().is_empty());

    let strict = builder(PatternMatchMode::InAnyOrder, any).returns_clone(1).once().finish();
    let state = state_with(PatternMatchMode::InAnyOrder, FOO, vec![strict]);
    let errors = state.verify();
    assert_eq!(errors.len(), 2);
    assert_eq!(
        errors[0].to_string(),
        "Foo::foo: Expected call pattern #0 to match exactly 1 call, but it actually matched no calls."
    );
    match &errors[1] {
        e @ MockError::MockNeverCalled { pat_index: 0, .. } => {
            assert_eq!(e.to_string(), "Mock for Foo::foo was never called. Dead mocks should be removed.");
        }
        _ => panic!(),
    }
    assert_eq!(state.verify().len(), 2);
}

#[test]
fn over_called_exact_pattern_reports_mismatch() {
    let pattern = builder(PatternMatchMode::InAnyOrder, any).returns_clone(1).n_times(3).finish();
    let mut state = state_with(PatternMatchMode::InAnyOrder, FOO, vec![pattern]);
    for _ in 0..4 {
        call(&mut state, FOO, 0).unwrap();
    }
    let errors = state.verify();
    assert_eq!(
        errors[0].to_string(),
        "Foo::foo: Expected call pattern #0 to match exactly 3 calls, but it actually matched 4 calls."
    );
}

#[test]
fn explicit_panic_responder() {
    let pattern = builder(PatternMatchMode::InAnyOrder, any).panics("boom".to_string()).finish();
    let mut state = state_with(PatternMatchMode::InAnyOrder, FOO, vec![pattern]);
    match call(&mut state, FOO, 12) {
        Err(e @ MockError::ExplicitPanic { .. }) => {
            assert_eq!(e.to_string(), "Foo::foo(12): Explicit panic from call pattern #0: boom");
        }
        _ => panic!(),
    }
}

#[test]
fn computed_responder_uses_inputs() {
    let double: F = |i| i * 2;
    let pattern = builder(PatternMatchMode::InAnyOrder, any).answers(double).finish();
    let mut state = state_with(PatternMatchMode::InAnyOrder, FOO, vec![pattern]);
    assert_eq!(call_value(&mut state, FOO, 21), 42);
    assert_eq!(call_value(&mut state, FOO, 4), 8);
}

#[test]
fn borrowed_responder_lends_stored_value() {
    let pattern = builder(PatternMatchMode::InAnyOrder, any).returns_ref(99).finish();
    let mut state = state_with(PatternMatchMode::InAnyOrder, FOO, vec![pattern]);
    let loc = match call(&mut state, FOO, 0) {
        Ok(Evaluation::Borrowed(loc)) => loc,
        _ => panic!(),
    };
    assert_eq!(state.borrowed_value(loc), Some(&99));
    let mut wrong = loc;
    wrong.responder_index = 5;
    assert_eq!(state.borrowed_value(wrong), None);
}

#[test]
fn unmocked_responder_skips() {
    let pattern = builder(PatternMatchMode::InAnyOrder, any).unmocked().finish();
    let mut state = state_with(PatternMatchMode::InAnyOrder, FOO, vec![pattern]);
    assert!(matches!(call(&mut state, FOO, 0), Ok(Evaluation::Skipped)));
}

#[test]
fn no_output_before_first_responder() {
    let mut state = State::new(FallbackMode::Error);
    let mut pattern = builder(PatternMatchMode::InAnyOrder, any).returns_clone(1).finish();
    pattern.responders[0].response_index = 1;
    state.register(FOO, PatternMatchMode::InAnyOrder, vec![pattern]).unwrap();
    match call(&mut state, FOO, 0) {
        Err(e @ MockError::NoOutputAvailableForCallPattern { .. }) => {
            assert_eq!(e.to_string(), "Foo::foo(0): No output available for matching call pattern #0.");
        }
        _ => panic!(),
    }
    assert_eq!(call_value(&mut state, FOO, 0), 1);
}

#[test]
fn missing_matcher_is_reported() {
    let pattern = Builder::new(PatternMatchMode::InAnyOrder, DynInputMatcher::from_matching_fn(None, None))
        .returns_clone(1)
        .finish();
    let mut state = state_with(PatternMatchMode::InAnyOrder, FOO, vec![pattern]);
    match call(&mut state, FOO, 0) {
        Err(e @ MockError::NoMatcherFunction { .. }) => {
            assert_eq!(e.to_string(), "Foo::foo: No matcher function for call pattern #0.");
        }
        _ => panic!(),
    }
}

#[test]
fn error_messages() {
    let order = MockError::InputsNotMatchedInCallOrder {
        name: "f",
        inputs_debug: "(1)".to_string(),
        actual_call_order: CallOrder(9),
        pat_index: 12,
    };
    assert_eq!(order.to_string(), "f(1): Invoked in the correct order (10), but inputs didn't match call pattern #12.");
    assert_eq!(CallOrder(0).to_string(), "1");
    assert_eq!(CallOrder(99).to_string(), "100");
    let ranges = MockError::CallOrderNotMatchedForMockFn {
        name: "g",
        inputs_debug: "()".to_string(),
        actual_call_order: CallOrder(4),
        expected_ranges: vec![0..2, 7..10],
    };
    assert_eq!(
        ranges.to_string(),
        "g(): Matched in wrong order. It supported the call order ranges [0..2, 7..10], but actual call order was 5."
    );
    assert_eq!(MockError::Downcast { name: "h" }.to_string(), "Fatal: Failed to downcast for h.");
    assert_eq!(
        MockError::CannotUnmock { name: "h" }.to_string(),
        "h cannot be unmocked as there is no function available to call."
    );
    assert_eq!(MockError::FailedVerification("custom".to_string()).to_string(), "custom");
    assert_eq!(
        MockError::CannotReturnValueMoreThanOnce { name: "h", inputs_debug: "(3)".to_string(), pat_index: 1 }
            .to_string(),
        "h(3): Cannot return value more than once for call pattern #1: it was already consumed."
    );
    assert_eq!(
        MockError::CannotBorrowValueStatically { name: "h", inputs_debug: "1".to_string(), pat_index: 2 }.to_string(),
        "h(1): Cannot borrow output value statically for call pattern (2). Consider using .returns_static()."
    );
    assert_eq!(
        MockError::CannotBorrowValueProducedByClosure { name: "h", inputs_debug: "1".to_string(), pat_index: 2 }
            .to_string(),
        "h(1): Cannot borrow the value returned by the answering closure for (2)"
    );
}

#[test]
fn under_driven_series_names_pattern_by_its_matcher() {
    const SERIES: DynMockFn = DynMockFn { type_id: 3, name: "Series::series" };
    let debug = InputMatcherDebug { location: "tests/it/basic.rs:652".to_string(), pat_debug: "".to_string() };
    let pattern = Builder::new(PatternMatchMode::InAnyOrder, DynInputMatcher::from_matching_fn(Some(any as M), Some(debug)))
        .returns_clone(1)
        .once()
        .then()
        .returns_clone(2)
        .n_times(2)
        .then()
        .returns_clone(3)
        .at_least_times(1)
        .finish();
    let mut state = state_with(PatternMatchMode::InAnyOrder, SERIES, vec![pattern]);
    assert_eq!(call_value(&mut state, SERIES, 0), 1);
    assert_eq!(call_value(&mut state, SERIES, 0), 2);
    let errors = state.verify();
    assert_eq!(errors.len(), 1);
    assert_eq!(
        errors[0].to_string(),
        "Series::series: Expected Series::series() at tests/it/basic.rs:652 to match at least 4 calls, but it actually matched 2 calls."
    );
}

#[test]
fn never_called_pattern_with_matcher_debug() {
    const SINGLE: DynMockFn = DynMockFn { type_id: 4, name: "Single::func" };
    let debug = InputMatcherDebug { location: "tests/it/basic.rs:443".to_string(), pat_debug: "_".to_string() };
    let pattern = Builder::new(PatternMatchMode::InOrder, DynInputMatcher::from_matching_fn(Some(any as M), Some(debug)))
        .returns_once(7)
        .once()
        .finish();
    let state = state_with(PatternMatchMode::InOrder, SINGLE, vec![pattern]);
    let text: Vec<String> = state.verify().iter().map(|e| e.to_string()).collect();
    assert_eq!(
        text.join("\n"),
        "Single::func: Expected Single::func(_) at tests/it/basic.rs:443 to match exactly 1 call, but it actually matched no calls.\nMock for Single::func was never called. Dead mocks should be removed."
    );
}

#[derive(Debug, PartialEq)]
struct Token(u32);

fn any_token_input(_: &u32) -> bool {
    true
}

#[test]
fn non_cloneable_value_is_handed_out_once() {
    type TokenState = SharedState<Token, M, fn() -> Option<Token>, fn(&u32) -> Token>;
    let pattern = DynCallPatternBuilder::<Token, M, fn() -> Option<Token>, fn(&u32) -> Token>::new(
        PatternMatchMode::InAnyOrder,
        DynInputMatcher::from_matching_fn(Some(any_token_input as M), None),
    )
    .returns_once(Token(42))
    .finish();
    let mut state = TokenState::new(FallbackMode::Error);
    state.register(FOO, PatternMatchMode::InAnyOrder, vec![pattern]).unwrap();
    match state.eval(FOO, &0, &debug) {
        Ok(Evaluation::Evaluated(t)) => assert_eq!(t, Token(42)),
        _ => panic!(),
    }
    assert!(matches!(
        state.eval(FOO, &0, &debug),
        Err(MockError::CannotReturnValueMoreThanOnce { pat_index: 0, .. })
    ));
    assert_eq!(state.verify().len(), 1);
}

#[test]
fn repeatable_value_is_cloned_from_its_location() {
    let pattern = builder(PatternMatchMode::InAnyOrder, any).returns_clone(8).finish();
    let mut state = state_with(PatternMatchMode::InAnyOrder, FOO, vec![pattern]);
    let loc = match call(&mut state, FOO, 0) {
        Ok(Evaluation::Cloned(loc)) => loc,
        _ => panic!(),
    };
    assert_eq!((loc.fn_index, loc.pat_index, loc.responder_index), (0, 0, 0));
    assert_eq!(state.cloned_value(loc), Some(8));
    assert_eq!(state.borrowed_value(loc), None);
}
