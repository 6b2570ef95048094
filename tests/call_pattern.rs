use unimock::call_pattern::{
    find_responder_by_call_index, find_responder_index, DynCallOrderResponder, DynInputMatcher,
    DynResponder, InputMatcherDebug, CallPatternLocation, ResponseCell, CellResponder,
};
use unimock::builder::DynCallPatternBuilder;
use unimock::fn_mocker::PatternMatchMode;

type Responder = DynCallOrderResponder<u32, fn() -> Option<u32>, fn(&u32) -> u32>;

fn panic_responder(index: usize, msg: &str) -> Responder {
    DynCallOrderResponder { response_index: index, responder: DynResponder::Panic(msg.to_string()) }
}

#[test]
fn should_select_responder_with_lower_call_index() {
    let responders = vec![panic_responder(0, "0"), panic_responder(5, "5")];

    fn find_msg(responders: &[Responder], call_index: usize) -> Option<&str> {
        find_responder_by_call_index(responders, call_index).map(|responder| match responder {
            DynResponder::Panic(msg) => msg.as_str(),
            _ => panic!(),
        })
    }

    assert_eq!(find_msg(&[], 42), None);
    assert_eq!(find_msg(&responders, 0), Some("0"));
    assert_eq!(find_msg(&responders, 4), Some("0"));
    assert_eq!(find_msg(&responders, 5), Some("5"));
    assert_eq!(find_msg(&responders, 7), Some("5"));
}

#[test]
fn selection_fails_before_first_response_index() {
    let responders = vec![panic_responder(2, "a"), panic_responder(4, "b")];
    assert_eq!(find_responder_index(&responders, 0), None);
    assert_eq!(find_responder_index(&responders, 1), None);
    assert_eq!(find_responder_index(&responders, 2), Some(0));
    assert_eq!(find_responder_index(&responders, 3), Some(0));
    assert_eq!(find_responder_index(&responders, 4), Some(1));
    assert_eq!(find_responder_index(&responders, 1000), Some(1));
}

#[test]
fn selection_picks_greatest_index_not_above_call_index() {
    let responders = vec![
        panic_responder(0, "a"),
        panic_responder(1, "b"),
        panic_responder(3, "c"),
        panic_responder(6, "d"),
    ];
    let expected = [0, 1, 1, 2, 2, 2, 3, 3];
    for (call_index, want) in expected.iter().enumerate() {
        assert_eq!(find_responder_index(&responders, call_index), Some(*want));
    }
}

#[test]
fn equal_response_indices_select_the_last() {
    let responders = vec![panic_responder(0, "a"), panic_responder(0, "b"), panic_responder(2, "c")];
    assert_eq!(find_responder_index(&responders, 0), Some(1));
    assert_eq!(find_responder_index(&responders, 1), Some(1));
    assert_eq!(find_responder_index(&responders, 2), Some(2));
}

fn matches_even(i: &u32) -> bool {
    i % 2 == 0
}

#[test]
fn match_inputs_applies_the_matcher() {
    let pattern = DynCallPatternBuilder::<u32, fn(&u32) -> bool, fn() -> Option<u32>, fn(&u32) -> u32>::new(
        PatternMatchMode::InAnyOrder,
        DynInputMatcher::from_matching_fn(Some(matches_even as fn(&u32) -> bool), None),
    )
    .returns_clone(1)
    .finish();
    assert!(matches!(pattern.match_inputs(&2), Ok(true)));
    assert!(matches!(pattern.match_inputs(&3), Ok(false)));
}

#[test]
fn match_inputs_without_matcher_fails() {
    let pattern = DynCallPatternBuilder::<u32, fn(&u32) -> bool, fn() -> Option<u32>, fn(&u32) -> u32>::new(
        PatternMatchMode::InAnyOrder,
        DynInputMatcher::from_matching_fn(None, None),
    )
    .returns_clone(1)
    .finish();
    assert!(matches!(
        pattern.match_inputs(&2),
        Err(unimock::call_pattern::PatternError::NoMatcherFunction)
    ));
}

#[test]
fn debug_location_prefers_matcher_debug() {
    let debug = InputMatcherDebug { location: "src/lib.rs:10".to_string(), pat_debug: "x".to_string() };
    let with_debug = DynCallPatternBuilder::<u32, fn(&u32) -> bool, fn() -> Option<u32>, fn(&u32) -> u32>::new(
        PatternMatchMode::InAnyOrder,
        DynInputMatcher::from_matching_fn(Some(matches_even as fn(&u32) -> bool), Some(debug)),
    )
    .finish();
    match with_debug.debug_location(3) {
        CallPatternLocation::Debug(d) => {
            assert_eq!(d.location, "src/lib.rs:10");
            assert_eq!(d.pat_debug, "x");
        }
        CallPatternLocation::PatIndex(_) => panic!(),
    }
    let without = DynCallPatternBuilder::<u32, fn(&u32) -> bool, fn() -> Option<u32>, fn(&u32) -> u32>::new(
        PatternMatchMode::InAnyOrder,
        DynInputMatcher::from_matching_fn(Some(matches_even as fn(&u32) -> bool), None),
    )
    .finish();
    assert!(matches!(without.debug_location(3), CallPatternLocation::PatIndex(3)));
}

#[test]
fn responder_constructors_build_the_expected_variants() {
    type R = DynResponder<u32, fn() -> Option<u32>, fn(&u32) -> u32>;
    assert!(matches!(
        R::new_cell(7),
        Ok(DynResponder::Cell(CellResponder { cell: ResponseCell::Once(Some(7)) }))
    ));
    assert!(matches!(
        R::new_clone_cell(8),
        DynResponder::Cell(CellResponder { cell: ResponseCell::Clone(8) })
    ));
    let factory: fn() -> Option<u32> = || Some(9);
    match R::new_clone_factory_cell(factory) {
        DynResponder::Cell(CellResponder { cell: ResponseCell::Factory(f) }) => assert_eq!(f(), Some(9)),
        _ => panic!(),
    }
    match R::new_borrow(10) {
        DynResponder::Borrow(b) => assert_eq!(b.borrowable, 10),
        _ => panic!(),
    }
}
