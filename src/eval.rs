//! Dispatch of one incoming call: locating the function's patterns, selecting a
//! pattern by match mode, selecting the responder by the pattern's call count,
//! and producing the outcome.
use vstd::prelude::*;
use crate::call_pattern::{
    no_responder_for, selects_responder, BorrowResponder, CallPattern, CellResponder,
    DynCallOrderResponder, DynResponder, ResponseCell,
};
use crate::error::{CallOrder, MockError};
use crate::fn_mocker::{range_holds, DynMockFn, FnMocker, PatternMatchMode};
use crate::state::{FallbackMode, SharedState};

verus! {

/// What a responder produced for one call, before it is attributed to a function.
pub enum Produced<V> {
    /// An owned value.
    Value(V),
    /// The value stored by the borrowable responder at this position.
    Borrow(usize),
    /// A clone of the value stored by the repeatable responder at this position.
    Clone(usize),
    /// The call goes to the real implementation.
    Unmock,
    /// The call goes to the interface's default implementation.
    DefaultImpl,
}

/// Why a matched pattern produced no output.
#[derive(Debug)]
pub enum ProduceError {
    /// No responder takes effect at the pattern's current call index.
    NoOutput,
    /// The value could be handed out once and already was.
    AlreadyConsumed,
    /// The responder fails calls with this message.
    Panic(String),
}

/// The responder that answers call index `c`, where one does.
pub open spec fn selected_responder<V, C, F>(rs: Seq<DynCallOrderResponder<V, C, F>>, c: int) -> int {
    choose|j: int| selects_responder(rs, c, j)
}

/// At most one responder answers a given call index.
pub proof fn lemma_selects_unique<V, C, F>(
    rs: Seq<DynCallOrderResponder<V, C, F>>,
    c: int,
    j1: int,
    j2: int,
)
    requires
        selects_responder(rs, c, j1),
        selects_responder(rs, c, j2),
    ensures
        j1 == j2,
{
    if j1 < j2 {
        assert(c < rs[j2].response_index);
    } else if j2 < j1 {
        assert(c < rs[j1].response_index);
    }
}

/// `next` holds the same responders as `prev` except that the owned-once value at
/// position `j` has been taken.
pub open spec fn once_taken<V, C, F>(
    prev: Seq<DynCallOrderResponder<V, C, F>>,
    next: Seq<DynCallOrderResponder<V, C, F>>,
    j: int,
) -> bool {
    next == prev.update(
        j,
        DynCallOrderResponder {
            response_index: prev[j].response_index,
            responder: DynResponder::Cell(CellResponder { cell: ResponseCell::Once(None) }),
        },
    )
}

/// `new` is `prev` after one call that produced `r`: the call is counted, and
/// the responder that answers the call's index determines `r`; only taking an
/// owned-once value changes a responder.
pub open spec fn responded<V, M, C, F, I>(
    prev: CallPattern<V, M, C, F>,
    new: CallPattern<V, M, C, F>,
    inputs: &I,
    r: Result<Produced<V>, ProduceError>,
) -> bool
    where
        C: Fn() -> Option<V>,
        F: Fn(&I) -> V,
{
    let rs = prev.responders@;
    let c = prev.call_counter.actual_count as int;
    let j = selected_responder(rs, c);
    &&& new.wf()
    &&& new.input_matcher == prev.input_matcher
    &&& new.ordered_call_index_range == prev.ordered_call_index_range
    &&& new.call_counter.expectation == prev.call_counter.expectation
    &&& new.call_counter.actual_count == prev.call_counter.actual_count + 1
    &&& if no_responder_for(rs, c) {
        r matches Err(ProduceError::NoOutput) && new.responders@ == rs
    } else {
        match rs[j].responder {
            DynResponder::Cell(CellResponder { cell: ResponseCell::Once(Some(v)) }) => {
                r == Ok::<Produced<V>, ProduceError>(Produced::Value(v)) && once_taken(
                    rs,
                    new.responders@,
                    j,
                )
            },
            DynResponder::Cell(CellResponder { cell: ResponseCell::Once(None) }) => {
                r matches Err(ProduceError::AlreadyConsumed) && new.responders@ == rs
            },
            DynResponder::Cell(CellResponder { cell: ResponseCell::Clone(_) }) => {
                r matches Ok(Produced::Clone(k)) && k == j && new.responders@ == rs
            },
            DynResponder::Cell(CellResponder { cell: ResponseCell::Factory(f) }) => {
                ((r matches Ok(Produced::Value(w)) && f.ensures((), Some(w))) || (r matches Err(
                    ProduceError::AlreadyConsumed,
                ) && f.ensures((), None))) && new.responders@ == rs
            },
            DynResponder::Borrow(_) => {
                r matches Ok(Produced::Borrow(k)) && k == j && new.responders@ == rs
            },
            DynResponder::Function(fr) => {
                (r matches Ok(Produced::Value(w)) && fr.func.ensures((inputs,), w)) && new.responders@
                    == rs
            },
            DynResponder::Panic(m) => {
                (r matches Err(ProduceError::Panic(m2)) && m2@ == m@) && new.responders@ == rs
            },
            DynResponder::Unmock => { r matches Ok(Produced::Unmock) && new.responders@ == rs },
            DynResponder::CallDefaultImpl => {
                r matches Ok(Produced::DefaultImpl) && new.responders@ == rs
            },
        }
    }
}

impl<V, C, F> DynResponder<V, C, F> {
    /// Takes the value out of an owned-once responder, leaving it empty; any
    /// other responder is left as it is and yields nothing.
    pub fn take_once(&mut self) -> (r: Option<V>)
        ensures
            *old(self) matches DynResponder::Cell(CellResponder { cell: ResponseCell::Once(o) })
                ==> r == o && *final(self) == DynResponder::<V, C, F>::Cell(
                CellResponder { cell: ResponseCell::Once(None) },
            ),
            !(*old(self) matches DynResponder::Cell(CellResponder { cell: ResponseCell::Once(_) }))
                ==> r is None && *final(self) == *old(self),
    {
        match self {
            DynResponder::Cell(CellResponder { cell: ResponseCell::Once(o) }) => o.take(),
            _ => None,
        }
    }
}

/// The functions held by the responders in `rs` can be called, those of
/// computed responders on `inputs`.
pub open spec fn responders_callable<V, C, F, I>(rs: Seq<DynCallOrderResponder<V, C, F>>, inputs: &I) -> bool
    where
        C: Fn() -> Option<V>,
        F: Fn(&I) -> V,
{
    forall|k: int|
        0 <= k < rs.len() ==> match #[trigger] rs[k].responder {
            DynResponder::Cell(CellResponder { cell: ResponseCell::Factory(c) }) => c.requires(()),
            DynResponder::Function(fr) => fr.func.requires((inputs,)),
            _ => true,
        }
}

impl<V, M, C, F> CallPattern<V, M, C, F> {
    /// Counts one more call and lets the responder that answers it produce the
    /// output.
    pub fn respond<I>(&mut self, inputs: &I) -> (r: Result<Produced<V>, ProduceError>)
        where
            C: Fn() -> Option<V>,
            F: Fn(&I) -> V,
        requires
            old(self).wf(),
            old(self).call_counter.actual_count < usize::MAX,
            responders_callable(old(self).responders@, inputs),
        ensures
            responded(*old(self), *final(self), inputs, r),
    {
        let ghost c = self.call_counter.actual_count as int;
        let j = match self.next_responder() {
            Some(j) => j,
            None => {
                return Err(ProduceError::NoOutput);
            },
        };
        proof {
            lemma_selects_unique(self.responders@, c, j as int, selected_responder(self.responders@, c));
        }
        let ghost rs = self.responders@;
        let shared = match &self.responders[j].responder {
            DynResponder::Cell(CellResponder { cell: ResponseCell::Once(_) }) => None,
            DynResponder::Cell(CellResponder { cell: ResponseCell::Clone(_) }) => Some(
                Ok(Produced::Clone(j)),
            ),
            DynResponder::Cell(CellResponder { cell: ResponseCell::Factory(f) }) => match f() {
                Some(v) => Some(Ok(Produced::Value(v))),
                None => Some(Err(ProduceError::AlreadyConsumed)),
            },
            DynResponder::Borrow(_) => Some(Ok(Produced::Borrow(j))),
            DynResponder::Function(fr) => Some(Ok(Produced::Value((fr.func)(inputs)))),
            DynResponder::Panic(m) => Some(Err(ProduceError::Panic(m.clone()))),
            DynResponder::Unmock => Some(Ok(Produced::Unmock)),
            DynResponder::CallDefaultImpl => Some(Ok(Produced::DefaultImpl)),
        };
        if let Some(r) = shared {
            return r;
        }
        let taken = self.responders[j].responder.take_once();
        assert(self.responders@ =~= rs.update(
            j as int,
            DynCallOrderResponder {
                response_index: rs[j as int].response_index,
                responder: DynResponder::Cell(CellResponder { cell: ResponseCell::Once(None) }),
            },
        ));
        assert(self.wf()) by {
            assert forall|a: int, b: int|
                0 <= a <= b < self.responders@.len() implies #[trigger] self.responders@[a].response_index
                <= #[trigger] self.responders@[b].response_index by {
                assert(rs[a].response_index <= rs[b].response_index);
            }
        }
        if taken.is_none() {
            assert(self.responders@ =~= rs);
        }
        match taken {
            Some(v) => Ok(Produced::Value(v)),
            None => Err(ProduceError::AlreadyConsumed),
        }
    }
}

/// Where a stored response is kept: a responder of a pattern of a function.
#[derive(Clone, Copy, Debug, PartialEq, Eq, Structural)]
pub struct ResponseLocation {
    pub fn_index: usize,
    pub pat_index: usize,
    pub responder_index: usize,
}

/// The successful outcome of a call.
pub enum Evaluation<V> {
    /// The call returns this owned value.
    Evaluated(V),
    /// The call returns a reference to the value stored at this location, valid
    /// for as long as the mock instance.
    Borrowed(ResponseLocation),
    /// The call returns a clone of the value stored at this location.
    Cloned(ResponseLocation),
    /// The call goes to the real implementation.
    Skipped,
    /// The call goes to the interface's default implementation.
    CallDefaultImpl,
}

/// The outcome of a call to function `name` that pattern `k` of entry `i`
/// answered with `prod`; `s` renders the inputs.
pub open spec fn outcome<V>(
    prod: Result<Produced<V>, ProduceError>,
    name: &'static str,
    s: String,
    i: int,
    k: int,
) -> Result<Evaluation<V>, MockError> {
    match prod {
        Ok(Produced::Value(v)) => Ok(Evaluation::Evaluated(v)),
        Ok(Produced::Borrow(j)) => Ok(
            Evaluation::Borrowed(
                ResponseLocation { fn_index: i as usize, pat_index: k as usize, responder_index: j },
            ),
        ),
        Ok(Produced::Clone(j)) => Ok(
            Evaluation::Cloned(
                ResponseLocation { fn_index: i as usize, pat_index: k as usize, responder_index: j },
            ),
        ),
        Ok(Produced::Unmock) => Ok(Evaluation::Skipped),
        Ok(Produced::DefaultImpl) => Ok(Evaluation::CallDefaultImpl),
        Err(ProduceError::NoOutput) => Err(
            MockError::NoOutputAvailableForCallPattern { name, inputs_debug: s, pat_index: k as usize },
        ),
        Err(ProduceError::AlreadyConsumed) => Err(
            MockError::CannotReturnValueMoreThanOnce { name, inputs_debug: s, pat_index: k as usize },
        ),
        Err(ProduceError::Panic(m)) => Err(
            MockError::ExplicitPanic { name, inputs_debug: s, pat_index: k as usize, msg: m },
        ),
    }
}

/// Under unordered matching pattern `k` is chosen: its matcher accepted the
/// inputs and every earlier pattern's matcher rejected them.
pub open spec fn any_order_selects<V, M, C, F, I>(
    ps: Seq<CallPattern<V, M, C, F>>,
    inputs: &I,
    k: int,
) -> bool
    where
        M: Fn(&I) -> bool,
{
    &&& 0 <= k < ps.len()
    &&& ps[k].accepts(inputs)
    &&& rejected_before(ps, inputs, k)
}

/// Every pattern before `k` has a matcher, and it rejected the inputs.
pub open spec fn rejected_before<V, M, C, F, I>(
    ps: Seq<CallPattern<V, M, C, F>>,
    inputs: &I,
    k: int,
) -> bool
    where
        M: Fn(&I) -> bool,
{
    forall|j: int| 0 <= j < k ==> (#[trigger] ps[j]).rejects(inputs)
}

/// Pattern `k` is the first whose call-order range holds position `pos`.
pub open spec fn first_in_range<V, M, C, F>(
    ps: Seq<CallPattern<V, M, C, F>>,
    pos: int,
    k: int,
) -> bool {
    &&& range_holds(ps, k, pos)
    &&& forall|j: int| 0 <= j < k ==> !range_holds(ps, j, pos)
}

/// The call-order ranges of `ps`.
pub open spec fn ranges_of<V, M, C, F>(ps: Seq<CallPattern<V, M, C, F>>) -> Seq<
    core::ops::Range<usize>,
> {
    ps.map_values(|p: CallPattern<V, M, C, F>| p.ordered_call_index_range)
}

impl<V, M, C, F> CallPattern<V, M, C, F> {
    /// The matcher, if there is one, can be applied to `inputs`.
    pub open spec fn matcher_callable<I>(&self, inputs: &I) -> bool
        where
            M: Fn(&I) -> bool,
    {
        self.input_matcher.dyn_matching_fn matches Some(m) ==> m.requires((inputs,))
    }

    /// The pattern has a matcher, and it accepted `inputs`.
    pub open spec fn accepts<I>(&self, inputs: &I) -> bool
        where
            M: Fn(&I) -> bool,
    {
        self.input_matcher.dyn_matching_fn matches Some(m) && m.ensures((inputs,), true)
    }

    /// The pattern has a matcher, and it rejected `inputs`.
    pub open spec fn rejects<I>(&self, inputs: &I) -> bool
        where
            M: Fn(&I) -> bool,
    {
        self.input_matcher.dyn_matching_fn matches Some(m) && m.ensures((inputs,), false)
    }

    /// This pattern can take a call with `inputs`: its counter has room and its
    /// matcher and functions accept the inputs.
    pub open spec fn callable_with<I>(&self, inputs: &I) -> bool
        where
            M: Fn(&I) -> bool,
            C: Fn() -> Option<V>,
            F: Fn(&I) -> V,
    {
        &&& self.call_counter.actual_count < usize::MAX
        &&& self.matcher_callable(inputs)
        &&& responders_callable(self.responders@, inputs)
    }
}

impl<V, M, C, F> FnMocker<V, M, C, F> {
    /// The first pattern, in registration order, whose matcher accepts `inputs`.
    /// `Err(k)` when pattern `k`, reached before any match, has no matcher.
    pub fn match_any_order<I>(&self, inputs: &I) -> (r: Result<Option<usize>, usize>)
        where
            M: Fn(&I) -> bool,
        requires
            forall|k: int|
                0 <= k < self.call_patterns@.len() ==> (#[trigger] self.call_patterns@[k]).matcher_callable(inputs),
        ensures
            r matches Ok(Some(k)) ==> any_order_selects(self.call_patterns@, inputs, k as int),
            r matches Ok(None) ==> rejected_before(
                self.call_patterns@,
                inputs,
                self.call_patterns@.len() as int,
            ),
            r matches Err(k) ==> k < self.call_patterns@.len()
                && self.call_patterns@[k as int].input_matcher.dyn_matching_fn is None
                && rejected_before(self.call_patterns@, inputs, k as int),
    {
        let mut k: usize = 0;
        while k < self.call_patterns.len()
            invariant
                k <= self.call_patterns@.len(),
                rejected_before(self.call_patterns@, inputs, k as int),
                forall|q: int|
                    0 <= q < self.call_patterns@.len() ==> (#[trigger] self.call_patterns@[q]).matcher_callable(inputs),
            decreases self.call_patterns@.len() - k,
        {
            let pattern = &self.call_patterns[k];
            assert(self.call_patterns@[k as int] == *pattern);
            match pattern.match_inputs(inputs) {
                Ok(true) => {
                    return Ok(Some(k));
                },
                Ok(false) => {},
                Err(_) => {
                    return Err(k);
                },
            }
            k = k + 1;
        }
        Ok(None)
    }
}

impl<V, M, C, F> FnMocker<V, M, C, F> {
    /// The call-order ranges of this function's patterns.
    pub fn expected_ranges(&self) -> (r: Vec<core::ops::Range<usize>>)
        ensures
            r@ == ranges_of(self.call_patterns@),
    {
        let mut ranges: Vec<core::ops::Range<usize>> = Vec::new();
        let mut k: usize = 0;
        while k < self.call_patterns.len()
            invariant
                k <= self.call_patterns@.len(),
                ranges@ == ranges_of(self.call_patterns@).subrange(0, k as int),
            decreases self.call_patterns@.len() - k,
        {
            let range = &self.call_patterns[k].ordered_call_index_range;
            ranges.push(range.start..range.end);
            assert(ranges@ =~= ranges_of(self.call_patterns@).subrange(0, k + 1));
            k = k + 1;
        }
        assert(ranges@ =~= ranges_of(self.call_patterns@));
        ranges
    }
}

impl<V, M, C, F> SharedState<V, M, C, F> {
    /// The global call-order counter has room, and every pattern registered
    /// for `type_id` can take a call with `inputs`.
    pub open spec fn ready_for<I>(&self, type_id: u64, inputs: &I) -> bool
        where
            M: Fn(&I) -> bool,
            C: Fn() -> Option<V>,
            F: Fn(&I) -> V,
    {
        &&& self.ordered_call_index < usize::MAX
        &&& match self.entry_index(type_id) {
            Some(i) => forall|k: int|
                0 <= k < self.fn_mockers@[i].call_patterns@.len()
                    ==> (#[trigger] self.fn_mockers@[i].call_patterns@[k]).callable_with(inputs),
            None => true,
        }
    }
}

/// `new` is `prev` after pattern `k` of entry `i` answered one call with `prod`;
/// `bump` tells whether the call took a call-order position.
pub open spec fn answered_by<V, M, C, F, I>(
    prev: SharedState<V, M, C, F>,
    new: SharedState<V, M, C, F>,
    inputs: &I,
    i: int,
    k: int,
    prod: Result<Produced<V>, ProduceError>,
    bump: bool,
) -> bool
    where
        C: Fn() -> Option<V>,
        F: Fn(&I) -> V,
{
    &&& new.fallback_mode == prev.fallback_mode
    &&& new.next_order_slot == prev.next_order_slot
    &&& new.ordered_call_index == prev.ordered_call_index + (if bump {
        1int
    } else {
        0int
    })
    &&& new.fn_mockers@.len() == prev.fn_mockers@.len()
    &&& forall|j: int|
        0 <= j < prev.fn_mockers@.len() && j != i ==> #[trigger] new.fn_mockers@[j]
            == prev.fn_mockers@[j]
    &&& new.fn_mockers@[i].mock_fn == prev.fn_mockers@[i].mock_fn
    &&& new.fn_mockers@[i].pattern_match_mode == prev.fn_mockers@[i].pattern_match_mode
    &&& new.fn_mockers@[i].call_patterns@.len() == prev.fn_mockers@[i].call_patterns@.len()
    &&& forall|q: int|
        0 <= q < prev.fn_mockers@[i].call_patterns@.len() && q != k
            ==> #[trigger] new.fn_mockers@[i].call_patterns@[q]
            == prev.fn_mockers@[i].call_patterns@[q]
    &&& responded(prev.fn_mockers@[i].call_patterns@[k], new.fn_mockers@[i].call_patterns@[k], inputs, prod)
}

/// `new` is `prev` with only the global call-order counter advanced.
pub open spec fn only_bumped<V, M, C, F>(
    prev: SharedState<V, M, C, F>,
    new: SharedState<V, M, C, F>,
) -> bool {
    new == SharedState { ordered_call_index: (prev.ordered_call_index + 1) as usize, ..prev }
}

/// The call answered by pattern `k` of entry `i` with `prod` returned `r`.
pub open spec fn reported<V, I, D>(
    prod: Result<Produced<V>, ProduceError>,
    name: &'static str,
    inputs: &I,
    debug_inputs: D,
    i: int,
    k: int,
    r: Result<Evaluation<V>, MockError>,
) -> bool
    where
        D: Fn(&I) -> String,
{
    exists|s: String| (prod is Err ==> debug_inputs.ensures((inputs,), s)) && r == outcome(prod, name, s, i, k)
}

/// What one call of `mock_fn` with `inputs` does to the instance, `prev` before
/// and `new` after, and what it returns.
pub open spec fn eval_post<V, M, C, F, I, D>(
    prev: SharedState<V, M, C, F>,
    new: SharedState<V, M, C, F>,
    mock_fn: DynMockFn,
    inputs: &I,
    debug_inputs: D,
    r: Result<Evaluation<V>, MockError>,
) -> bool
    where
        M: Fn(&I) -> bool,
        C: Fn() -> Option<V>,
        F: Fn(&I) -> V,
        D: Fn(&I) -> String,
{
    let name = mock_fn.name;
    let unmock = prev.fallback_mode == FallbackMode::Unmock;
    match prev.entry_index(mock_fn.type_id) {
        None => new == prev && r == (if unmock {
            Ok::<Evaluation<V>, MockError>(Evaluation::Skipped)
        } else {
            Err(MockError::NoMockImplementation { name })
        }),
        Some(i) => {
            let ps = prev.fn_mockers@[i].call_patterns@;
            if ps.len() == 0 {
                new == prev && (if unmock {
                    r matches Ok(Evaluation::Skipped)
                } else {
                    exists|s: String|
                        debug_inputs.ensures((inputs,), s) && r == Err::<Evaluation<V>, MockError>(
                            MockError::NoRegisteredCallPatterns { name, inputs_debug: s },
                        )
                })
            } else if prev.fn_mockers@[i].pattern_match_mode == PatternMatchMode::InAnyOrder {
                ||| rejected_before(ps, inputs, ps.len() as int) && new == prev && (if unmock {
                    r matches Ok(Evaluation::Skipped)
                } else {
                    exists|s: String|
                        debug_inputs.ensures((inputs,), s) && r == Err::<Evaluation<V>, MockError>(
                            MockError::NoMatchingCallPatterns { name, inputs_debug: s },
                        )
                })
                ||| exists|k: int|
                    0 <= k < ps.len() && (#[trigger] ps[k]).input_matcher.dyn_matching_fn is None
                        && rejected_before(ps, inputs, k) && new == prev && r == Err::<
                        Evaluation<V>,
                        MockError,
                    >(MockError::NoMatcherFunction { name, pat_index: k as usize })
                ||| exists|k: int, prod: Result<Produced<V>, ProduceError>|
                    any_order_selects(ps, inputs, k) && answered_by(prev, new, inputs, i, k, prod, false)
                        && reported(prod, name, inputs, debug_inputs, i, k, r)
            } else {
                let pos = prev.ordered_call_index as int;
                ||| (forall|j: int| 0 <= j < ps.len() ==> !range_holds(ps, j, pos)) && only_bumped(prev, new)
                    && (r matches Err(
                    MockError::CallOrderNotMatchedForMockFn {
                        name: n,
                        inputs_debug: s,
                        actual_call_order,
                        expected_ranges,
                    },
                ) && n == name && debug_inputs.ensures((inputs,), s) && actual_call_order == CallOrder(
                    pos as usize,
                ) && expected_ranges@ == ranges_of(ps))
                ||| exists|k: int|
                    first_in_range(ps, pos, k) && (#[trigger] ps[k]).input_matcher.dyn_matching_fn is None
                        && only_bumped(prev, new) && r == Err::<Evaluation<V>, MockError>(
                        MockError::NoMatcherFunction { name, pat_index: k as usize },
                    )
                ||| exists|k: int|
                    first_in_range(ps, pos, k) && (#[trigger] ps[k]).rejects(inputs) && only_bumped(prev, new)
                        && (r matches Err(
                        MockError::InputsNotMatchedInCallOrder {
                            name: n,
                            inputs_debug: s,
                            actual_call_order,
                            pat_index,
                        },
                    ) && n == name && debug_inputs.ensures((inputs,), s) && actual_call_order == CallOrder(
                        pos as usize,
                    ) && pat_index == k)
                ||| exists|k: int, prod: Result<Produced<V>, ProduceError>|
                    first_in_range(ps, pos, k) && ps[k].accepts(inputs) && answered_by(
                        prev,
                        new,
                        inputs,
                        i,
                        k,
                        prod,
                        true,
                    ) && reported(prod, name, inputs, debug_inputs, i, k, r)
            }
        },
    }
}

/// The result of a call that pattern `k` of entry `i` answered with `prod`.
fn report<V, I, D>(
    prod: Result<Produced<V>, ProduceError>,
    name: &'static str,
    inputs: &I,
    debug_inputs: &D,
    i: usize,
    k: usize,
) -> (r: Result<Evaluation<V>, MockError>)
    where
        D: Fn(&I) -> String,
    requires
        debug_inputs.requires((inputs,)),
    ensures
        reported(prod, name, inputs, *debug_inputs, i as int, k as int, r),
{
    match prod {
        Ok(Produced::Value(v)) => {
            let r = Ok(Evaluation::Evaluated(v));
            assert(r == outcome(prod, name, arbitrary(), i as int, k as int));
            r
        },
        Ok(Produced::Borrow(j)) => {
            let r = Ok(
                Evaluation::Borrowed(ResponseLocation { fn_index: i, pat_index: k, responder_index: j }),
            );
            assert(r == outcome(prod, name, arbitrary(), i as int, k as int));
            r
        },
        Ok(Produced::Clone(j)) => {
            let r = Ok(
                Evaluation::Cloned(ResponseLocation { fn_index: i, pat_index: k, responder_index: j }),
            );
            assert(r == outcome(prod, name, arbitrary(), i as int, k as int));
            r
        },
        Ok(Produced::Unmock) => {
            let r = Ok(Evaluation::Skipped);
            assert(r == outcome(prod, name, arbitrary(), i as int, k as int));
            r
        },
        Ok(Produced::DefaultImpl) => {
            let r = Ok(Evaluation::CallDefaultImpl);
            assert(r == outcome(prod, name, arbitrary(), i as int, k as int));
            r
        },
        Err(e) => {
            let s = debug_inputs(inputs);
            let ghost s_ghost = s;
            let r = match e {
                ProduceError::NoOutput => Err(
                    MockError::NoOutputAvailableForCallPattern { name, inputs_debug: s, pat_index: k },
                ),
                ProduceError::AlreadyConsumed => Err(
                    MockError::CannotReturnValueMoreThanOnce { name, inputs_debug: s, pat_index: k },
                ),
                ProduceError::Panic(msg) => Err(
                    MockError::ExplicitPanic { name, inputs_debug: s, pat_index: k, msg },
                ),
            };
            assert(r == outcome(prod, name, s_ghost, i as int, k as int));
            r
        },
    }
}

impl<V, M, C, F> SharedState<V, M, C, F> {
    /// Lets pattern `k` of entry `i` answer a call and reports the result.
    fn answer<I, D>(
        &mut self,
        i: usize,
        k: usize,
        name: &'static str,
        inputs: &I,
        debug_inputs: &D,
    ) -> (r: Result<Evaluation<V>, MockError>)
        where
            M: Fn(&I) -> bool,
            C: Fn() -> Option<V>,
            F: Fn(&I) -> V,
            D: Fn(&I) -> String,
        requires
            old(self).wf(),
            i < old(self).fn_mockers@.len(),
            k < old(self).fn_mockers@[i as int].call_patterns@.len(),
            old(self).fn_mockers@[i as int].call_patterns@[k as int].callable_with(inputs),
            debug_inputs.requires((inputs,)),
        ensures
            final(self).wf(),
            exists|prod: Result<Produced<V>, ProduceError>|
                answered_by(*old(self), *final(self), inputs, i as int, k as int, prod, false)
                    && reported(prod, name, inputs, *debug_inputs, i as int, k as int, r),
    {
        let ghost prev = *self;
        assert(self.fn_mockers@[i as int].call_patterns@[k as int].wf());
        let prod = self.fn_mockers[i].call_patterns[k].respond(inputs);
        let ghost new = *self;
        assert forall|a: int, b: int|
            0 <= a < new.fn_mockers@.len() && 0 <= b < new.fn_mockers@.len()
                && #[trigger] new.fn_mockers@[a].mock_fn.type_id
                == #[trigger] new.fn_mockers@[b].mock_fn.type_id implies a == b by {
            assert(prev.fn_mockers@[a].mock_fn.type_id == prev.fn_mockers@[b].mock_fn.type_id);
        }
        assert forall|a: int, q: int|
            0 <= a < new.fn_mockers@.len() && 0 <= q < new.fn_mockers@[a].call_patterns@.len()
                implies (#[trigger] new.fn_mockers@[a].call_patterns@[q]).wf() by {
            if a != i || q != k {
                assert(prev.fn_mockers@[a].call_patterns@[q].wf());
            }
        }
        let r = report(prod, name, inputs, debug_inputs, i, k);
        r
    }

    /// Evaluates one call of `mock_fn` with `inputs`: locates the function's
    /// patterns, selects a pattern by the function's match mode, counts the
    /// call on it and lets the responder that answers the call's index produce
    /// the outcome. `debug_inputs` renders the inputs for errors.
    pub fn eval<I, D>(&mut self, mock_fn: DynMockFn, inputs: &I, debug_inputs: &D) -> (r: Result<
        Evaluation<V>,
        MockError,
    >)
        where
            M: Fn(&I) -> bool,
            C: Fn() -> Option<V>,
            F: Fn(&I) -> V,
            D: Fn(&I) -> String,
        requires
            old(self).wf(),
            old(self).ready_for(mock_fn.type_id, inputs),
            debug_inputs.requires((inputs,)),
        ensures
            final(self).wf(),
            eval_post(*old(self), *final(self), mock_fn, inputs, *debug_inputs, r),
    {
        let name = mock_fn.name;
        let i = match self.lookup(mock_fn.type_id) {
            Some(i) => i,
            None => {
                return match self.fallback_mode {
                    FallbackMode::Error => Err(MockError::NoMockImplementation { name }),
                    FallbackMode::Unmock => Ok(Evaluation::Skipped),
                };
            },
        };
        let ghost ps = self.fn_mockers@[i as int].call_patterns@;
        if self.fn_mockers[i].call_patterns.len() == 0 {
            return match self.fallback_mode {
                FallbackMode::Error => Err(
                    MockError::NoRegisteredCallPatterns { name, inputs_debug: debug_inputs(inputs) },
                ),
                FallbackMode::Unmock => Ok(Evaluation::Skipped),
            };
        }
        match self.fn_mockers[i].pattern_match_mode {
            PatternMatchMode::InAnyOrder => {
                assert forall|k: int| 0 <= k < ps.len() implies (#[trigger] ps[k]).matcher_callable(
                    inputs,
                ) by {
                    assert(ps[k].callable_with(inputs));
                }
                match self.fn_mockers[i].match_any_order(inputs) {
                    Err(k) => {
                        assert(ps[k as int].input_matcher.dyn_matching_fn is None);
                        Err(MockError::NoMatcherFunction { name, pat_index: k })
                    },
                    Ok(None) => match self.fallback_mode {
                        FallbackMode::Error => Err(
                            MockError::NoMatchingCallPatterns { name, inputs_debug: debug_inputs(inputs) },
                        ),
                        FallbackMode::Unmock => Ok(Evaluation::Skipped),
                    },
                    Ok(Some(k)) => {
                        assert(ps[k as int].callable_with(inputs));
                        self.answer(i, k, name, inputs, debug_inputs)
                    },
                }
            },
            PatternMatchMode::InOrder => {
                let pos = self.bump_ordered_call_index();
                match self.fn_mockers[i].find_call_pattern_for_call_order(pos) {
                    None => Err(
                        MockError::CallOrderNotMatchedForMockFn {
                            name,
                            inputs_debug: debug_inputs(inputs),
                            actual_call_order: CallOrder(pos),
                            expected_ranges: self.fn_mockers[i].expected_ranges(),
                        },
                    ),
                    Some(k) => {
                        assert(ps[k as int].callable_with(inputs));
                        match self.fn_mockers[i].call_patterns[k].match_inputs(inputs) {
                            Err(_) => Err(MockError::NoMatcherFunction { name, pat_index: k }),
                            Ok(false) => Err(
                                MockError::InputsNotMatchedInCallOrder {
                                    name,
                                    inputs_debug: debug_inputs(inputs),
                                    actual_call_order: CallOrder(pos),
                                    pat_index: k,
                                },
                            ),
                            Ok(true) => {
                                let r = self.answer(i, k, name, inputs, debug_inputs);
                                r
                            },
                        }
                    },
                }
            },
        }
    }

    /// The responder at `loc`, if there is one.
    pub open spec fn responder_at(&self, loc: ResponseLocation) -> Option<DynResponder<V, C, F>> {
        if loc.fn_index < self.fn_mockers@.len() && loc.pat_index
            < self.fn_mockers@[loc.fn_index as int].call_patterns@.len() && loc.responder_index
            < self.fn_mockers@[loc.fn_index as int].call_patterns@[loc.pat_index as int].responders@.len() {
            Some(
                self.fn_mockers@[loc.fn_index as int].call_patterns@[loc.pat_index as int].responders@[loc.responder_index as int].responder,
            )
        } else {
            None
        }
    }

    /// A clone of the value a repeatable responder at `loc` holds; `None` when
    /// no repeatable responder stands there.
    pub fn cloned_value(&self, loc: ResponseLocation) -> (r: Option<V>)
        where
            V: Clone,
        ensures
            r matches Some(v) ==> (self.responder_at(loc) matches Some(
                DynResponder::Cell(CellResponder { cell: ResponseCell::Clone(w) }),
            ) && cloned(w, v)),
            r is None ==> !(self.responder_at(loc) matches Some(
                DynResponder::Cell(CellResponder { cell: ResponseCell::Clone(_) }),
            )),
    {
        if loc.fn_index >= self.fn_mockers.len() {
            return None;
        }
        let fm = &self.fn_mockers[loc.fn_index];
        if loc.pat_index >= fm.call_patterns.len() {
            return None;
        }
        let pattern = &fm.call_patterns[loc.pat_index];
        if loc.responder_index >= pattern.responders.len() {
            return None;
        }
        match &pattern.responders[loc.responder_index].responder {
            DynResponder::Cell(CellResponder { cell: ResponseCell::Clone(v) }) => Some(v.clone()),
            _ => None,
        }
    }

    /// The value a borrowable responder at `loc` lends out; `None` when no
    /// borrowable responder stands there.
    pub fn borrowed_value(&self, loc: ResponseLocation) -> (r: Option<&V>)
        ensures
            r matches Some(v) ==> self.responder_at(loc) == Some(
                DynResponder::<V, C, F>::Borrow(BorrowResponder { borrowable: *v }),
            ),
            r is None ==> !(self.responder_at(loc) matches Some(DynResponder::Borrow(_))),
    {
        if loc.fn_index >= self.fn_mockers.len() {
            return None;
        }
        let fm = &self.fn_mockers[loc.fn_index];
        if loc.pat_index >= fm.call_patterns.len() {
            return None;
        }
        let pattern = &fm.call_patterns[loc.pat_index];
        if loc.responder_index >= pattern.responders.len() {
            return None;
        }
        match &pattern.responders[loc.responder_index].responder {
            DynResponder::Borrow(b) => Some(&b.borrowable),
            _ => None,
        }
    }
}

/// A value handed out once is exhausted by the first call: a pattern whose only
/// responder is such a value answers its first call with the value and its
/// second call with the error that the value was already consumed.
pub proof fn lemma_owned_once_exhaustion<V, M, C, F, I>(
    fresh: CallPattern<V, M, C, F>,
    after_one: CallPattern<V, M, C, F>,
    after_two: CallPattern<V, M, C, F>,
    inputs: &I,
    v: V,
    r1: Result<Produced<V>, ProduceError>,
    r2: Result<Produced<V>, ProduceError>,
)
    where
        C: Fn() -> Option<V>,
        F: Fn(&I) -> V,
    requires
        fresh.responders@ == seq![
            DynCallOrderResponder {
                response_index: 0,
                responder: DynResponder::<V, C, F>::Cell(
                    CellResponder { cell: ResponseCell::Once(Some(v)) },
                ),
            },
        ],
        fresh.call_counter.actual_count == 0,
        responded(fresh, after_one, inputs, r1),
        responded(after_one, after_two, inputs, r2),
    ensures
        r1 == Ok::<Produced<V>, ProduceError>(Produced::Value(v)),
        r2 matches Err(ProduceError::AlreadyConsumed),
{
    let rs0 = fresh.responders@;
    assert(selects_responder(rs0, 0, 0));
    lemma_selects_unique(rs0, 0, 0, selected_responder(rs0, 0));
    assert(!no_responder_for(rs0, 0));
    let rs1 = after_one.responders@;
    assert(rs1.len() == 1);
    assert(selects_responder(rs1, 1, 0));
    lemma_selects_unique(rs1, 1, 0, selected_responder(rs1, 1));
    assert(!no_responder_for(rs1, 1));
}

/// The pattern has a matcher, and it accepts `inputs` whatever it is asked.
pub open spec fn surely_accepts<V, M, C, F, I>(p: CallPattern<V, M, C, F>, inputs: &I) -> bool
    where
        M: Fn(&I) -> bool,
{
    p.input_matcher.dyn_matching_fn matches Some(m) && forall|b: bool| #[trigger] m.ensures((inputs,), b) ==> b
}

/// The pattern has a matcher, and it rejects `inputs` whatever it is asked.
pub open spec fn surely_rejects<V, M, C, F, I>(p: CallPattern<V, M, C, F>, inputs: &I) -> bool
    where
        M: Fn(&I) -> bool,
{
    p.input_matcher.dyn_matching_fn matches Some(m) && forall|b: bool| #[trigger] m.ensures((inputs,), b) ==> !b
}

/// Unordered matching takes the first accepting pattern: when pattern `a`
/// accepts the inputs and every pattern before it rejects them, the call is
/// answered by `a`, whatever later patterns would say.
pub proof fn lemma_unordered_first_match<V, M, C, F, I, D>(
    prev: SharedState<V, M, C, F>,
    new: SharedState<V, M, C, F>,
    mock_fn: DynMockFn,
    inputs: &I,
    debug_inputs: D,
    r: Result<Evaluation<V>, MockError>,
    i: int,
    a: int,
)
    where
        M: Fn(&I) -> bool,
        C: Fn() -> Option<V>,
        F: Fn(&I) -> V,
        D: Fn(&I) -> String,
    requires
        eval_post(prev, new, mock_fn, inputs, debug_inputs, r),
        prev.entry_index(mock_fn.type_id) == Some(i),
        prev.fn_mockers@[i].pattern_match_mode == PatternMatchMode::InAnyOrder,
        0 <= a < prev.fn_mockers@[i].call_patterns@.len(),
        surely_accepts(prev.fn_mockers@[i].call_patterns@[a], inputs),
        forall|j: int| 0 <= j < a ==> surely_rejects(#[trigger] prev.fn_mockers@[i].call_patterns@[j], inputs),
    ensures
        exists|prod: Result<Produced<V>, ProduceError>|
            answered_by(prev, new, inputs, i, a, prod, false) && reported(
                prod,
                mock_fn.name,
                inputs,
                debug_inputs,
                i,
                a,
                r,
            ),
{
    let ps = prev.fn_mockers@[i].call_patterns@;
    assert(!ps[a].rejects(inputs));
    if rejected_before(ps, inputs, ps.len() as int) {
        assert(ps[a].rejects(inputs));
    }
    if exists|k: int|
        0 <= k < ps.len() && (#[trigger] ps[k]).input_matcher.dyn_matching_fn is None && rejected_before(
            ps,
            inputs,
            k,
        ) {
        let k = choose|k: int|
            0 <= k < ps.len() && (#[trigger] ps[k]).input_matcher.dyn_matching_fn is None
                && rejected_before(ps, inputs, k);
        if k > a {
            assert(ps[a].rejects(inputs));
        } else if k < a {
            assert(surely_rejects(ps[k], inputs));
        }
    }
    let (k, prod) = choose|k: int, prod: Result<Produced<V>, ProduceError>|
        any_order_selects(ps, inputs, k) && answered_by(prev, new, inputs, i, k, prod, false)
            && reported(prod, mock_fn.name, inputs, debug_inputs, i, k, r);
    if k > a {
        assert(ps[a].rejects(inputs));
    } else if k < a {
        assert(surely_rejects(ps[k], inputs));
        assert(ps[k].accepts(inputs));
    }
}

/// Strict order: a call takes the next call-order position `pos`. If none of
/// the function's patterns covers `pos`, the call fails with the order
/// mismatch; if the first pattern `k` covering it rejects the inputs, it fails
/// with the input mismatch for `k`; if that pattern accepts them, `k` answers.
pub proof fn lemma_strict_order<V, M, C, F, I, D>(
    prev: SharedState<V, M, C, F>,
    new: SharedState<V, M, C, F>,
    mock_fn: DynMockFn,
    inputs: &I,
    debug_inputs: D,
    r: Result<Evaluation<V>, MockError>,
    i: int,
    k: int,
)
    where
        M: Fn(&I) -> bool,
        C: Fn() -> Option<V>,
        F: Fn(&I) -> V,
        D: Fn(&I) -> String,
    requires
        eval_post(prev, new, mock_fn, inputs, debug_inputs, r),
        prev.entry_index(mock_fn.type_id) == Some(i),
        prev.fn_mockers@[i].pattern_match_mode == PatternMatchMode::InOrder,
        prev.fn_mockers@[i].call_patterns@.len() > 0,
    ensures
        ({
            let ps = prev.fn_mockers@[i].call_patterns@;
            let pos = prev.ordered_call_index as int;
            &&& (forall|j: int| 0 <= j < ps.len() ==> !range_holds(ps, j, pos)) ==> (r matches Err(
                MockError::CallOrderNotMatchedForMockFn { actual_call_order, .. },
            ) && actual_call_order == CallOrder(pos as usize))
            &&& first_in_range(ps, pos, k) && surely_rejects(ps[k], inputs) ==> (r matches Err(
                MockError::InputsNotMatchedInCallOrder { actual_call_order, pat_index, .. },
            ) && actual_call_order == CallOrder(pos as usize) && pat_index == k)
            &&& first_in_range(ps, pos, k) && surely_accepts(ps[k], inputs) ==> exists|
                prod: Result<Produced<V>, ProduceError>,
            |
                answered_by(prev, new, inputs, i, k, prod, true) && reported(
                    prod,
                    mock_fn.name,
                    inputs,
                    debug_inputs,
                    i,
                    k,
                    r,
                )
        }),
{
    let ps = prev.fn_mockers@[i].call_patterns@;
    let pos = prev.ordered_call_index as int;
    if first_in_range(ps, pos, k) {
        if exists|q: int|
            first_in_range(ps, pos, q) && (#[trigger] ps[q]).input_matcher.dyn_matching_fn is None {
            let q = choose|q: int|
                first_in_range(ps, pos, q) && (#[trigger] ps[q]).input_matcher.dyn_matching_fn is None;
            assert(q == k) by {
                if q < k {
                    assert(!range_holds(ps, q, pos));
                } else if k < q {
                    assert(!range_holds(ps, k, pos));
                }
            }
        }
        if exists|q: int| first_in_range(ps, pos, q) && (#[trigger] ps[q]).rejects(inputs) {
            let q = choose|q: int| first_in_range(ps, pos, q) && (#[trigger] ps[q]).rejects(inputs);
            assert(q == k) by {
                if q < k {
                    assert(!range_holds(ps, q, pos));
                } else if k < q {
                    assert(!range_holds(ps, k, pos));
                }
            }
        }
        if exists|q: int, prod: Result<Produced<V>, ProduceError>|
            first_in_range(ps, pos, q) && ps[q].accepts(inputs) && answered_by(
                prev,
                new,
                inputs,
                i,
                q,
                prod,
                true,
            ) && reported(prod, mock_fn.name, inputs, debug_inputs, i, q, r) {
            let (q, prod) = choose|q: int, prod: Result<Produced<V>, ProduceError>|
                first_in_range(ps, pos, q) && ps[q].accepts(inputs) && answered_by(
                    prev,
                    new,
                    inputs,
                    i,
                    q,
                    prod,
                    true,
                ) && reported(prod, mock_fn.name, inputs, debug_inputs, i, q, r);
            assert(q == k) by {
                if q < k {
                    assert(!range_holds(ps, q, pos));
                } else if k < q {
                    assert(!range_holds(ps, k, pos));
                }
            }
        }
        assert(range_holds(ps, k, pos));
    }
}

} // verus!
