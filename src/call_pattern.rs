//! Call patterns: an input matcher, a sequence of responders keyed by the call
//! index from which each takes over, and a call counter with its expectation.
use vstd::prelude::*;
use crate::counter::CallCounter;
use crate::output::ResponderError;

verus! {

/// Failures of the type-consistency checks made while evaluating a pattern.
#[derive(Clone, Copy, Debug, PartialEq, Eq, Structural)]
pub enum PatternError {
    Downcast,
    NoMatcherFunction,
}

pub type PatternResult<T> = Result<T, PatternError>;

/// Where a matcher was declared, for diagnostics.
#[derive(Debug)]
pub struct InputMatcherDebug {
    pub location: String,
    pub pat_debug: String,
}

/// How a call pattern is named in diagnostics.
#[derive(Debug)]
pub enum CallPatternLocation {
    Debug(InputMatcherDebug),
    PatIndex(usize),
}

/// The predicate a pattern applies to the inputs of a call, with its debug data.
pub struct DynInputMatcher<M> {
    pub dyn_matching_fn: Option<M>,
    pub matcher_debug: Option<InputMatcherDebug>,
}

impl<M> DynInputMatcher<M> {
    /// A matcher made of a matching function (if one was configured) and its
    /// debug data.
    pub fn from_matching_fn(
        matching_fn: Option<M>,
        matcher_debug: Option<InputMatcherDebug>,
    ) -> (r: Self)
        ensures
            r.dyn_matching_fn == matching_fn,
            r.matcher_debug == matcher_debug,
    {
        DynInputMatcher { dyn_matching_fn: matching_fn, matcher_debug }
    }
}

/// The storage behind an owned response.
pub enum ResponseCell<V, C> {
    /// One value, handed out once; `None` once it has been taken.
    Once(Option<V>),
    /// A value handed out as a fresh clone on every call.
    Clone(V),
    /// A function producing a fresh value on every call.
    Factory(C),
}

/// A responder producing owned values.
pub struct CellResponder<V, C> {
    pub cell: ResponseCell<V, C>,
}

/// A responder lending out a stored value for the lifetime of the pattern.
pub struct BorrowResponder<V> {
    pub borrowable: V,
}

/// A responder computing its value from the inputs of each call.
pub struct FunctionResponder<F> {
    pub func: F,
}

/// How a matched call is answered.
pub enum DynResponder<V, C, F> {
    Cell(CellResponder<V, C>),
    Borrow(BorrowResponder<V>),
    Function(FunctionResponder<F>),
    /// Answering fails with this message.
    Panic(String),
    /// The call is handed over to the real implementation.
    Unmock,
    /// The call is handed over to the interface's default implementation.
    CallDefaultImpl,
}

impl<V, C, F> DynResponder<V, C, F> {
    /// An owned-once responder: `response` is handed out by the first call only.
    pub fn new_cell(response: V) -> (r: Result<Self, ResponderError>)
        ensures
            r == Ok::<Self, ResponderError>(
                DynResponder::Cell(CellResponder { cell: ResponseCell::Once(Some(response)) }),
            ),
    {
        Ok(CellResponder { cell: ResponseCell::Once(Some(response)) }.into_dyn_responder())
    }

    /// A repeatable responder: every call gets a clone of `response`.
    pub fn new_clone_cell(response: V) -> (r: Self)
        ensures
            r == DynResponder::<V, C, F>::Cell(
                CellResponder { cell: ResponseCell::Clone(response) },
            ),
    {
        CellResponder { cell: ResponseCell::Clone(response) }.into_dyn_responder()
    }

    /// A repeatable responder: every call gets what `clone_fn` produces.
    pub fn new_clone_factory_cell(clone_fn: C) -> (r: Self)
        ensures
            r == DynResponder::<V, C, F>::Cell(
                CellResponder { cell: ResponseCell::Factory(clone_fn) },
            ),
    {
        CellResponder { cell: ResponseCell::Factory(clone_fn) }.into_dyn_responder()
    }

    /// A borrowable responder: every call gets a reference to `response`.
    pub fn new_borrow(response: V) -> (r: Self)
        ensures
            r == DynResponder::<V, C, F>::Borrow(BorrowResponder { borrowable: response }),
    {
        BorrowResponder { borrowable: response }.into_dyn_responder()
    }
}

impl<V, C> CellResponder<V, C> {
    pub fn into_dyn_responder<F>(self) -> (r: DynResponder<V, C, F>)
        ensures
            r == DynResponder::<V, C, F>::Cell(self),
    {
        DynResponder::Cell(self)
    }
}

impl<V> BorrowResponder<V> {
    pub fn into_dyn_responder<C, F>(self) -> (r: DynResponder<V, C, F>)
        ensures
            r == DynResponder::<V, C, F>::Borrow(self),
    {
        DynResponder::Borrow(self)
    }
}

impl<F> FunctionResponder<F> {
    pub fn into_dyn_responder<V, C>(self) -> (r: DynResponder<V, C, F>)
        ensures
            r == DynResponder::<V, C, F>::Function(self),
    {
        DynResponder::Function(self)
    }
}

/// A responder together with the first call index it answers.
pub struct DynCallOrderResponder<V, C, F> {
    pub response_index: usize,
    pub responder: DynResponder<V, C, F>,
}

/// Response indices never decrease along the sequence.
pub open spec fn responders_sorted<V, C, F>(rs: Seq<DynCallOrderResponder<V, C, F>>) -> bool {
    forall|a: int, b: int|
        0 <= a <= b < rs.len() ==> #[trigger] rs[a].response_index <= #[trigger] rs[b].response_index
}

/// `j` is the responder that answers call index `c`: the last one whose response
/// index is at most `c`.
pub open spec fn selects_responder<V, C, F>(
    rs: Seq<DynCallOrderResponder<V, C, F>>,
    c: int,
    j: int,
) -> bool {
    &&& 0 <= j < rs.len()
    &&& rs[j].response_index <= c
    &&& forall|k: int| j < k < rs.len() ==> c < #[trigger] rs[k].response_index
}

/// No responder answers call index `c`: every one starts after it.
pub open spec fn no_responder_for<V, C, F>(rs: Seq<DynCallOrderResponder<V, C, F>>, c: int) -> bool {
    forall|k: int| 0 <= k < rs.len() ==> c < #[trigger] rs[k].response_index
}

/// Response selection is monotonic: over sorted response indices, call index
/// `c` is answered by responder `j` exactly when `j` starts at or before `c` and
/// the next responder, if any, starts after `c`; and no responder answers `c`
/// exactly when there are none or the first starts after `c`.
pub proof fn lemma_monotonic_response_selection<V, C, F>(
    rs: Seq<DynCallOrderResponder<V, C, F>>,
    c: int,
    j: int,
)
    requires
        responders_sorted(rs),
    ensures
        no_responder_for(rs, c) <==> (rs.len() == 0 || c < rs[0].response_index),
        0 <= j < rs.len() ==> (selects_responder(rs, c, j) <==> (rs[j].response_index <= c && (j + 1
            == rs.len() || c < rs[j + 1].response_index))),
{
    if rs.len() > 0 && c < rs[0].response_index {
        assert forall|k: int| 0 <= k < rs.len() implies c < #[trigger] rs[k].response_index by {
            assert(rs[0].response_index <= rs[k].response_index);
        }
    }
    if 0 <= j < rs.len() && rs[j].response_index <= c && (j + 1 == rs.len() || c
        < rs[j + 1].response_index) {
        assert forall|k: int| j < k < rs.len() implies c < #[trigger] rs[k].response_index by {
            assert(rs[j + 1].response_index <= rs[k].response_index);
        }
    }
}

/// The position of the responder that answers `call_index`, found by binary search.
pub fn find_responder_index<V, C, F>(
    responders: &[DynCallOrderResponder<V, C, F>],
    call_index: usize,
) -> (r: Option<usize>)
    requires
        responders_sorted(responders@),
    ensures
        r matches Some(j) ==> selects_responder(responders@, call_index as int, j as int),
        r is None <==> no_responder_for(responders@, call_index as int),
{
    let mut lo: usize = 0;
    let mut hi: usize = responders.len();
    while lo < hi
        invariant
            lo <= hi <= responders@.len(),
            responders_sorted(responders@),
            forall|k: int| 0 <= k < lo ==> #[trigger] responders@[k].response_index <= call_index,
            forall|k: int|
                hi <= k < responders@.len() ==> call_index < #[trigger] responders@[k].response_index,
        decreases hi - lo,
    {
        let mid = lo + (hi - lo) / 2;
        if responders[mid].response_index <= call_index {
            assert forall|k: int| 0 <= k < mid + 1 implies #[trigger] responders@[k].response_index
                <= call_index by {
                assert(responders@[k].response_index <= responders@[mid as int].response_index);
            }
            lo = mid + 1;
        } else {
            assert forall|k: int| mid <= k < responders@.len() implies call_index
                < #[trigger] responders@[k].response_index by {
                assert(responders@[mid as int].response_index <= responders@[k].response_index);
            }
            hi = mid;
        }
    }
    if lo == 0 {
        None
    } else {
        assert(responders@[lo - 1].response_index <= call_index);
        Some(lo - 1)
    }
}

/// The responder that answers `call_index`, if any.
pub fn find_responder_by_call_index<V, C, F>(
    responders: &[DynCallOrderResponder<V, C, F>],
    call_index: usize,
) -> (r: Option<&DynResponder<V, C, F>>)
    requires
        responders_sorted(responders@),
    ensures
        r is None <==> no_responder_for(responders@, call_index as int),
        r matches Some(x) ==> exists|j: int|
            selects_responder(responders@, call_index as int, j) && *x == responders@[j].responder,
{
    match find_responder_index(responders, call_index) {
        Some(j) => Some(&responders[j].responder),
        None => None,
    }
}

/// One registered expectation for a function.
pub struct CallPattern<V, M, C, F> {
    pub input_matcher: DynInputMatcher<M>,
    pub responders: Vec<DynCallOrderResponder<V, C, F>>,
    pub ordered_call_index_range: core::ops::Range<usize>,
    pub call_counter: CallCounter,
}

impl<V, M, C, F> CallPattern<V, M, C, F> {
    pub open spec fn wf(&self) -> bool {
        responders_sorted(self.responders@)
    }

    /// How this pattern, registered at `pat_index`, is named in diagnostics: by
    /// its matcher's debug data where it has some, else by its index.
    pub open spec fn location(&self, pat_index: usize) -> CallPatternLocation {
        match self.input_matcher.matcher_debug {
            Some(d) => CallPatternLocation::Debug(d),
            None => CallPatternLocation::PatIndex(pat_index),
        }
    }

    /// Applies the matcher to `inputs`.
    pub fn match_inputs<I>(&self, inputs: &I) -> (r: PatternResult<bool>)
        where
            M: Fn(&I) -> bool,
        requires
            self.input_matcher.dyn_matching_fn matches Some(m) ==> m.requires((inputs,)),
        ensures
            self.input_matcher.dyn_matching_fn is None ==> r == Err::<bool, PatternError>(
                PatternError::NoMatcherFunction,
            ),
            self.input_matcher.dyn_matching_fn matches Some(m) ==> (r matches Ok(b) && m.ensures(
                (inputs,),
                b,
            )),
    {
        match &self.input_matcher.dyn_matching_fn {
            Some(m) => Ok(m(inputs)),
            None => Err(PatternError::NoMatcherFunction),
        }
    }

    /// How this pattern, registered at `pat_index`, is named in diagnostics.
    pub fn debug_location(&self, pat_index: usize) -> (r: CallPatternLocation)
        ensures
            r == self.location(pat_index),
    {
        match &self.input_matcher.matcher_debug {
            Some(debug) => CallPatternLocation::Debug(
                InputMatcherDebug {
                    location: debug.location.clone(),
                    pat_debug: debug.pat_debug.clone(),
                },
            ),
            None => CallPatternLocation::PatIndex(pat_index),
        }
    }

    /// Counts one more call and returns the position of the responder that
    /// answers it.
    pub fn next_responder(&mut self) -> (r: Option<usize>)
        requires
            old(self).wf(),
            old(self).call_counter.actual_count < usize::MAX,
        ensures
            final(self).wf(),
            final(self).input_matcher == old(self).input_matcher,
            final(self).responders == old(self).responders,
            final(self).ordered_call_index_range == old(self).ordered_call_index_range,
            final(self).call_counter.expectation == old(self).call_counter.expectation,
            final(self).call_counter.actual_count == old(self).call_counter.actual_count + 1,
            r matches Some(j) ==> selects_responder(
                old(self).responders@,
                old(self).call_counter.actual_count as int,
                j as int,
            ),
            r is None <==> no_responder_for(
                old(self).responders@,
                old(self).call_counter.actual_count as int,
            ),
    {
        let call_index = self.call_counter.fetch_add();
        find_responder_index(self.responders.as_slice(), call_index)
    }
}

} // verus!
