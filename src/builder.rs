//! Fluent construction of a call pattern: responders are pushed at the current
//! response index, and each quantification step moves that index on by the
//! number of calls it expects while accumulating the pattern's expectation.
use vstd::prelude::*;
use crate::call_pattern::{
    responders_sorted, CallPattern, CellResponder, DynCallOrderResponder, DynInputMatcher,
    DynResponder, FunctionResponder, ResponseCell, BorrowResponder,
};
use crate::counter::{CallCountExpectation, CallCounter, Exactness};
use crate::fn_mocker::PatternMatchMode;

verus! {

/// Misuse of the builder that is detected when it happens.
#[derive(Clone, Copy, Debug, PartialEq, Eq, Structural)]
pub enum BuildError {
    /// A value that is handed out once was followed, at the same response index,
    /// by another response before any quantification.
    OnceValueRequestedMoreThanOnce,
}

/// The responder is a value that can be handed out only once.
pub open spec fn is_once_cell<V, C, F>(r: DynResponder<V, C, F>) -> bool {
    r matches DynResponder::Cell(CellResponder { cell: ResponseCell::Once(_) })
}

/// A call pattern under construction.
pub struct DynCallPatternBuilder<V, M, C, F> {
    pub pattern_match_mode: PatternMatchMode,
    pub input_matcher: DynInputMatcher<M>,
    pub responders: Vec<DynCallOrderResponder<V, C, F>>,
    pub count_expectation: CallCountExpectation,
    pub current_response_index: usize,
    /// The last responder was pushed and not yet quantified.
    pub awaiting_quantify: bool,
    /// The last quantification step was exact, so a next stage may be opened.
    pub last_stage_exact: bool,
}

impl<V, M, C, F> DynCallPatternBuilder<V, M, C, F> {
    pub open spec fn wf(&self) -> bool {
        &&& responders_sorted(self.responders@)
        &&& forall|k: int|
            0 <= k < self.responders@.len() ==> #[trigger] self.responders@[k].response_index
                <= self.current_response_index
        &&& self.current_response_index == self.count_expectation.minimum
        &&& self.awaiting_quantify ==> self.responders@.len() > 0
            && self.responders@.last().response_index == self.current_response_index
        &&& self.last_stage_exact ==> !self.awaiting_quantify
    }

    /// The last responder is an unquantified value that can be handed out once.
    pub open spec fn pending_once(&self) -> bool {
        self.awaiting_quantify && is_once_cell(self.responders@.last().responder)
    }

    /// `self` is `prev` with `responder` appended at the current response index.
    pub open spec fn pushed_from(&self, prev: &Self, responder: DynResponder<V, C, F>) -> bool {
        &&& self.responders@ == prev.responders@.push(
            DynCallOrderResponder { response_index: prev.current_response_index, responder },
        )
        &&& self.pattern_match_mode == prev.pattern_match_mode
        &&& self.input_matcher == prev.input_matcher
        &&& self.count_expectation == prev.count_expectation
        &&& self.current_response_index == prev.current_response_index
        &&& self.awaiting_quantify
        &&& !self.last_stage_exact
    }

    /// `self` is `prev` after a quantification step of `times` calls of class `e`.
    pub open spec fn quantified_from(&self, prev: &Self, times: nat, e: Exactness) -> bool {
        &&& self.responders@ == prev.responders@
        &&& self.pattern_match_mode == prev.pattern_match_mode
        &&& self.input_matcher == prev.input_matcher
        &&& self.count_expectation == prev.count_expectation.accumulated(times, e)
        &&& self.current_response_index == prev.current_response_index + times
        &&& !self.awaiting_quantify
        &&& self.last_stage_exact == (e == Exactness::Exact)
    }

    /// A builder with no responders and an expectation that nothing has been
    /// accumulated onto.
    pub fn new(pattern_match_mode: PatternMatchMode, input_matcher: DynInputMatcher<M>) -> (r: Self)
        ensures
            r.wf(),
            r.pattern_match_mode == pattern_match_mode,
            r.input_matcher == input_matcher,
            r.responders@.len() == 0,
            r.count_expectation == CallCountExpectation::unquantified(),
            r.current_response_index == 0,
            !r.awaiting_quantify,
            !r.last_stage_exact,
    {
        DynCallPatternBuilder {
            pattern_match_mode,
            input_matcher,
            responders: Vec::new(),
            count_expectation: CallCountExpectation::new(),
            current_response_index: 0,
            awaiting_quantify: false,
            last_stage_exact: false,
        }
    }

    /// Appends `responder` at the current response index. Fails, leaving the
    /// builder unchanged, when the last responder is an unquantified value that
    /// can be handed out only once.
    pub fn push_responder(&mut self, responder: DynResponder<V, C, F>) -> (r: Result<(), BuildError>)
        requires
            old(self).wf(),
        ensures
            final(self).wf(),
            old(self).pending_once() ==> r == Err::<(), BuildError>(
                BuildError::OnceValueRequestedMoreThanOnce,
            ) && *final(self) == *old(self),
            !old(self).pending_once() ==> r is Ok && final(self).pushed_from(old(self), responder),
    {
        let n = self.responders.len();
        if self.awaiting_quantify {
            if let DynResponder::Cell(CellResponder { cell: ResponseCell::Once(_) }) =
                &self.responders[n - 1].responder
            {
                return Err(BuildError::OnceValueRequestedMoreThanOnce);
            }
        }
        let ghost prev = self.responders@;
        self.responders.push(
            DynCallOrderResponder { response_index: self.current_response_index, responder },
        );
        self.awaiting_quantify = true;
        self.last_stage_exact = false;
        assert(self.responders@ =~= prev.push(self.responders@.last()));
        assert forall|a: int, b: int|
            0 <= a <= b < self.responders@.len() implies #[trigger] self.responders@[a].response_index
            <= #[trigger] self.responders@[b].response_index by {
            if b == prev.len() {
                if a < prev.len() {
                    assert(prev[a].response_index <= self.current_response_index);
                }
            } else {
                assert(prev[a].response_index <= prev[b].response_index);
            }
        }
        assert forall|k: int| 0 <= k < self.responders@.len() implies #[trigger] self.responders@[k].response_index
                <= self.current_response_index by {
            if k < prev.len() {
                assert(prev[k].response_index <= self.current_response_index);
            }
        }
        Ok(())
    }

    /// Expects the last responder to answer `times` calls of class `exactness`,
    /// and moves the response index past them.
    pub fn quantify(&mut self, times: usize, exactness: Exactness)
        requires
            old(self).wf(),
            old(self).awaiting_quantify,
            old(self).count_expectation.minimum + times <= usize::MAX,
        ensures
            final(self).wf(),
            final(self).quantified_from(old(self), times as nat, exactness),
    {
        self.count_expectation.add_to_minimum(times, exactness);
        self.current_response_index = self.current_response_index + times;
        self.awaiting_quantify = false;
        self.last_stage_exact = match exactness {
            Exactness::Exact => true,
            _ => false,
        };
    }

    /// The finished pattern. A last responder left unquantified is expected to
    /// answer exactly one call when it is a value that can be handed out once, or
    /// when the pattern is matched by call order.
    pub fn finish(self) -> (r: CallPattern<V, M, C, F>)
        requires
            self.wf(),
            self.count_expectation.minimum < usize::MAX,
        ensures
            r.wf(),
            r.input_matcher == self.input_matcher,
            r.responders@ == self.responders@,
            r.call_counter.actual_count == 0,
            r.call_counter.expectation == (if self.awaiting_quantify && (self.pending_once()
                || self.pattern_match_mode == PatternMatchMode::InOrder) {
                self.count_expectation.accumulated(1, Exactness::Exact)
            } else {
                self.count_expectation
            }),
            r.ordered_call_index_range.start == 0,
            r.ordered_call_index_range.end == 0,
    {
        let mut this = self;
        if this.awaiting_quantify {
            let n = this.responders.len();
            let once = match &this.responders[n - 1].responder {
                DynResponder::Cell(CellResponder { cell: ResponseCell::Once(_) }) => true,
                _ => false,
            };
            let in_order = match this.pattern_match_mode {
                PatternMatchMode::InOrder => true,
                PatternMatchMode::InAnyOrder => false,
            };
            if once || in_order {
                this.quantify(1, Exactness::Exact);
            }
        }
        CallPattern {
            input_matcher: this.input_matcher,
            responders: this.responders,
            ordered_call_index_range: 0..0,
            call_counter: CallCounter::new(this.count_expectation),
        }
    }

    /// Responds with a clone of `value` on every call of this stage.
    pub fn returns_clone(self, value: V) -> (r: Self)
        requires
            self.wf(),
            !self.pending_once(),
        ensures
            r.wf(),
            r.pushed_from(
                &self,
                DynResponder::Cell(CellResponder { cell: ResponseCell::Clone(value) }),
            ),
    {
        let mut b = self;
        let _ = b.push_responder(DynResponder::new_clone_cell(value));
        b
    }

    /// Responds with `value` itself, which can be handed out only once.
    pub fn returns_once(self, value: V) -> (r: Self)
        requires
            self.wf(),
            !self.pending_once(),
        ensures
            r.wf(),
            r.pushed_from(
                &self,
                DynResponder::Cell(CellResponder { cell: ResponseCell::Once(Some(value)) }),
            ),
    {
        let mut b = self;
        let responder = match DynResponder::new_cell(value) {
            Ok(responder) => responder,
            Err(_) => {
                return b;
            },
        };
        let _ = b.push_responder(responder);
        b
    }

    /// Responds with a reference to `value`, which the pattern keeps.
    pub fn returns_ref(self, value: V) -> (r: Self)
        requires
            self.wf(),
            !self.pending_once(),
        ensures
            r.wf(),
            r.pushed_from(&self, DynResponder::Borrow(BorrowResponder { borrowable: value })),
    {
        let mut b = self;
        let _ = b.push_responder(DynResponder::new_borrow(value));
        b
    }

    /// Responds with what `func` computes from the inputs of each call.
    pub fn answers(self, func: F) -> (r: Self)
        requires
            self.wf(),
            !self.pending_once(),
        ensures
            r.wf(),
            r.pushed_from(&self, DynResponder::Function(FunctionResponder { func })),
    {
        let mut b = self;
        let _ = b.push_responder(FunctionResponder { func }.into_dyn_responder());
        b
    }

    /// Fails every call of this stage with `message`.
    pub fn panics(self, message: String) -> (r: Self)
        requires
            self.wf(),
            !self.pending_once(),
        ensures
            r.wf(),
            r.pushed_from(&self, DynResponder::Panic(message)),
    {
        let mut b = self;
        let _ = b.push_responder(DynResponder::Panic(message));
        b
    }

    /// Hands every call of this stage over to the real implementation.
    pub fn unmocked(self) -> (r: Self)
        requires
            self.wf(),
            !self.pending_once(),
        ensures
            r.wf(),
            r.pushed_from(&self, DynResponder::Unmock),
    {
        let mut b = self;
        let _ = b.push_responder(DynResponder::Unmock);
        b
    }

    /// Expects the last responder to answer exactly one call.
    pub fn once(self) -> (r: Self)
        requires
            self.wf(),
            self.awaiting_quantify,
            self.count_expectation.minimum + 1 <= usize::MAX,
        ensures
            r.wf(),
            r.quantified_from(&self, 1, Exactness::Exact),
    {
        let mut b = self;
        b.quantify(1, Exactness::Exact);
        b
    }

    /// Expects the last responder to answer exactly `times` calls.
    pub fn n_times(self, times: usize) -> (r: Self)
        requires
            self.wf(),
            self.awaiting_quantify,
            self.count_expectation.minimum + times <= usize::MAX,
        ensures
            r.wf(),
            r.quantified_from(&self, times as nat, Exactness::Exact),
    {
        let mut b = self;
        b.quantify(times, Exactness::Exact);
        b
    }

    /// Expects the last responder to answer at least `times` calls.
    pub fn at_least_times(self, times: usize) -> (r: Self)
        requires
            self.wf(),
            self.awaiting_quantify,
            self.count_expectation.minimum + times <= usize::MAX,
        ensures
            r.wf(),
            r.quantified_from(&self, times as nat, Exactness::AtLeast),
    {
        let mut b = self;
        b.quantify(times, Exactness::AtLeast);
        b
    }

    /// Opens the next stage after an exactly quantified one. The pattern is then
    /// expected to be called at least once past the stages before.
    pub fn then(self) -> (r: Self)
        requires
            self.wf(),
            self.last_stage_exact,
        ensures
            r.wf(),
            r.responders@ == self.responders@,
            r.pattern_match_mode == self.pattern_match_mode,
            r.input_matcher == self.input_matcher,
            r.count_expectation == self.count_expectation.accumulated(0, Exactness::AtLeastPlusOne),
            r.current_response_index == self.current_response_index,
            !r.awaiting_quantify,
            !r.last_stage_exact,
    {
        let mut b = self;
        b.count_expectation.add_to_minimum(0, Exactness::AtLeastPlusOne);
        b.last_stage_exact = false;
        b
    }
}

} // verus!
