//! The function registry of one mock instance, its global call-order counter,
//! registration of call patterns, and verification of their expectations.
use vstd::prelude::*;
use crate::call_pattern::CallPattern;
use crate::counter::{CallCountExpectation, Exactness};
use crate::error::MockError;
use crate::fn_mocker::{DynMockFn, FnMocker, PatternMatchMode};

verus! {

/// What happens to a call that no registered pattern takes.
#[derive(Clone, Copy, Debug, PartialEq, Eq, Structural)]
pub enum FallbackMode {
    /// The call fails.
    Error,
    /// The call goes to the real implementation.
    Unmock,
}

/// Misuse of registration.
#[derive(Clone, Copy, Debug, PartialEq, Eq, Structural)]
pub enum RegistryError {
    /// The function is already registered with the other pattern-match mode.
    MixedMatchModes,
}

/// The sum of the minimum call counts of the first `k` patterns.
pub open spec fn minimums_before<V, M, C, F>(ps: Seq<CallPattern<V, M, C, F>>, k: int) -> int
    decreases k,
{
    if k <= 0 {
        0
    } else {
        minimums_before(ps, k - 1) + ps[k - 1].call_counter.expectation.minimum
    }
}

/// `ps` as registered from call-order position `start` on: under `InOrder` each
/// pattern takes the next run of positions, as many as its minimum call count.
pub open spec fn placed<V, M, C, F>(
    ps: Seq<CallPattern<V, M, C, F>>,
    mode: PatternMatchMode,
    start: int,
) -> Seq<CallPattern<V, M, C, F>> {
    Seq::new(
        ps.len(),
        |k: int|
            if mode == PatternMatchMode::InOrder {
                CallPattern {
                    ordered_call_index_range: core::ops::Range {
                        start: (start + minimums_before(ps, k)) as usize,
                        end: (start + minimums_before(ps, k + 1)) as usize,
                    },
                    ..ps[k]
                }
            } else {
                ps[k]
            },
    )
}

/// The prefix sums of minimum call counts never decrease.
pub proof fn lemma_minimums_before_monotonic<V, M, C, F>(
    ps: Seq<CallPattern<V, M, C, F>>,
    j: int,
    k: int,
)
    requires
        0 <= j <= k,
    ensures
        0 <= minimums_before(ps, j) <= minimums_before(ps, k),
    decreases k,
{
    if j < k {
        lemma_minimums_before_monotonic(ps, j, k - 1);
    } else if k > 0 {
        lemma_minimums_before_monotonic(ps, k - 1, k - 1);
    }
}

/// The violations pattern `k` of function `name` reports when its calls do not
/// satisfy its expectation: the count mismatch, followed, for a pattern never
/// called, by the report that it was never called.
pub open spec fn pattern_violations<V, M, C, F>(
    name: &'static str,
    k: int,
    p: CallPattern<V, M, C, F>,
) -> Seq<MockError> {
    let count = p.call_counter.actual_count;
    let mismatch = MockError::CallCountMismatch {
        name,
        pattern: p.location(k as usize),
        actual_count: count,
        expectation: p.call_counter.expectation,
    };
    if p.call_counter.expectation.satisfied_by(count as int) {
        Seq::empty()
    } else if count == 0 {
        seq![mismatch, MockError::MockNeverCalled { name, pat_index: k as usize }]
    } else {
        seq![mismatch]
    }
}

/// The violations of the first `n` patterns of function `name`, in order.
pub open spec fn fn_violations<V, M, C, F>(
    name: &'static str,
    ps: Seq<CallPattern<V, M, C, F>>,
    n: int,
) -> Seq<MockError>
    decreases n,
{
    if n <= 0 {
        Seq::empty()
    } else {
        fn_violations(name, ps, n - 1) + pattern_violations(name, n - 1, ps[n - 1])
    }
}

/// The violations of the first `n` functions, in order.
pub open spec fn all_violations<V, M, C, F>(fms: Seq<FnMocker<V, M, C, F>>, n: int) -> Seq<
    MockError,
>
    decreases n,
{
    if n <= 0 {
        Seq::empty()
    } else {
        all_violations(fms, n - 1) + fn_violations(
            fms[n - 1].mock_fn.name,
            fms[n - 1].call_patterns@,
            fms[n - 1].call_patterns@.len() as int,
        )
    }
}

/// The registry and shared counters of one mock instance.
///
/// One instance holds one response type `V`, one matcher type `M` and one type
/// of each kind of responder function (`C`, `F`), so all functions registered
/// in it share these. Functions with different signatures are mocked in one
/// instance by letting an enum over their inputs and outputs stand in for them.
pub struct SharedState<V, M, C, F> {
    pub fn_mockers: Vec<FnMocker<V, M, C, F>>,
    pub fallback_mode: FallbackMode,
    /// The call-order position the next `InOrder` call will take.
    pub ordered_call_index: usize,
    /// The call-order position the next registered `InOrder` pattern starts at.
    pub next_order_slot: usize,
}

impl<V, M, C, F> SharedState<V, M, C, F> {
    pub open spec fn wf(&self) -> bool {
        &&& forall|a: int, b: int|
            0 <= a < self.fn_mockers@.len() && 0 <= b < self.fn_mockers@.len()
                && #[trigger] self.fn_mockers@[a].mock_fn.type_id
                == #[trigger] self.fn_mockers@[b].mock_fn.type_id ==> a == b
        &&& forall|a: int, k: int|
            0 <= a < self.fn_mockers@.len() && 0 <= k < self.fn_mockers@[a].call_patterns@.len()
                ==> (#[trigger] self.fn_mockers@[a].call_patterns@[k]).wf()
    }

    /// The position of the entry registered for `type_id`, if any.
    pub open spec fn entry_index(&self, type_id: u64) -> Option<int> {
        if exists|i: int|
            0 <= i < self.fn_mockers@.len() && #[trigger] self.fn_mockers@[i].mock_fn.type_id
                == type_id {
            Some(
                choose|i: int|
                    0 <= i < self.fn_mockers@.len() && #[trigger] self.fn_mockers@[i].mock_fn.type_id
                        == type_id,
            )
        } else {
            None
        }
    }

    /// An instance with no functions registered.
    pub fn new(fallback_mode: FallbackMode) -> (r: Self)
        ensures
            r.wf(),
            r.fn_mockers@.len() == 0,
            r.fallback_mode == fallback_mode,
            r.ordered_call_index == 0,
            r.next_order_slot == 0,
    {
        SharedState { fn_mockers: Vec::new(), fallback_mode, ordered_call_index: 0, next_order_slot: 0 }
    }

    /// The position of the entry registered for `type_id`, if any.
    pub fn lookup(&self, type_id: u64) -> (r: Option<usize>)
        requires
            self.wf(),
        ensures
            r matches Some(i) ==> self.entry_index(type_id) == Some(i as int),
            r is None ==> self.entry_index(type_id) is None,
    {
        let mut i: usize = 0;
        while i < self.fn_mockers.len()
            invariant
                self.wf(),
                i <= self.fn_mockers@.len(),
                forall|j: int| 0 <= j < i ==> #[trigger] self.fn_mockers@[j].mock_fn.type_id != type_id,
            decreases self.fn_mockers@.len() - i,
        {
            if self.fn_mockers[i].mock_fn.type_id == type_id {
                proof {
                    assert(self.fn_mockers@[i as int].mock_fn.type_id == type_id);
                    let c = choose|j: int|
                        0 <= j < self.fn_mockers@.len() && #[trigger] self.fn_mockers@[j].mock_fn.type_id
                            == type_id;
                    assert(self.fn_mockers@[c].mock_fn.type_id == self.fn_mockers@[i as int].mock_fn.type_id);
                }
                return Some(i);
            }
            i = i + 1;
        }
        None
    }

    /// Takes the next global call-order position.
    pub fn bump_ordered_call_index(&mut self) -> (r: usize)
        requires
            old(self).ordered_call_index < usize::MAX,
        ensures
            r == old(self).ordered_call_index,
            *final(self) == (SharedState { ordered_call_index: (r + 1) as usize, ..*old(self) }),
    {
        let r = self.ordered_call_index;
        self.ordered_call_index = r + 1;
        r
    }

    /// Places `patterns` in call order from `next_order_slot` on (under
    /// `InOrder`), returning them and the slot that follows them.
    fn place_patterns(
        patterns: Vec<CallPattern<V, M, C, F>>,
        mode: PatternMatchMode,
        start: usize,
    ) -> (r: (Vec<CallPattern<V, M, C, F>>, usize))
        requires
            mode == PatternMatchMode::InOrder ==> start + minimums_before(
                patterns@,
                patterns@.len() as int,
            ) <= usize::MAX,
        ensures
            r.0@ == placed(patterns@, mode, start as int),
            r.1 == (if mode == PatternMatchMode::InOrder {
                start + minimums_before(patterns@, patterns@.len() as int)
            } else {
                start as int
            }),
    {
        let ghost ps = patterns@;
        let n = patterns.len();
        let mut rest = patterns;
        let mut out: Vec<CallPattern<V, M, C, F>> = Vec::new();
        let mut slot = start;
        while out.len() < n
            invariant
                n == ps.len(),
                out@.len() + rest@.len() == n,
                rest@ == ps.subrange(out@.len() as int, n as int),
                out@ == placed(ps, mode, start as int).subrange(0, out@.len() as int),
                mode == PatternMatchMode::InOrder ==> slot == start + minimums_before(ps, out@.len() as int),
                mode == PatternMatchMode::InOrder ==> start + minimums_before(ps, n as int) <= usize::MAX,
                mode != PatternMatchMode::InOrder ==> slot == start,
            decreases n - out@.len(),
        {
            let k = out.len();
            let mut p = rest.remove(0);
            assert(p == ps[k as int]);
            if mode == PatternMatchMode::InOrder {
                proof {
                    lemma_minimums_before_monotonic(ps, k + 1, n as int);
                }
                let end = slot + p.call_counter.expectation.minimum;
                p.ordered_call_index_range = slot..end;
                slot = end;
            }
            out.push(p);
            assert(rest@ =~= ps.subrange(out@.len() as int, n as int));
            assert(out@ =~= placed(ps, mode, start as int).subrange(0, out@.len() as int));
        }
        assert(out@ =~= placed(ps, mode, start as int));
        (out, slot)
    }

    /// Registers `patterns` for `mock_fn` under `mode`, after any patterns the
    /// function already has. Under `InOrder` each pattern takes the next run of
    /// call-order positions, as many as its minimum call count. Fails, changing
    /// nothing, when the function is registered with the other mode.
    pub fn register(
        &mut self,
        mock_fn: DynMockFn,
        mode: PatternMatchMode,
        patterns: Vec<CallPattern<V, M, C, F>>,
    ) -> (r: Result<(), RegistryError>)
        requires
            old(self).wf(),
            forall|k: int| 0 <= k < patterns@.len() ==> (#[trigger] patterns@[k]).wf(),
            mode == PatternMatchMode::InOrder ==> old(self).next_order_slot + minimums_before(
                patterns@,
                patterns@.len() as int,
            ) <= usize::MAX,
        ensures
            final(self).wf(),
            final(self).fallback_mode == old(self).fallback_mode,
            final(self).ordered_call_index == old(self).ordered_call_index,
            ({
                let placed_ps = placed(patterns@, mode, old(self).next_order_slot as int);
                match old(self).entry_index(mock_fn.type_id) {
                    Some(i) => if old(self).fn_mockers@[i].pattern_match_mode != mode {
                        r == Err::<(), RegistryError>(RegistryError::MixedMatchModes) && *final(self)
                            == *old(self)
                    } else {
                        &&& r is Ok
                        &&& final(self).fn_mockers@.len() == old(self).fn_mockers@.len()
                        &&& forall|j: int|
                            0 <= j < old(self).fn_mockers@.len() && j != i ==> #[trigger] final(self).fn_mockers@[j] == old(self).fn_mockers@[j]
                        &&& final(self).fn_mockers@[i].mock_fn == old(self).fn_mockers@[i].mock_fn
                        &&& final(self).fn_mockers@[i].pattern_match_mode == mode
                        &&& final(self).fn_mockers@[i].call_patterns@ == old(self).fn_mockers@[i].call_patterns@ + placed_ps
                    },
                    None => {
                        &&& r is Ok
                        &&& final(self).fn_mockers@.len() == old(self).fn_mockers@.len() + 1
                        &&& forall|j: int|
                            0 <= j < old(self).fn_mockers@.len() ==> #[trigger] final(self).fn_mockers@[j] == old(self).fn_mockers@[j]
                        &&& final(self).fn_mockers@.last().mock_fn == mock_fn
                        &&& final(self).fn_mockers@.last().pattern_match_mode == mode
                        &&& final(self).fn_mockers@.last().call_patterns@ == placed_ps
                    },
                }
            }),
            r is Ok ==> final(self).next_order_slot == (if mode == PatternMatchMode::InOrder {
                old(self).next_order_slot + minimums_before(patterns@, patterns@.len() as int)
            } else {
                old(self).next_order_slot as int
            }),
    {
        let found = self.lookup(mock_fn.type_id);
        if let Some(i) = found {
            if self.fn_mockers[i].pattern_match_mode != mode {
                return Err(RegistryError::MixedMatchModes);
            }
        }
        let ghost ps = patterns@;
        let (mut placed_vec, slot) = Self::place_patterns(patterns, mode, self.next_order_slot);
        assert forall|k: int| 0 <= k < placed_vec@.len() implies (#[trigger] placed_vec@[k]).wf() by {
            assert(ps[k].wf());
        }
        self.next_order_slot = slot;
        match found {
            Some(i) => {
                let ghost before = self.fn_mockers@;
                let ghost pv = placed_vec@;
                self.fn_mockers[i].call_patterns.append(&mut placed_vec);
                assert forall|a: int, b: int|
                    0 <= a < self.fn_mockers@.len() && 0 <= b < self.fn_mockers@.len()
                        && #[trigger] self.fn_mockers@[a].mock_fn.type_id
                        == #[trigger] self.fn_mockers@[b].mock_fn.type_id implies a == b by {
                    assert(before[a].mock_fn.type_id == before[b].mock_fn.type_id);
                }
                assert forall|a: int, k: int|
                    0 <= a < self.fn_mockers@.len() && 0 <= k < self.fn_mockers@[a].call_patterns@.len()
                        implies (#[trigger] self.fn_mockers@[a].call_patterns@[k]).wf() by {
                    if a != i {
                        assert(before[a].call_patterns@[k].wf());
                    } else if k < before[a].call_patterns@.len() {
                        assert(before[a].call_patterns@[k].wf());
                    } else {
                        assert(self.fn_mockers@[a].call_patterns@[k] == pv[k
                            - before[a].call_patterns@.len()]);
                    }
                }
            },
            None => {
                let ghost before = self.fn_mockers@;
                self.fn_mockers.push(
                    FnMocker { mock_fn, pattern_match_mode: mode, call_patterns: placed_vec },
                );
                assert forall|a: int, b: int|
                    0 <= a < self.fn_mockers@.len() && 0 <= b < self.fn_mockers@.len()
                        && #[trigger] self.fn_mockers@[a].mock_fn.type_id
                        == #[trigger] self.fn_mockers@[b].mock_fn.type_id implies a == b by {
                    if a < before.len() && b < before.len() {
                        assert(before[a].mock_fn.type_id == before[b].mock_fn.type_id);
                    } else if a < before.len() {
                        assert(before[a].mock_fn.type_id == mock_fn.type_id);
                    } else if b < before.len() {
                        assert(before[b].mock_fn.type_id == mock_fn.type_id);
                    }
                }
                assert forall|a: int, k: int|
                    0 <= a < self.fn_mockers@.len() && 0 <= k < self.fn_mockers@[a].call_patterns@.len()
                        implies (#[trigger] self.fn_mockers@[a].call_patterns@[k]).wf() by {
                    if a < before.len() {
                        assert(before[a].call_patterns@[k].wf());
                    }
                }
            },
        }
        Ok(())
    }

    /// Every violated expectation, over all functions and their patterns in
    /// registration order.
    pub fn verify(&self) -> (r: Vec<MockError>)
        ensures
            r@ == all_violations(self.fn_mockers@, self.fn_mockers@.len() as int),
    {
        let mut errors: Vec<MockError> = Vec::new();
        let mut i: usize = 0;
        while i < self.fn_mockers.len()
            invariant
                i <= self.fn_mockers@.len(),
                errors@ == all_violations(self.fn_mockers@, i as int),
            decreases self.fn_mockers@.len() - i,
        {
            let fm = &self.fn_mockers[i];
            let ghost base = errors@;
            let mut k: usize = 0;
            while k < fm.call_patterns.len()
                invariant
                    fm == self.fn_mockers@[i as int],
                    k <= fm.call_patterns@.len(),
                    errors@ == base + fn_violations(fm.mock_fn.name, fm.call_patterns@, k as int),
                decreases fm.call_patterns@.len() - k,
            {
                let pattern = &fm.call_patterns[k];
                let counter = &pattern.call_counter;
                if !counter.is_satisfied() {
                    errors.push(
                        MockError::CallCountMismatch {
                            name: fm.mock_fn.name,
                            pattern: pattern.debug_location(k),
                            actual_count: counter.actual_count,
                            expectation: counter.expectation,
                        },
                    );
                    if counter.actual_count == 0 {
                        errors.push(MockError::MockNeverCalled { name: fm.mock_fn.name, pat_index: k });
                    }
                }
                assert(errors@ =~= base + fn_violations(fm.mock_fn.name, fm.call_patterns@, k + 1));
                k = k + 1;
            }
            assert(errors@ =~= all_violations(self.fn_mockers@, i + 1));
            i = i + 1;
        }
        errors
    }
}

/// Verifying a pattern with no minimum: one left unquantified or quantified
/// to at least zero calls reports nothing, however often it was called, zero
/// times included. And verifying a pattern never called that was quantified to
/// exactly one call reports the count mismatch and that it was never called.
pub proof fn lemma_zero_calls_verification<V, M, C, F>(
    name: &'static str,
    k: int,
    p: CallPattern<V, M, C, F>,
)
    ensures
        p.call_counter.expectation == CallCountExpectation::unquantified() ==> pattern_violations(
            name,
            k,
            p,
        ).len() == 0,
        p.call_counter.expectation == CallCountExpectation::unquantified().accumulated(
            0,
            Exactness::AtLeast,
        ) ==> pattern_violations(name, k, p).len() == 0,
        p.call_counter.actual_count == 0 && p.call_counter.expectation
            == CallCountExpectation::unquantified().accumulated(1, Exactness::Exact)
            ==> pattern_violations(name, k, p) == seq![
            MockError::CallCountMismatch {
                name,
                pattern: p.location(k as usize),
                actual_count: 0,
                expectation: p.call_counter.expectation,
            },
            MockError::MockNeverCalled { name, pat_index: k as usize },
        ],
{
}

} // verus!
