//! The registry entry of one mocked function: its identity, its pattern-match
//! mode and its call patterns in registration order.
use vstd::prelude::*;
use crate::call_pattern::CallPattern;

verus! {

/// How an incoming call chooses among the patterns of its function.
#[derive(Clone, Copy, Debug, PartialEq, Eq, Structural)]
pub enum PatternMatchMode {
    /// The first pattern, in registration order, whose matcher accepts the inputs.
    InAnyOrder,
    /// The pattern whose global call-order range holds the call's position.
    InOrder,
}

/// The identity of one mocked function: a stable key and a name for diagnostics.
#[derive(Clone, Copy, Debug)]
pub struct DynMockFn {
    pub type_id: u64,
    pub name: &'static str,
}

/// The registered patterns of one mocked function.
pub struct FnMocker<V, M, C, F> {
    pub mock_fn: DynMockFn,
    pub pattern_match_mode: PatternMatchMode,
    pub call_patterns: Vec<CallPattern<V, M, C, F>>,
}

/// Position `p` lies in the call-order range of pattern `k`.
pub open spec fn range_holds<V, M, C, F>(
    patterns: Seq<CallPattern<V, M, C, F>>,
    k: int,
    p: int,
) -> bool {
    &&& 0 <= k < patterns.len()
    &&& patterns[k].ordered_call_index_range.start <= p
    &&& p < patterns[k].ordered_call_index_range.end
}

impl<V, M, C, F> FnMocker<V, M, C, F> {
    /// The first pattern whose call-order range holds `ordered_call_index`.
    pub fn find_call_pattern_for_call_order(&self, ordered_call_index: usize) -> (r: Option<usize>)
        ensures
            r matches Some(k) ==> range_holds(self.call_patterns@, k as int, ordered_call_index as int)
                && forall|j: int| 0 <= j < k ==> !range_holds(self.call_patterns@, j, ordered_call_index as int),
            r is None ==> forall|j: int|
                0 <= j < self.call_patterns@.len() ==> !range_holds(
                    self.call_patterns@,
                    j,
                    ordered_call_index as int,
                ),
    {
        let mut k: usize = 0;
        while k < self.call_patterns.len()
            invariant
                k <= self.call_patterns@.len(),
                forall|j: int| 0 <= j < k ==> !range_holds(self.call_patterns@, j, ordered_call_index as int),
            decreases self.call_patterns@.len() - k,
        {
            let range = &self.call_patterns[k].ordered_call_index_range;
            if range.start <= ordered_call_index && ordered_call_index < range.end {
                return Some(k);
            }
            k = k + 1;
        }
        None
    }
}

} // verus!
