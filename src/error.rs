//! The errors a call or a verification can end in.
use vstd::prelude::*;
use crate::call_pattern::CallPatternLocation;
use crate::counter::{CallCountExpectation, Exactness};
use vstd::string::StringExecFns;

verus! {

/// The position of a call in the global call order, counted from zero.
#[derive(Clone, Copy, Debug, PartialEq, Eq, Structural)]
pub struct CallOrder(pub usize);

/// A caller-visible failure of a mocked call or of verification. Each carries
/// the function's name, and where relevant a rendering of the inputs, the index
/// of the pattern concerned and the call order or count observed.
#[derive(Debug)]
pub enum MockError {
    Downcast { name: &'static str },
    NoMockImplementation { name: &'static str },
    NoRegisteredCallPatterns { name: &'static str, inputs_debug: String },
    NoMatchingCallPatterns { name: &'static str, inputs_debug: String },
    NoMatcherFunction { name: &'static str, pat_index: usize },
    NoOutputAvailableForCallPattern { name: &'static str, inputs_debug: String, pat_index: usize },
    CannotReturnValueMoreThanOnce { name: &'static str, inputs_debug: String, pat_index: usize },
    ExplicitPanic { name: &'static str, inputs_debug: String, pat_index: usize, msg: String },
    MockNeverCalled { name: &'static str, pat_index: usize },
    CallCountMismatch {
        name: &'static str,
        pattern: CallPatternLocation,
        actual_count: usize,
        expectation: CallCountExpectation,
    },
    CallOrderNotMatchedForMockFn {
        name: &'static str,
        inputs_debug: String,
        actual_call_order: CallOrder,
        expected_ranges: Vec<core::ops::Range<usize>>,
    },
    InputsNotMatchedInCallOrder {
        name: &'static str,
        inputs_debug: String,
        actual_call_order: CallOrder,
        pat_index: usize,
    },
    CannotBorrowValueStatically { name: &'static str, inputs_debug: String, pat_index: usize },
    CannotBorrowValueProducedByClosure { name: &'static str, inputs_debug: String, pat_index: usize },
    FailedVerification(String),
    CannotUnmock { name: &'static str },
}

/// The decimal digit `d` as a character.
pub open spec fn digit_char(d: nat) -> char {
    if d == 0 { '0' } else if d == 1 { '1' } else if d == 2 { '2' } else if d == 3 { '3' }
    else if d == 4 { '4' } else if d == 5 { '5' } else if d == 6 { '6' } else if d == 7 { '7' }
    else if d == 8 { '8' } else { '9' }
}

/// `n` written in decimal, without leading zeros.
pub open spec fn decimal(n: nat) -> Seq<char>
    decreases n,
{
    if n < 10 {
        seq![digit_char(n)]
    } else {
        decimal(n / 10).push(digit_char(n % 10))
    }
}

/// A range written as `start..end`.
pub open spec fn range_text(r: core::ops::Range<usize>) -> Seq<char> {
    decimal(r.start as nat) + ".."@ + decimal(r.end as nat)
}

/// The first `n` ranges, separated by `, `.
pub open spec fn ranges_items(rs: Seq<core::ops::Range<usize>>, n: int) -> Seq<char>
    decreases n,
{
    if n <= 0 {
        Seq::empty()
    } else if n == 1 {
        range_text(rs[0])
    } else {
        ranges_items(rs, n - 1) + ", "@ + range_text(rs[n - 1])
    }
}

/// A list of ranges written as `[a..b, c..d]`.
pub open spec fn ranges_text(rs: Seq<core::ops::Range<usize>>) -> Seq<char> {
    "["@ + ranges_items(rs, rs.len() as int) + "]"@
}

/// A call-order position as shown to users: counted from one.
pub open spec fn call_order_text(o: CallOrder) -> Seq<char> {
    decimal((o.0 + 1) as nat)
}

/// A number of calls in words: `no calls`, `1 call`, `N calls`.
pub open spec fn calls_text(n: nat) -> Seq<char> {
    if n == 0 {
        "no calls"@
    } else if n == 1 {
        "1 call"@
    } else {
        decimal(n) + " calls"@
    }
}

/// A call pattern of function `name` as named in messages: the function with
/// the matcher's pattern and where it was declared, else the pattern's index.
pub open spec fn location_text(name: &'static str, loc: CallPatternLocation) -> Seq<char> {
    match loc {
        CallPatternLocation::Debug(d) => name@ + "("@ + d.pat_debug@ + ") at "@ + d.location@,
        CallPatternLocation::PatIndex(k) => "call pattern #"@ + decimal(k as nat),
    }
}

/// The message of each error.
pub open spec fn message(e: MockError) -> Seq<char> {
    match e {
        MockError::Downcast { name } => "Fatal: Failed to downcast for "@ + name@ + "."@,
        MockError::NoMockImplementation { name } => "No mock implementation found for "@ + name@
            + "."@,
        MockError::NoRegisteredCallPatterns { name, inputs_debug } => name@ + inputs_debug@
            + ": No registered call patterns."@,
        MockError::NoMatchingCallPatterns { name, inputs_debug } => name@ + inputs_debug@
            + ": No matching call patterns."@,
        MockError::NoMatcherFunction { name, pat_index } => name@
            + ": No matcher function for call pattern #"@ + decimal(pat_index as nat) + "."@,
        MockError::NoOutputAvailableForCallPattern { name, inputs_debug, pat_index } => name@
            + inputs_debug@ + ": No output available for matching call pattern #"@ + decimal(
            pat_index as nat,
        ) + "."@,
        MockError::CannotReturnValueMoreThanOnce { name, inputs_debug, pat_index } => name@
            + inputs_debug@ + ": Cannot return value more than once for call pattern #"@ + decimal(
            pat_index as nat,
        ) + ": it was already consumed."@,
        MockError::ExplicitPanic { name, inputs_debug, pat_index, msg } => name@ + inputs_debug@
            + ": Explicit panic from call pattern #"@ + decimal(pat_index as nat) + ": "@ + msg@,
        MockError::MockNeverCalled { name, pat_index } => "Mock for "@ + name@
            + " was never called. Dead mocks should be removed."@,
        MockError::CallCountMismatch { name, pattern, actual_count, expectation } => name@
            + ": Expected "@ + location_text(name, pattern) + (if expectation.exactness
            == Exactness::Exact {
            " to match exactly "@
        } else {
            " to match at least "@
        }) + calls_text(expectation.lower_bound() as nat) + ", but it actually matched "@
            + calls_text(actual_count as nat) + "."@,
        MockError::CallOrderNotMatchedForMockFn {
            name,
            inputs_debug,
            actual_call_order,
            expected_ranges,
        } => name@ + inputs_debug@
            + ": Matched in wrong order. It supported the call order ranges "@ + ranges_text(
            expected_ranges@,
        ) + ", but actual call order was "@ + call_order_text(actual_call_order) + "."@,
        MockError::InputsNotMatchedInCallOrder {
            name,
            inputs_debug,
            actual_call_order,
            pat_index,
        } => name@ + inputs_debug@ + ": Invoked in the correct order ("@ + call_order_text(
            actual_call_order,
        ) + "), but inputs didn't match call pattern #"@ + decimal(pat_index as nat) + "."@,
        MockError::CannotBorrowValueStatically { name, inputs_debug, pat_index } => name@ + "("@
            + inputs_debug@ + "): Cannot borrow output value statically for call pattern ("@
            + decimal(pat_index as nat) + "). Consider using .returns_static()."@,
        MockError::CannotBorrowValueProducedByClosure { name, inputs_debug, pat_index } => name@
            + "("@ + inputs_debug@
            + "): Cannot borrow the value returned by the answering closure for ("@ + decimal(
            pat_index as nat,
        ) + ")"@,
        MockError::FailedVerification(message) => message@,
        MockError::CannotUnmock { name } => name@
            + " cannot be unmocked as there is no function available to call."@,
    }
}

/// The decimal digit `d` as a one-character string.
fn digit_str(d: u8) -> (r: &'static str)
    requires
        d < 10,
    ensures
        r@ == seq![digit_char(d as nat)],
{
    proof {
        reveal_strlit("0");
        reveal_strlit("1");
        reveal_strlit("2");
        reveal_strlit("3");
        reveal_strlit("4");
        reveal_strlit("5");
        reveal_strlit("6");
        reveal_strlit("7");
        reveal_strlit("8");
        reveal_strlit("9");
    }
    match d {
        0 => "0",
        1 => "1",
        2 => "2",
        3 => "3",
        4 => "4",
        5 => "5",
        6 => "6",
        7 => "7",
        8 => "8",
        _ => "9",
    }
}

/// Appends `n` in decimal to `out`.
pub fn push_decimal(out: &mut String, n: u128)
    ensures
        final(out)@ == old(out)@ + decimal(n as nat),
    decreases n,
{
    let ghost start = out@;
    if n >= 10 {
        push_decimal(out, n / 10);
    }
    out.append(digit_str((n % 10) as u8));
    proof {
        if n >= 10 {
            assert(decimal(n as nat) == decimal((n / 10) as nat).push(digit_char((n % 10) as nat)));
        }
    }
    assert(out@ =~= start + decimal(n as nat));
}

/// Appends `n` calls in words to `out`.
fn push_calls(out: &mut String, n: u128)
    ensures
        final(out)@ == old(out)@ + calls_text(n as nat),
{
    if n == 0 {
        out.append("no calls");
    } else if n == 1 {
        out.append("1 call");
    } else {
        push_decimal(out, n);
        out.append(" calls");
    }
}

/// Appends the name of pattern `loc` of function `name` to `out`.
fn push_location(out: &mut String, name: &'static str, loc: &CallPatternLocation)
    ensures
        final(out)@ == old(out)@ + location_text(name, *loc),
{
    let ghost start = out@;
    match loc {
        CallPatternLocation::Debug(d) => {
            out.append(name);
            out.append("(");
            out.append(d.pat_debug.as_str());
            out.append(") at ");
            out.append(d.location.as_str());
        },
        CallPatternLocation::PatIndex(k) => {
            out.append("call pattern #");
            push_decimal(out, *k as u128);
        },
    }
    assert(out@ =~= start + location_text(name, *loc));
}

/// Appends `rs` written as `[a..b, c..d]` to `out`.
fn push_ranges(out: &mut String, rs: &Vec<core::ops::Range<usize>>)
    ensures
        final(out)@ == old(out)@ + ranges_text(rs@),
{
    let ghost start = out@;
    out.append("[");
    let mut k: usize = 0;
    while k < rs.len()
        invariant
            k <= rs@.len(),
            out@ == start + "["@ + ranges_items(rs@, k as int),
        decreases rs@.len() - k,
    {
        if k > 0 {
            out.append(", ");
        }
        push_decimal(out, rs[k].start as u128);
        out.append("..");
        push_decimal(out, rs[k].end as u128);
        assert(out@ =~= start + "["@ + ranges_items(rs@, k + 1));
        k = k + 1;
    }
    out.append("]");
    assert(out@ =~= start + ranges_text(rs@));
}

impl CallOrder {
    /// The position as shown to users: counted from one.
    pub fn to_string(&self) -> (r: String)
        ensures
            r@ == call_order_text(*self),
    {
        let mut out = String::new();
        push_decimal(&mut out, self.0 as u128 + 1);
        assert(out@ =~= call_order_text(*self));
        out
    }
}

impl MockError {
    /// The message shown to users for this error.
    pub fn to_string(&self) -> (r: String)
        ensures
            r@ == message(*self),
    {
        let mut out = String::new();
        match self {
            MockError::Downcast { name } => {
                out.append("Fatal: Failed to downcast for ");
                out.append(name);
                out.append(".");
            },
            MockError::NoMockImplementation { name } => {
                out.append("No mock implementation found for ");
                out.append(name);
                out.append(".");
            },
            MockError::NoRegisteredCallPatterns { name, inputs_debug } => {
                out.append(name);
                out.append(inputs_debug.as_str());
                out.append(": No registered call patterns.");
            },
            MockError::NoMatchingCallPatterns { name, inputs_debug } => {
                out.append(name);
                out.append(inputs_debug.as_str());
                out.append(": No matching call patterns.");
            },
            MockError::NoMatcherFunction { name, pat_index } => {
                out.append(name);
                out.append(": No matcher function for call pattern #");
                push_decimal(&mut out, *pat_index as u128);
                out.append(".");
            },
            MockError::NoOutputAvailableForCallPattern { name, inputs_debug, pat_index } => {
                out.append(name);
                out.append(inputs_debug.as_str());
                out.append(": No output available for matching call pattern #");
                push_decimal(&mut out, *pat_index as u128);
                out.append(".");
            },
            MockError::CannotReturnValueMoreThanOnce { name, inputs_debug, pat_index } => {
                out.append(name);
                out.append(inputs_debug.as_str());
                out.append(": Cannot return value more than once for call pattern #");
                push_decimal(&mut out, *pat_index as u128);
                out.append(": it was already consumed.");
            },
            MockError::ExplicitPanic { name, inputs_debug, pat_index, msg } => {
                out.append(name);
                out.append(inputs_debug.as_str());
                out.append(": Explicit panic from call pattern #");
                push_decimal(&mut out, *pat_index as u128);
                out.append(": ");
                out.append(msg.as_str());
            },
            MockError::MockNeverCalled { name, pat_index: _ } => {
                out.append("Mock for ");
                out.append(name);
                out.append(" was never called. Dead mocks should be removed.");
            },
            MockError::CallCountMismatch { name, pattern, actual_count, expectation } => {
                out.append(name);
                out.append(": Expected ");
                push_location(&mut out, name, pattern);
                let bound: u128 = match expectation.exactness {
                    Exactness::Exact => {
                        out.append(" to match exactly ");
                        expectation.minimum as u128
                    },
                    Exactness::AtLeast => {
                        out.append(" to match at least ");
                        expectation.minimum as u128
                    },
                    Exactness::AtLeastPlusOne => {
                        out.append(" to match at least ");
                        expectation.minimum as u128 + 1
                    },
                };
                push_calls(&mut out, bound);
                out.append(", but it actually matched ");
                push_calls(&mut out, *actual_count as u128);
                out.append(".");
            },
            MockError::CallOrderNotMatchedForMockFn {
                name,
                inputs_debug,
                actual_call_order,
                expected_ranges,
            } => {
                out.append(name);
                out.append(inputs_debug.as_str());
                out.append(": Matched in wrong order. It supported the call order ranges ");
                push_ranges(&mut out, expected_ranges);
                out.append(", but actual call order was ");
                push_decimal(&mut out, actual_call_order.0 as u128 + 1);
                out.append(".");
            },
            MockError::InputsNotMatchedInCallOrder {
                name,
                inputs_debug,
                actual_call_order,
                pat_index,
            } => {
                out.append(name);
                out.append(inputs_debug.as_str());
                out.append(": Invoked in the correct order (");
                push_decimal(&mut out, actual_call_order.0 as u128 + 1);
                out.append("), but inputs didn't match call pattern #");
                push_decimal(&mut out, *pat_index as u128);
                out.append(".");
            },
            MockError::CannotBorrowValueStatically { name, inputs_debug, pat_index } => {
                out.append(name);
                out.append("(");
                out.append(inputs_debug.as_str());
                out.append("): Cannot borrow output value statically for call pattern (");
                push_decimal(&mut out, *pat_index as u128);
                out.append("). Consider using .returns_static().");
            },
            MockError::CannotBorrowValueProducedByClosure { name, inputs_debug, pat_index } => {
                out.append(name);
                out.append("(");
                out.append(inputs_debug.as_str());
                out.append("): Cannot borrow the value returned by the answering closure for (");
                push_decimal(&mut out, *pat_index as u128);
                out.append(")");
            },
            MockError::FailedVerification(message) => {
                out.append(message.as_str());
            },
            MockError::CannotUnmock { name } => {
                out.append(name);
                out.append(" cannot be unmocked as there is no function available to call.");
            },
        }
        assert(out@ =~= message(*self));
        out
    }
}

} // verus!
