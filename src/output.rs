//! How values given for a function's output become responders, and how a
//! stored response is lent out, by kind of output: owned, borrowed from the
//! mock, a static reference, or a mix of owned and borrowed parts.
use vstd::prelude::*;
use crate::call_pattern::{BorrowResponder, CellResponder, DynResponder, ResponseCell};
use core::marker::PhantomData;

verus! {

/// Failures of turning a value into a responder or a response into output.
#[derive(Clone, Copy, Debug, PartialEq, Eq, Structural)]
pub enum ResponderError {
    /// The output must be owned, but only a borrowed response is available.
    OwnershipRequired,
    /// Handing a value out once needs a lock that is not available.
    NoMutexApi,
}

/// A kind of output, and the type of the response the mock stores for it.
pub trait Respond {
    type Type;
}

/// Output that the caller owns.
pub struct Owned<T>(pub PhantomData<T>);

/// Output borrowed from the mock instance.
pub struct Borrowed<T>(pub PhantomData<T>);

/// Output that is a reference with static lifetime.
pub struct StaticRef<T: 'static>(pub PhantomData<&'static T>);

/// Output mixing owned and borrowed parts, such as an optional reference.
pub struct Mixed<T>(pub PhantomData<T>);

impl<T> Respond for Owned<T> {
    type Type = T;
}

impl<T> Respond for Borrowed<T> {
    type Type = T;
}

impl<T: 'static> Respond for StaticRef<T> {
    type Type = &'static T;
}

impl<T> Respond for Mixed<T> {
    type Type = T;
}

impl<T> Owned<T> {
    /// A value that cannot be cloned answers one call.
    pub fn into_once_responder<C, F>(value: T) -> (r: Result<DynResponder<T, C, F>, ResponderError>)
        ensures
            r == Ok::<DynResponder<T, C, F>, ResponderError>(
                DynResponder::Cell(CellResponder { cell: ResponseCell::Once(Some(value)) }),
            ),
    {
        DynResponder::new_cell(value)
    }

    /// A value that can be cloned answers every call with a clone.
    pub fn into_clone_responder<C, F>(value: T) -> (r: Result<DynResponder<T, C, F>, ResponderError>)
        ensures
            r == Ok::<DynResponder<T, C, F>, ResponderError>(
                DynResponder::Cell(CellResponder { cell: ResponseCell::Clone(value) }),
            ),
    {
        Ok(DynResponder::new_clone_cell(value))
    }

    /// Owned output cannot be made from a borrowed response.
    pub fn try_from_borrowed_response(response: &T) -> (r: Result<T, ResponderError>)
        ensures
            r == Err::<T, ResponderError>(ResponderError::OwnershipRequired),
    {
        Err(ResponderError::OwnershipRequired)
    }
}

impl<T> Borrowed<T> {
    /// The value is kept by the pattern and lent out to every call.
    pub fn into_once_responder<C, F>(value: T) -> (r: Result<DynResponder<T, C, F>, ResponderError>)
        ensures
            r == Ok::<DynResponder<T, C, F>, ResponderError>(
                DynResponder::Borrow(BorrowResponder { borrowable: value }),
            ),
    {
        Ok(DynResponder::new_borrow(value))
    }

    /// Lending needs no clone, so this is the same responder as for one call.
    pub fn into_clone_responder<C, F>(value: T) -> (r: Result<DynResponder<T, C, F>, ResponderError>)
        ensures
            r == Ok::<DynResponder<T, C, F>, ResponderError>(
                DynResponder::Borrow(BorrowResponder { borrowable: value }),
            ),
    {
        Self::into_once_responder(value)
    }

    /// The output is the stored response itself.
    pub fn try_from_borrowed_response(response: &T) -> (r: Result<&T, ResponderError>)
        ensures
            r matches Ok(x) && *x == *response,
    {
        Ok(response)
    }
}

impl<T: 'static> StaticRef<T> {
    /// The reference is kept by the pattern and handed to every call.
    pub fn into_once_responder<C, F>(value: &'static T) -> (r: Result<
        DynResponder<&'static T, C, F>,
        ResponderError,
    >)
        ensures
            r == Ok::<DynResponder<&'static T, C, F>, ResponderError>(
                DynResponder::Borrow(BorrowResponder { borrowable: value }),
            ),
    {
        Ok(DynResponder::new_borrow(value))
    }

    /// A reference can be handed out any number of times.
    pub fn into_clone_responder<C, F>(value: &'static T) -> (r: Result<
        DynResponder<&'static T, C, F>,
        ResponderError,
    >)
        ensures
            r == Ok::<DynResponder<&'static T, C, F>, ResponderError>(
                DynResponder::Borrow(BorrowResponder { borrowable: value }),
            ),
    {
        Self::into_once_responder(value)
    }

    /// The output is the stored reference.
    pub fn try_from_borrowed_response(response: &&'static T) -> (r: Result<
        &'static T,
        ResponderError,
    >)
        ensures
            r matches Ok(x) && *x == **response,
    {
        Ok(*response)
    }
}

impl<T, E> Mixed<Result<T, E>> {
    /// An `Ok` value is lent out to every call; an error is owned and
    /// answers one call.
    pub fn into_once_responder<C, F>(value: Result<T, E>) -> (r: Result<
        DynResponder<Result<T, E>, C, F>,
        ResponderError,
    >)
        ensures
            value is Ok ==> r == Ok::<DynResponder<Result<T, E>, C, F>, ResponderError>(
                DynResponder::Borrow(BorrowResponder { borrowable: value }),
            ),
            value is Err ==> r == Ok::<DynResponder<Result<T, E>, C, F>, ResponderError>(
                DynResponder::Cell(CellResponder { cell: ResponseCell::Once(Some(value)) }),
            ),
    {
        match value {
            Ok(v) => Ok(DynResponder::new_borrow(Ok(v))),
            Err(e) => DynResponder::new_cell(Err(e)),
        }
    }

    /// An `Ok` value is lent out to every call; an error is handed to every
    /// call as a clone.
    pub fn into_clone_responder<C, F>(value: Result<T, E>) -> (r: Result<
        DynResponder<Result<T, E>, C, F>,
        ResponderError,
    >)
        ensures
            value is Ok ==> r == Ok::<DynResponder<Result<T, E>, C, F>, ResponderError>(
                DynResponder::Borrow(BorrowResponder { borrowable: value }),
            ),
            value is Err ==> r == Ok::<DynResponder<Result<T, E>, C, F>, ResponderError>(
                DynResponder::Cell(CellResponder { cell: ResponseCell::Clone(value) }),
            ),
    {
        match value {
            Ok(v) => Ok(DynResponder::new_borrow(Ok(v))),
            Err(e) => Ok(DynResponder::new_clone_cell(Err(e))),
        }
    }

    /// An `Ok` response is lent out; an error would have to be owned.
    pub fn try_from_borrowed_response(response: &Result<T, E>) -> (r: Result<
        Result<&T, E>,
        ResponderError,
    >)
        ensures
            response matches Ok(v) ==> (r matches Ok(Ok(x)) && *x == v),
            response is Err ==> r == Err::<Result<&T, E>, ResponderError>(
                ResponderError::OwnershipRequired,
            ),
    {
        match response {
            Ok(v) => Ok(Ok(v)),
            Err(_) => Err(ResponderError::OwnershipRequired),
        }
    }
}

impl<T> Mixed<Option<T>> {
    /// The optional value is kept by the pattern and lent out to every call.
    pub fn into_once_responder<C, F>(value: Option<T>) -> (r: Result<
        DynResponder<Option<T>, C, F>,
        ResponderError,
    >)
        ensures
            r == Ok::<DynResponder<Option<T>, C, F>, ResponderError>(
                DynResponder::Borrow(BorrowResponder { borrowable: value }),
            ),
    {
        Ok(DynResponder::new_borrow(value))
    }

    /// Lending needs no clone, so this is the same responder as for one call.
    pub fn into_clone_responder<C, F>(value: Option<T>) -> (r: Result<
        DynResponder<Option<T>, C, F>,
        ResponderError,
    >)
        ensures
            r == Ok::<DynResponder<Option<T>, C, F>, ResponderError>(
                DynResponder::Borrow(BorrowResponder { borrowable: value }),
            ),
    {
        Self::into_once_responder(value)
    }

    /// The output borrows the stored value, if there is one.
    pub fn try_from_borrowed_response(response: &Option<T>) -> (r: Result<
        Option<&T>,
        ResponderError,
    >)
        ensures
            response is None ==> r matches Ok(None),
            response matches Some(v) ==> (r matches Ok(Some(x)) && *x == v),
    {
        match response {
            Some(v) => Ok(Some(v)),
            None => Ok(None),
        }
    }
}

impl<T> Mixed<Vec<T>> {
    /// The values are kept by the pattern and lent out to every call.
    pub fn into_once_responder<C, F>(value: Vec<T>) -> (r: Result<
        DynResponder<Vec<T>, C, F>,
        ResponderError,
    >)
        ensures
            r == Ok::<DynResponder<Vec<T>, C, F>, ResponderError>(
                DynResponder::Borrow(BorrowResponder { borrowable: value }),
            ),
    {
        Ok(DynResponder::new_borrow(value))
    }

    /// Lending needs no clone, so this is the same responder as for one call.
    pub fn into_clone_responder<C, F>(value: Vec<T>) -> (r: Result<
        DynResponder<Vec<T>, C, F>,
        ResponderError,
    >)
        ensures
            r == Ok::<DynResponder<Vec<T>, C, F>, ResponderError>(
                DynResponder::Borrow(BorrowResponder { borrowable: value }),
            ),
    {
        Self::into_once_responder(value)
    }

    /// The output borrows each stored value, in order.
    pub fn try_from_borrowed_response(response: &Vec<T>) -> (r: Result<Vec<&T>, ResponderError>)
        ensures
            r matches Ok(refs) && refs@.len() == response@.len() && forall|k: int|
                0 <= k < refs@.len() ==> *#[trigger] refs@[k] == response@[k],
    {
        let mut refs: Vec<&T> = Vec::new();
        let mut k: usize = 0;
        while k < response.len()
            invariant
                k <= response@.len(),
                refs@.len() == k,
                forall|q: int| 0 <= q < k ==> *#[trigger] refs@[q] == response@[q],
            decreases response@.len() - k,
        {
            refs.push(&response[k]);
            k = k + 1;
        }
        Ok(refs)
    }
}

impl<A, B> Mixed<(A, B)> {
    /// A pair is owned as a whole and answers one call.
    pub fn into_once_responder<C, F>(value: (A, B)) -> (r: Result<
        DynResponder<(A, B), C, F>,
        ResponderError,
    >)
        ensures
            r == Ok::<DynResponder<(A, B), C, F>, ResponderError>(
                DynResponder::Cell(CellResponder { cell: ResponseCell::Once(Some(value)) }),
            ),
    {
        DynResponder::new_cell(value)
    }

    /// A pair whose parts can be cloned answers every call with a clone.
    pub fn into_clone_responder<C, F>(value: (A, B)) -> (r: Result<
        DynResponder<(A, B), C, F>,
        ResponderError,
    >)
        ensures
            r == Ok::<DynResponder<(A, B), C, F>, ResponderError>(
                DynResponder::Cell(CellResponder { cell: ResponseCell::Clone(value) }),
            ),
    {
        Ok(DynResponder::new_clone_cell(value))
    }

    /// The output borrows each part of the stored pair.
    pub fn try_from_borrowed_response(response: &(A, B)) -> (r: Result<(&A, &B), ResponderError>)
        ensures
            r matches Ok((a, b)) && *a == response.0 && *b == response.1,
    {
        Ok((&response.0, &response.1))
    }
}

} // verus!
