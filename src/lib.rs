//! Runtime core of a call-substitution (mocking) engine: call patterns, their
//! responders and call-count expectations, dispatch of incoming calls, and
//! verification of expectations.
//!
//! Calls are evaluated through `&mut` access to the instance's state, so each
//! call counter and the global call-order counter advance one call at a time;
//! a host that shares an instance between threads serializes calls with a lock.
pub mod counter;
pub mod call_pattern;
pub mod fn_mocker;
pub mod builder;
pub mod eval;
pub mod error;
pub mod state;
pub mod output;
