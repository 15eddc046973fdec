//! Owned handles as they move across the boundary.
//!
//! A handle is a box: whoever holds it owns the resource, and passing it by
//! value gives the resource away. Where the boundary needs "a handle or
//! none" it uses `Option<Box<T>>`, with `None` for null. An operation hands
//! a resource out by writing such a handle into an output location that the
//! caller provides; what the location held before is dropped.

use vstd::prelude::*;
use crate::error::{try_fe, ErrorSlot};

verus! {

/// The nullable handle for an optional resource: null when there is none,
/// else a fresh handle that owns it.
pub fn nullable<T>(value: Option<T>) -> (handle: Option<Box<T>>)
    ensures
        value is None ==> handle is None,
        value matches Some(v) ==> handle == Some(Box::new(v)),
{
    match value {
        Some(v) => Some(Box::new(v)),
        None => None,
    }
}

/// Takes the resource out of a nullable handle that was passed in by
/// value. The handle is consumed whether or not it was null.
pub fn into_owned<T>(handle: Option<Box<T>>) -> (value: Option<T>)
    ensures
        handle is None ==> value is None,
        handle matches Some(b) ==> value == Some(*b),
{
    match handle {
        Some(b) => Some(*b),
        None => None,
    }
}

/// Writes a fresh handle for the resource into `out` when there is one,
/// and leaves `out` as it was when there is none. Returns whether there was
/// one.
pub fn put_if_present<T>(out: &mut Option<Box<T>>, value: Option<T>) -> (present: bool)
    ensures
        present == (value is Some),
        value is None ==> *final(out) == *old(out),
        value matches Some(v) ==> *final(out) == Some(Box::new(v)),
{
    match value {
        Some(v) => {
            *out = Some(Box::new(v));
            true
        },
        None => false,
    }
}

/// The outcome of an operation that produces a resource, on both channels:
/// after a success the slot is empty and `out` holds a fresh handle; after a
/// failure the slot holds the error and `out` is as it was.
pub fn deliver<T, E>(x: Result<T, E>, out: &mut Option<Box<T>>, err: &mut ErrorSlot<E>)
    ensures
        final(err).null() <==> x is Ok,
        x matches Ok(v) ==> *final(out) == Some(Box::new(v)),
        x matches Err(e) ==> final(err).holds(e) && *final(out) == *old(out),
{
    match try_fe(err, x) {
        Some(v) => {
            *out = Some(Box::new(v));
        },
        None => {},
    }
}

/// The outcome of an operation that produces nothing but its success, on
/// both channels. Returns whether it succeeded.
pub fn deliver_unit<E>(x: Result<(), E>, err: &mut ErrorSlot<E>) -> (done: bool)
    ensures
        done == (x is Ok),
        final(err).null() <==> x is Ok,
        x matches Err(e) ==> final(err).holds(e),
{
    try_fe(err, x).is_some()
}

/// Writes `value` into `out` when there is one, and leaves `out` as it was
/// when there is none. Returns whether there was one.
pub fn set_if_present<T>(out: &mut T, value: Option<T>) -> (present: bool)
    ensures
        present == (value is Some),
        value is None ==> *final(out) == *old(out),
        value matches Some(v) ==> *final(out) == v,
{
    match value {
        Some(v) => {
            *out = v;
            true
        },
        None => false,
    }
}

} // verus!
