//! The key-value proxy: the compare-and-swap rules that the external store
//! follows, the errors it reports, and an in-memory store with the same
//! contract.
use std::collections::HashMap;
use vstd::prelude::*;

verus! {

broadcast use vstd::std_specs::hash::group_hash_axioms;

/// Why a request failed.
#[derive(Debug, Clone, Copy, PartialEq, Eq, Structural)]
pub enum ErrorKind {
    /// The store holds no value for the key.
    KeyNotFound,
    /// The stored value is not the one the swap expected.
    PreconditionFailed,
    /// The call was given up before the store answered.
    Timeout,
    /// This node does not handle the request.
    NotSupported,
    /// The mapping of the cluster holds no entry for this node.
    UnknownNode,
    /// Any other failure, by its protocol code.
    Other(i32),
}

/// The protocol code of an error.
pub open spec fn code_of(e: ErrorKind) -> i32 {
    match e {
        ErrorKind::Timeout => 0,
        ErrorKind::NotSupported => 10,
        ErrorKind::UnknownNode => 13,
        ErrorKind::KeyNotFound => 20,
        ErrorKind::PreconditionFailed => 22,
        ErrorKind::Other(c) => c,
    }
}

/// The error that a protocol code stands for.
pub open spec fn error_of(code: i32) -> ErrorKind {
    if code == 0 {
        ErrorKind::Timeout
    } else if code == 10 {
        ErrorKind::NotSupported
    } else if code == 13 {
        ErrorKind::UnknownNode
    } else if code == 20 {
        ErrorKind::KeyNotFound
    } else if code == 22 {
        ErrorKind::PreconditionFailed
    } else {
        ErrorKind::Other(code)
    }
}

impl ErrorKind {
    /// The error that a protocol code stands for.
    pub fn from_code(code: i32) -> (r: ErrorKind)
        ensures
            r == error_of(code),
    {
        if code == 0 {
            ErrorKind::Timeout
        } else if code == 10 {
            ErrorKind::NotSupported
        } else if code == 13 {
            ErrorKind::UnknownNode
        } else if code == 20 {
            ErrorKind::KeyNotFound
        } else if code == 22 {
            ErrorKind::PreconditionFailed
        } else {
            ErrorKind::Other(code)
        }
    }

    /// The protocol code of this error.
    pub fn code(&self) -> (r: i32)
        ensures
            r == code_of(*self),
    {
        match self {
            ErrorKind::Timeout => 0,
            ErrorKind::NotSupported => 10,
            ErrorKind::UnknownNode => 13,
            ErrorKind::KeyNotFound => 20,
            ErrorKind::PreconditionFailed => 22,
            ErrorKind::Other(c) => *c,
        }
    }
}

/// A code read as an error and written back is the same code.
pub proof fn lemma_code_round_trip(code: i32)
    ensures
        code_of(error_of(code)) == code,
{
}

/// What a compare-and-swap does to a key whose value is `current`: the new
/// value, or the reason it fails.
pub open spec fn cas_outcome(current: Option<i64>, from: i64, to: i64, create_if_absent: bool) -> Result<
    i64,
    ErrorKind,
> {
    match current {
        Some(v) => if v == from {
            Ok(to)
        } else {
            Err(ErrorKind::PreconditionFailed)
        },
        None => if create_if_absent {
            Ok(to)
        } else {
            Err(ErrorKind::PreconditionFailed)
        },
    }
}

/// The outcome of a compare-and-swap on a key whose value is `current`.
pub fn compare_and_swap(current: Option<i64>, from: i64, to: i64, create_if_absent: bool) -> (r:
    Result<i64, ErrorKind>)
    ensures
        r == cas_outcome(current, from, to, create_if_absent),
{
    match current {
        Some(v) => if v == from {
            Ok(to)
        } else {
            Err(ErrorKind::PreconditionFailed)
        },
        None => if create_if_absent {
            Ok(to)
        } else {
            Err(ErrorKind::PreconditionFailed)
        },
    }
}

/// A swap succeeds exactly when the key holds the expected value, or holds
/// nothing and may be created; it then stores `to`, whatever `from` was.
/// Every other swap fails with `PreconditionFailed`.
pub proof fn lemma_cas_succeeds_iff_expected(
    current: Option<i64>,
    from: i64,
    to: i64,
    create_if_absent: bool,
)
    ensures
        cas_outcome(current, from, to, create_if_absent) is Ok <==> (current == Some(from) || (
        current is None && create_if_absent)),
        cas_outcome(current, from, to, create_if_absent) is Ok ==> cas_outcome(
            current,
            from,
            to,
            create_if_absent,
        ) == Ok::<i64, ErrorKind>(to),
        cas_outcome(current, from, to, create_if_absent) is Err ==> cas_outcome(
            current,
            from,
            to,
            create_if_absent,
        ) == Err::<i64, ErrorKind>(ErrorKind::PreconditionFailed),
{
}

/// A store held in memory that answers as the external store does.
pub struct MemStore {
    m: HashMap<u64, i64>,
}

impl View for MemStore {
    type V = Map<u64, i64>;

    closed spec fn view(&self) -> Map<u64, i64> {
        self.m@
    }
}

impl MemStore {
    /// A store with no keys.
    pub fn new() -> (s: MemStore)
        ensures
            s@ == Map::<u64, i64>::empty(),
    {
        MemStore { m: HashMap::new() }
    }

    /// The value of `key`, or `KeyNotFound`.
    pub fn read(&self, key: u64) -> (r: Result<i64, ErrorKind>)
        ensures
            self@.contains_key(key) ==> r == Ok::<i64, ErrorKind>(self@[key]),
            !self@.contains_key(key) ==> r == Err::<i64, ErrorKind>(ErrorKind::KeyNotFound),
    {
        match self.m.get(&key) {
            Some(v) => Ok(*v),
            None => Err(ErrorKind::KeyNotFound),
        }
    }

    /// Sets `key` to `value`, whatever it held.
    pub fn write(&mut self, key: u64, value: i64)
        ensures
            final(self)@ == old(self)@.insert(key, value),
    {
        self.m.insert(key, value);
    }

    /// Sets `key` to `to` where it holds `from`, or where it holds nothing
    /// and `create_if_absent` is set; otherwise fails and changes nothing.
    pub fn cas(&mut self, key: u64, from: i64, to: i64, create_if_absent: bool) -> (r: Result<
        (),
        ErrorKind,
    >)
        ensures
            ({
                let current = if old(self)@.contains_key(key) {
                    Some(old(self)@[key])
                } else {
                    None
                };
                match cas_outcome(current, from, to, create_if_absent) {
                    Ok(v) => r is Ok && final(self)@ == old(self)@.insert(key, v),
                    Err(e) => r == Err::<(), ErrorKind>(e) && final(self)@ == old(self)@,
                }
            }),
    {
        let current = match self.m.get(&key) {
            Some(v) => Some(*v),
            None => None,
        };
        match compare_and_swap(current, from, to, create_if_absent) {
            Ok(v) => {
                self.m.insert(key, v);
                Ok(())
            },
            Err(e) => Err(e),
        }
    }
}

} // verus!
