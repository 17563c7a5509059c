//! A service that echoes what it is given and counts how often it was asked.

use crate::di::Injectable;
use crate::text::{decimal, to_decimal};
use std::sync::atomic::AtomicU64;
use std::sync::atomic::Ordering;
use vstd::prelude::*;
use vstd::string::StringExecFns;

verus! {

/// What the echo endpoint answers.
#[derive(Debug)]
pub struct EchoResponse {
    /// The number of the call, a colon and a space, then the echoed value.
    pub data: String,
    /// The number of the call: 1 for the first.
    pub count: u64,
}

/// The text of the answer to call number `count` with `value`.
pub open spec fn echo_text(count: u64, value: Seq<char>) -> Seq<char> {
    decimal(count as nat) + ": "@ + value
}

/// The echo service. Its counter is shared by every holder of a handle and is
/// updated atomically, so that concurrent callers lose no count.
pub struct EchoService {
    call_count: AtomicU64,
}

impl Injectable for EchoService {

}

/// The count that follows `previous`: one more, and zero after the largest.
pub open spec fn count_after(previous: u64) -> int {
    if previous == u64::MAX {
        0
    } else {
        previous + 1
    }
}

impl EchoService {
    /// Whether the counter of the service was made with `count` in it.
    pub closed spec fn made_with(&self, count: u64) -> bool {
        call_ensures(AtomicU64::new, (count,), self.call_count)
    }

    /// Whether `count` is the number of a call that the service counted: the
    /// count that follows what the counter held when the call added one to
    /// it, atomically and in one order for all callers.
    pub closed spec fn counted(&self, count: u64) -> bool {
        exists|previous: u64| #[trigger]
            call_ensures(
                AtomicU64::fetch_add,
                (&self.call_count, 1u64, Ordering::SeqCst),
                previous,
            ) && count == count_after(previous)
    }

    /// A service that has not been called yet: its counter is made with zero
    /// in it.
    pub fn new() -> (service: Self)
        ensures
            service.made_with(0),
    {
        EchoService { call_count: AtomicU64::new(0) }
    }

    /// Counts the call and answers with the count and the value. Which count
    /// a call gets depends on the calls made before it on any handle.
    pub fn echo(&self, value: &str) -> (response: EchoResponse)
        ensures
            self.counted(response.count),
            response.data@ == echo_text(response.count, value@),
    {
        let count = self.increment_counter();
        self.create_response(value, count)
    }

    /// Adds one to the counter and returns the new count. After the largest
    /// count the counter starts again at zero.
    fn increment_counter(&self) -> (count: u64)
        ensures
            self.counted(count),
    {
        let previous = self.call_count.fetch_add(1, Ordering::SeqCst);
        previous.wrapping_add(1)
    }

    /// The answer to call number `count` with `value`.
    pub fn create_response(&self, value: &str, count: u64) -> (response: EchoResponse)
        ensures
            response.count == count,
            response.data@ == echo_text(count, value@),
    {
        let mut data = to_decimal(count);
        data.append(": ");
        data.append(value);
        EchoResponse { data, count }
    }
}

} // verus!
