//! A request timeout, held as whole seconds and the nanoseconds beyond them.
use vstd::prelude::*;

verus! {

pub const NANOS_PER_SEC: u32 = 1_000_000_000;

pub const NANOS_PER_MILLI: u32 = 1_000_000;

pub const MILLIS_PER_SEC: u64 = 1000;

/// The timeout that `millis` milliseconds make.
pub open spec fn millis_timeout(millis: nat) -> Timeout {
    Timeout {
        secs: (millis / MILLIS_PER_SEC as nat) as u64,
        nanos: ((millis % MILLIS_PER_SEC as nat) * NANOS_PER_MILLI as nat) as u32,
    }
}

#[derive(Clone, Copy, Debug, PartialEq, Eq)]
pub struct Timeout {
    pub secs: u64,
    pub nanos: u32,
}

impl Timeout {
    /// The nanoseconds part is below one second.
    pub open spec fn wf(&self) -> bool {
        self.nanos < NANOS_PER_SEC
    }

    /// The length of the timeout in nanoseconds.
    pub open spec fn total_nanos(&self) -> nat {
        self.secs as nat * NANOS_PER_SEC as nat + self.nanos as nat
    }

    pub fn new(secs: u64, nanos: u32) -> (r: Timeout)
        requires
            nanos < NANOS_PER_SEC,
        ensures
            r.wf(),
            r.secs == secs && r.nanos == nanos,
    {
        Timeout { secs, nanos }
    }

    pub fn from_secs(secs: u64) -> (r: Timeout)
        ensures
            r.wf(),
            r.total_nanos() == secs as nat * NANOS_PER_SEC as nat,
            r.secs == secs && r.nanos == 0,
    {
        Timeout { secs, nanos: 0 }
    }

    pub fn from_millis(millis: u64) -> (r: Timeout)
        ensures
            r.wf(),
            r.total_nanos() == millis as nat * NANOS_PER_MILLI as nat,
            r == millis_timeout(millis as nat),
    {
        let secs = millis / MILLIS_PER_SEC;
        let rest = millis % MILLIS_PER_SEC;
        let nanos = (rest as u32) * NANOS_PER_MILLI;
        assert(millis == secs * 1000 + rest);
        assert(millis as nat * 1_000_000 == secs as nat * 1_000_000_000 + rest as nat * 1_000_000)
            by (nonlinear_arith)
            requires
                millis == secs * 1000 + rest,
        ;
        Timeout { secs, nanos }
    }

    pub fn as_secs(&self) -> (r: u64)
        ensures
            r == self.secs,
    {
        self.secs
    }

    pub fn subsec_nanos(&self) -> (r: u32)
        ensures
            r == self.nanos,
    {
        self.nanos
    }
}

} // verus!
