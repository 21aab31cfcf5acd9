//! Points in time and lengths of time, counted in whole nanoseconds.

use vstd::prelude::*;

verus! {

/// The number of nanoseconds in one second.
pub const NANOS_PER_SEC: u128 = 1_000_000_000;

/// A length of time in nanoseconds.
#[derive(Clone, Copy, Debug, PartialEq, Eq, Structural)]
pub struct Span {
    pub nanos: u128,
}

/// A point in time: the nanoseconds that had passed since the Unix epoch.
#[derive(Clone, Copy, Debug, PartialEq, Eq, Structural)]
pub struct Timestamp {
    pub nanos: u128,
}

impl View for Span {
    type V = nat;

    open spec fn view(&self) -> nat {
        self.nanos as nat
    }
}

impl View for Timestamp {
    type V = nat;

    open spec fn view(&self) -> nat {
        self.nanos as nat
    }
}

/// The time that has passed at `now` since `earlier`; none where `now` is not
/// the later of the two.
pub open spec fn time_since(now: nat, earlier: nat) -> int {
    if now >= earlier {
        now - earlier
    } else {
        0
    }
}

/// What is left of `whole` when `gone` of it has passed; nothing once `gone`
/// has reached it.
pub open spec fn time_left(whole: int, gone: int) -> int {
    if whole > gone {
        whole - gone
    } else {
        0
    }
}

/// `std::time::SystemTime`, a reading of the system clock. It is carried from
/// one call to the next and never looked into.
#[verifier::external_type_specification]
#[verifier::external_body]
pub struct ExSystemTime(std::time::SystemTime);

/// Reads the system clock with `std::time::SystemTime::now`. The reading is
/// whatever the clock says: nothing is claimed of it.
#[verifier::external_body]
fn system_now() -> (reading: std::time::SystemTime) {
    std::time::SystemTime::now()
}

/// The time from the Unix epoch to `reading`, as
/// `std::time::SystemTime::duration_since` measures it from
/// `std::time::UNIX_EPOCH`; `None` where that call fails because the reading
/// lies before the epoch. Nothing is claimed of the length.
#[verifier::external_body]
fn since_epoch(reading: &std::time::SystemTime) -> (length: Option<std::time::Duration>) {
    match reading.duration_since(std::time::UNIX_EPOCH) {
        Ok(length) => Some(length),
        Err(_) => None,
    }
}

/// The nanoseconds of `length`, as `std::time::Duration::as_nanos` counts
/// them. Nothing is claimed of the count.
#[verifier::external_body]
fn whole_nanos(length: &std::time::Duration) -> (nanos: u128) {
    length.as_nanos()
}

impl Span {
    /// The span of `secs` whole seconds.
    pub fn from_secs(secs: u64) -> (span: Span)
        ensures
            span@ == secs as nat * NANOS_PER_SEC as nat,
    {
        let wide: u128 = secs as u128;
        Span { nanos: wide * NANOS_PER_SEC }
    }

    /// The whole seconds in this span, the rest dropped.
    pub fn as_secs(&self) -> (secs: u128)
        ensures
            secs as nat == self@ / (NANOS_PER_SEC as nat),
    {
        self.nanos / NANOS_PER_SEC
    }

    /// Whether this span is empty.
    pub fn is_zero(&self) -> (zero: bool)
        ensures
            zero == (self@ == 0),
    {
        self.nanos == 0
    }

    /// What is left of this span when `gone` of it has passed.
    pub fn left_after(&self, gone: Span) -> (left: Span)
        ensures
            left@ == time_left(self@ as int, gone@ as int),
    {
        if self.nanos > gone.nanos {
            Span { nanos: self.nanos - gone.nanos }
        } else {
            Span { nanos: 0 }
        }
    }
}

impl Timestamp {
    /// The present moment by the system clock. A clock that stands before the
    /// Unix epoch reads as the epoch itself.
    pub fn now() -> Timestamp {
        let reading = system_now();
        match since_epoch(&reading) {
            Some(length) => Timestamp::from_reading(Some(whole_nanos(&length))),
            None => Timestamp::from_reading(None),
        }
    }

    /// The moment that a reading of the clock stands for, where `since_epoch`
    /// holds the nanoseconds from the Unix epoch to the reading, and `None`
    /// for a reading that lies before the epoch: such a reading counts as
    /// the epoch itself.
    pub fn from_reading(since_epoch: Option<u128>) -> (moment: Timestamp)
        ensures
            moment@ == match since_epoch {
                Some(nanos) => nanos as nat,
                None => 0,
            },
    {
        match since_epoch {
            Some(nanos) => Timestamp { nanos },
            None => Timestamp { nanos: 0 },
        }
    }

    /// The time that has passed at this moment since `earlier`. A moment that
    /// is not later than `earlier` is no time after it: the clock may have
    /// been set back in between.
    pub fn since(&self, earlier: Timestamp) -> (passed: Span)
        ensures
            passed@ == time_since(self@, earlier@),
    {
        if self.nanos >= earlier.nanos {
            Span { nanos: self.nanos - earlier.nanos }
        } else {
            Span { nanos: 0 }
        }
    }
}

} // verus!
