//! Points in time, counted from the Unix epoch.
use vstd::prelude::*;

verus! {

/// Nanoseconds in one second.
pub const NANOS_PER_SEC: u32 = 1_000_000_000;

/// A point in time: whole seconds since the Unix epoch and the
/// nanoseconds into the following second.
#[derive(Debug, Clone, Copy, PartialEq, Eq, Structural)]
pub struct Timestamp {
    secs: u64,
    nanos: u32,
}

/// Reads the system clock (`SystemTime::now`) as the time elapsed since
/// `UNIX_EPOCH`: whole seconds (`Duration::as_secs`) and the fraction of a
/// second in nanoseconds (`Duration::subsec_nanos`), which is below one
/// billion. `None` when the clock stands before the epoch. Nothing else
/// is claimed of the reading.
#[verifier::external_body]
fn read_system_clock() -> (r: Option<(u64, u32)>)
    ensures
        r matches Some(reading) ==> reading.1 < NANOS_PER_SEC,
{
    match std::time::SystemTime::now().duration_since(std::time::UNIX_EPOCH) {
        Ok(elapsed) => Some((elapsed.as_secs(), elapsed.subsec_nanos())),
        Err(_) => None,
    }
}

impl Timestamp {
    #[verifier::type_invariant]
    closed spec fn well_formed(self) -> bool {
        self.nanos < NANOS_PER_SEC
    }

    /// Whole seconds since the epoch.
    pub closed spec fn seconds(self) -> nat {
        self.secs as nat
    }

    /// Nanoseconds into the current second.
    pub closed spec fn subsec_nanos(self) -> nat {
        self.nanos as nat
    }

    /// Nanoseconds since the epoch.
    pub open spec fn total_nanos(self) -> nat {
        self.seconds() * 1_000_000_000 + self.subsec_nanos()
    }

    /// Milliseconds since the epoch, rounded down.
    pub open spec fn total_millis(self) -> nat {
        self.total_nanos() / 1_000_000
    }

    /// The epoch itself.
    pub fn epoch() -> (r: Self)
        ensures
            r.seconds() == 0,
            r.subsec_nanos() == 0,
    {
        Timestamp { secs: 0, nanos: 0 }
    }

    /// The point `secs` seconds and `nanos` nanoseconds after the epoch;
    /// `None` when `nanos` is a second or more.
    pub fn new(secs: u64, nanos: u32) -> (r: Option<Self>)
        ensures
            nanos < NANOS_PER_SEC ==> (r matches Some(t) && t.seconds() == secs
                && t.subsec_nanos() == nanos),
            nanos >= NANOS_PER_SEC ==> r is None,
    {
        if nanos < NANOS_PER_SEC {
            Some(Timestamp { secs, nanos })
        } else {
            None
        }
    }

    /// The point a clock reading stands for: the reading itself, or the
    /// epoch when the clock stands before it. A reading whose fraction
    /// is a second or more is no reading.
    pub fn from_reading(reading: Option<(u64, u32)>) -> (r: Self)
        ensures
            match reading {
                Some(pair) => if pair.1 < NANOS_PER_SEC {
                    r.seconds() == pair.0 && r.subsec_nanos() == pair.1
                } else {
                    r.seconds() == 0 && r.subsec_nanos() == 0
                },
                None => r.seconds() == 0 && r.subsec_nanos() == 0,
            },
    {
        match reading {
            Some(pair) => match Timestamp::new(pair.0, pair.1) {
                Some(at) => at,
                None => Timestamp::epoch(),
            },
            None => Timestamp::epoch(),
        }
    }

    /// The current time by the system clock.
    pub fn now() -> (r: Self) {
        Timestamp::from_reading(read_system_clock())
    }

    /// Whole seconds since the epoch.
    pub fn as_secs(&self) -> (r: u64)
        ensures
            r == self.seconds(),
    {
        self.secs
    }

    /// Milliseconds since the epoch, rounded down.
    pub fn as_millis(&self) -> (r: u128)
        ensures
            r == self.total_millis(),
    {
        proof {
            use_type_invariant(self);
        }
        let total: u128 = self.as_nanos();
        total / 1_000_000
    }

    /// Nanoseconds since the epoch.
    pub fn as_nanos(&self) -> (r: u128)
        ensures
            r == self.total_nanos(),
            self.subsec_nanos() < NANOS_PER_SEC,
    {
        proof {
            use_type_invariant(self);
        }
        let secs: u128 = self.secs as u128;
        let nanos: u128 = self.nanos as u128;
        secs * 1_000_000_000 + nanos
    }

    /// The nanoseconds from `earlier` to this point; `None` when `earlier`
    /// is in fact the later of the two.
    pub fn elapsed_since(&self, earlier: &Timestamp) -> (r: Option<u128>)
        ensures
            self.total_nanos() >= earlier.total_nanos() ==> (r matches Some(span) && span
                == self.total_nanos() - earlier.total_nanos()),
            self.total_nanos() < earlier.total_nanos() ==> r is None,
            r matches Some(span) ==> whole_seconds(span as nat) <= u64::MAX,
    {
        let later_total: u128 = self.as_nanos();
        let earlier_total: u128 = earlier.as_nanos();
        if later_total >= earlier_total {
            let span: u128 = later_total - earlier_total;
            Some(span)
        } else {
            None
        }
    }
}

/// Whole seconds in a span of nanoseconds.
pub open spec fn whole_seconds(nanos: nat) -> nat {
    nanos / 1_000_000_000
}

} // verus!
