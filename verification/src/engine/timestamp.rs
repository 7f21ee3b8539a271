//! Instants in UTC: readings of the system clock and their renderings through chrono.
use vstd::prelude::*;
use crate::error::{ShredError, ShredResult};

verus! {
/// Whether `chrono::DateTime::<Utc>::from_timestamp` accepts this pair of seconds and
/// nanoseconds since the Unix epoch.
pub uninterp spec fn utc_representable(secs: i64, nanos: u32) -> bool;

/// The `Display` text of the UTC date-time at this instant (as `2024-05-01 12:00:00.5 UTC`).
pub uninterp spec fn utc_display_text(secs: i64, nanos: u32) -> Seq<char>;

/// The text of the UTC date-time at this instant in the format `%Y-%m-%d %H:%M:%S`.
pub uninterp spec fn utc_format_text(secs: i64, nanos: u32) -> Seq<char>;

/// Whether chrono can represent the instant (`chrono::DateTime::<Utc>::from_timestamp` is `Some`).
#[verifier::external_body]
fn utc_check(secs: i64, nanos: u32) -> (b: bool)
    ensures
        b == utc_representable(secs, nanos),
{
    chrono::DateTime::from_timestamp(secs, nanos).is_some()
}

/// Reads the system clock against the Unix epoch: `SystemTime::now` and
/// `SystemTime::duration_since(UNIX_EPOCH)`, whose error, for a clock set before the
/// epoch, carries how far before (`SystemTimeError::duration`). Returns whether the clock
/// is before the epoch, and the whole seconds and nanoseconds of the distance.
///
/// Claims only what `Duration::subsec_nanos` documents: the nanoseconds are below one
/// second. The reading itself rests on the clock.
#[verifier::external_body]
fn clock_reading() -> (r: (bool, u64, u32))
    ensures
        r.2 < 1_000_000_000,
{
    match std::time::SystemTime::now().duration_since(std::time::UNIX_EPOCH) {
        Ok(d) => (false, d.as_secs(), d.subsec_nanos()),
        Err(e) => (true, e.duration().as_secs(), e.duration().subsec_nanos()),
    }
}

/// Makes an I/O error of kind `Other` with the given message (`std::io::Error::other`).
/// Nothing is claimed of the opaque value.
#[verifier::external_body]
fn other_io_error(message: String) -> std::io::Error {
    std::io::Error::other(message)
}

/// The instant, as signed seconds and nanoseconds, of a clock reading that lies `secs`
/// seconds and `nanos` nanoseconds after the Unix epoch, or before it.
pub open spec fn clock_instant(before_epoch: bool, secs: nat, nanos: nat) -> (int, int) {
    if !before_epoch {
        (secs as int, nanos as int)
    } else if nanos == 0 {
        (-(secs as int), 0)
    } else {
        (-(secs as int) - 1, 1_000_000_000 - nanos)
    }
}

/// Whether a signed instant fits the representation and chrono can represent it.
pub open spec fn clock_instant_usable(t: (int, int)) -> bool {
    &&& i64::MIN <= t.0 <= i64::MAX
    &&& 0 <= t.1 <= u32::MAX
    &&& utc_representable(t.0 as i64, t.1 as u32)
}

/// The message of a clock reading that cannot be represented.
pub open spec fn clock_range_text() -> Seq<char> {
    "system clock reading is outside the representable range"@
}

/// The `Display` text of a representable instant
/// (`<chrono::DateTime<Utc> as Display>::fmt`).
#[verifier::external_body]
fn utc_display(secs: i64, nanos: u32) -> (s: String)
    requires
        utc_representable(secs, nanos),
    ensures
        s@ == utc_display_text(secs, nanos),
{
    match chrono::DateTime::from_timestamp(secs, nanos) {
        Some(t) => t.to_string(),
        None => String::new(),
    }
}

/// The text of a representable instant in the format `%Y-%m-%d %H:%M:%S`
/// (`chrono::DateTime::<Utc>::format`).
#[verifier::external_body]
fn utc_format(secs: i64, nanos: u32) -> (s: String)
    requires
        utc_representable(secs, nanos),
    ensures
        s@ == utc_format_text(secs, nanos),
{
    match chrono::DateTime::from_timestamp(secs, nanos) {
        Some(t) => t.format("%Y-%m-%d %H:%M:%S").to_string(),
        None => String::new(),
    }
}

/// An instant in UTC, as seconds and nanoseconds since the Unix epoch.
#[derive(Clone, Copy, Debug)]
pub struct Timestamp {
    secs: i64,
    nanos: u32,
    taken_now: bool,
}

impl Timestamp {
    /// Only instants that chrono can represent are held.
    #[verifier::type_invariant]
    closed spec fn representable(&self) -> bool {
        utc_representable(self.secs, self.nanos)
    }

    /// Whole seconds since the Unix epoch.
    pub closed spec fn spec_secs(&self) -> i64 {
        self.secs
    }

    /// Nanoseconds past the whole second.
    pub closed spec fn spec_nanos(&self) -> u32 {
        self.nanos
    }

    /// Whether the instant is a reading of the system clock taken by `Timestamp::now`,
    /// rather than one built from given numbers.
    pub closed spec fn spec_taken_now(&self) -> bool {
        self.taken_now
    }

    /// The instant of a clock reading `secs` seconds and `nanos` nanoseconds after the
    /// Unix epoch, or before it when `before_epoch`. Fails with an I/O error when the
    /// instant cannot be represented.
    pub fn from_clock(before_epoch: bool, secs: u64, nanos: u32) -> (r: ShredResult<Timestamp>)
        requires
            nanos < 1_000_000_000,
        ensures
            r is Ok <==> clock_instant_usable(clock_instant(before_epoch, secs as nat, nanos as nat)),
            r matches Ok(t) ==> t.spec_secs() == clock_instant(before_epoch, secs as nat, nanos as nat).0
                && t.spec_nanos() == clock_instant(before_epoch, secs as nat, nanos as nat).1,
            r matches Ok(t) ==> !t.spec_taken_now(),
            r is Err ==> r matches Err(ShredError::Io(_)),
    {
        let ghost t = clock_instant(before_epoch, secs as nat, nanos as nat);
        let converted: Option<(i64, u32)> = if !before_epoch {
            if secs <= i64::MAX as u64 {
                Some((secs as i64, nanos))
            } else {
                None
            }
        } else if nanos == 0 {
            if secs <= i64::MAX as u64 {
                Some((-(secs as i64), 0))
            } else if secs == i64::MAX as u64 + 1 {
                Some((i64::MIN, 0))
            } else {
                None
            }
        } else if secs <= i64::MAX as u64 {
            Some((-(secs as i64) - 1, 1_000_000_000 - nanos))
        } else {
            None
        };
        match converted {
            Some((s, n)) => {
                if utc_check(s, n) {
                    return Ok(Timestamp { secs: s, nanos: n, taken_now: false });
                }
            },
            None => {},
        }
        Err(ShredError::Io(other_io_error(String::from_str("system clock reading is outside the representable range"))))
    }

    /// The current time, from the system clock; fails with an I/O error when chrono cannot
    /// represent the reading.
    pub fn now() -> (r: ShredResult<Timestamp>)
        ensures
            r matches Ok(t) ==> utc_representable(t.spec_secs(), t.spec_nanos()),
            r matches Ok(t) ==> t.spec_taken_now(),
            r matches Ok(t) ==> exists|before_epoch: bool, secs: nat, nanos: nat|
                nanos < 1_000_000_000 && #[trigger] clock_instant(before_epoch, secs, nanos) == (
                t.spec_secs() as int,
                t.spec_nanos() as int,
            ),
            r is Err ==> r matches Err(ShredError::Io(_)),
    {
        let (before_epoch, secs, nanos) = clock_reading();
        match Timestamp::from_clock(before_epoch, secs, nanos) {
            Ok(t) => {
                proof {
                    use_type_invariant(t);
                    assert(clock_instant(before_epoch, secs as nat, nanos as nat) == (
                        t.secs as int,
                        t.nanos as int,
                    ));
                }
                Ok(Timestamp { secs: t.secs, nanos: t.nanos, taken_now: true })
            },
            Err(e) => Err(e),
        }
    }

    /// The instant `secs` seconds and `nanos` nanoseconds after the Unix epoch, if chrono
    /// can represent it.
    pub fn from_unix(secs: i64, nanos: u32) -> (t: Option<Timestamp>)
        ensures
            t is Some <==> utc_representable(secs, nanos),
            t matches Some(t) ==> t.spec_secs() == secs && t.spec_nanos() == nanos,
            t matches Some(t) ==> !t.spec_taken_now(),
    {
        if utc_check(secs, nanos) {
            Some(Timestamp { secs, nanos, taken_now: false })
        } else {
            None
        }
    }

    /// Whole seconds since the Unix epoch.
    pub fn secs(&self) -> (s: i64)
        ensures
            s == self.spec_secs(),
    {
        self.secs
    }

    /// Nanoseconds past the whole second.
    pub fn nanos(&self) -> (n: u32)
        ensures
            n == self.spec_nanos(),
    {
        self.nanos
    }

    /// The instant as `Display` shows it.
    pub fn display(&self) -> (s: String)
        ensures
            s@ == utc_display_text(self.spec_secs(), self.spec_nanos()),
    {
        proof {
            use_type_invariant(self);
        }
        utc_display(self.secs, self.nanos)
    }

    /// The instant as `%Y-%m-%d %H:%M:%S`.
    pub fn format_seconds(&self) -> (s: String)
        ensures
            s@ == utc_format_text(self.spec_secs(), self.spec_nanos()),
    {
        proof {
            use_type_invariant(self);
        }
        utc_format(self.secs, self.nanos)
    }
}

} // verus!
