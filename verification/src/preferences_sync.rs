//! Local bookkeeping of preference changes and synchronisations, and the
//! timestamp arithmetic that compares local and remote changes.
use crate::text::{chars_of, trim, trimmed};
use vstd::prelude::*;

verus! {

/// When the local preferences last changed, when they were last synchronised,
/// and how many local changes were ever recorded.
#[derive(Clone, Copy, Debug, Default, PartialEq, Eq, Structural)]
pub struct LocalSyncMeta {
    pub updated_at_secs: Option<u64>,
    pub synced_at_secs: Option<u64>,
    pub sequence: u64,
}

impl LocalSyncMeta {
    /// The bookkeeping of a store that has never been written.
    pub fn empty() -> (m: Self)
        ensures
            m == (LocalSyncMeta { updated_at_secs: None, synced_at_secs: None, sequence: 0 }),
    {
        LocalSyncMeta { updated_at_secs: None, synced_at_secs: None, sequence: 0 }
    }
}

/// The bookkeeping store of one preferences file. Reading and writing the
/// file is the caller's part; the store decides what is written.
pub struct PreferencesSyncStore {
    path: String,
}

/// What a missing or unreadable store counts as.
pub open spec fn loaded_or_empty(current: Option<LocalSyncMeta>) -> LocalSyncMeta {
    match current {
        Some(m) => m,
        None => LocalSyncMeta { updated_at_secs: None, synced_at_secs: None, sequence: 0 },
    }
}

impl PreferencesSyncStore {
    pub fn new(path: String) -> (store: Self)
        ensures
            store.path_view() == path@,
    {
        PreferencesSyncStore { path }
    }

    pub closed spec fn path_view(&self) -> Seq<char> {
        self.path@
    }

    /// The file the bookkeeping lives in.
    pub fn path(&self) -> (p: &str)
        ensures
            p@ == self.path_view(),
    {
        self.path.as_str()
    }

    /// The bookkeeping to write after a local change at `updated_at_secs`,
    /// given what the store held (`None` when it was absent or unreadable):
    /// the change time is replaced, the sequence counts one more change and
    /// the synchronisation time is kept.
    pub fn record_change(&self, current: Option<LocalSyncMeta>, updated_at_secs: u64) -> (next:
        LocalSyncMeta)
        requires
            loaded_or_empty(current).sequence < u64::MAX,
        ensures
            next.updated_at_secs == Some(updated_at_secs),
            next.synced_at_secs == loaded_or_empty(current).synced_at_secs,
            next.sequence == loaded_or_empty(current).sequence + 1,
    {
        let mut meta = match current {
            Some(m) => m,
            None => LocalSyncMeta::empty(),
        };
        meta.updated_at_secs = Some(updated_at_secs);
        meta.sequence = meta.sequence + 1;
        meta
    }

    /// The bookkeeping to write after a synchronisation at `synced_at_secs`:
    /// only the synchronisation time changes.
    pub fn record_synced(&self, current: Option<LocalSyncMeta>, synced_at_secs: u64) -> (next:
        LocalSyncMeta)
        ensures
            next.updated_at_secs == loaded_or_empty(current).updated_at_secs,
            next.synced_at_secs == Some(synced_at_secs),
            next.sequence == loaded_or_empty(current).sequence,
    {
        let mut meta = match current {
            Some(m) => m,
            None => LocalSyncMeta::empty(),
        };
        meta.synced_at_secs = Some(synced_at_secs);
        meta
    }
}

/// The current time in whole seconds since the Unix epoch, by the system
/// clock (`std::time::SystemTime::now`); 0 when the clock reads before the
/// epoch. Nothing is stated of the value: it is the time.
#[verifier::external_body]
pub fn epoch_secs_now() -> u64 {
    std::time::SystemTime::now().duration_since(std::time::UNIX_EPOCH).map(|d| d.as_secs()).unwrap_or(0)
}

pub open spec fn is_digit(c: char) -> bool {
    '0' <= c && c <= '9'
}

/// The decimal value of a string of digits.
pub open spec fn digits_value(s: Seq<char>) -> nat
    decreases s.len(),
{
    if s.len() == 0 {
        0
    } else {
        digits_value(s.drop_last()) * 10 + ((s.last() as nat) - ('0' as nat)) as nat
    }
}

/// What `u64::from_str` makes of a short field: an optional `+` followed by
/// at least one digit and nothing else.
pub open spec fn field_value(f: Seq<char>) -> Option<nat> {
    let d = field_digits(f);
    if d.len() > 0 && all_digits(d) {
        Some(digits_value(d))
    } else {
        None
    }
}

/// A field without its optional leading `+`.
pub open spec fn field_digits(f: Seq<char>) -> Seq<char> {
    if f.len() > 0 && f[0] == '+' {
        f.drop_first()
    } else {
        f
    }
}

pub open spec fn all_digits(d: Seq<char>) -> bool {
    forall|i: int| 0 <= i < d.len() ==> is_digit(#[trigger] d[i])
}

/// A character encoded in one byte of UTF-8.
pub open spec fn is_ascii_char(c: char) -> bool {
    c <= '\x7f'
}

/// The six numeric fields of an ISO 8601 UTC timestamp
/// `YYYY-MM-DDTHH:MM:SS...`, read at their fixed byte positions after
/// trimming: the five separators must be single bytes, so that the fields
/// start where they are read; what the separators are and anything after
/// the seconds are not read.
pub open spec fn iso_fields(s: Seq<char>) -> Option<(nat, nat, nat, nat, nat, nat)> {
    let t = trim(s);
    if t.len() < 19 || !(is_ascii_char(t[4]) && is_ascii_char(t[7]) && is_ascii_char(t[10])
        && is_ascii_char(t[13]) && is_ascii_char(t[16])) {
        None
    } else {
        match (
            field_value(t.subrange(0, 4)),
            field_value(t.subrange(5, 7)),
            field_value(t.subrange(8, 10)),
            field_value(t.subrange(11, 13)),
            field_value(t.subrange(14, 16)),
            field_value(t.subrange(17, 19)),
        ) {
            (Some(y), Some(mo), Some(d), Some(h), Some(mi), Some(se)) => Some((y, mo, d, h, mi, se)),
            _ => None,
        }
    }
}

/// Days from 1970-01-01 to the given proleptic Gregorian date, by the
/// era-based civil calendar formula (months are counted from March so that
/// the leap day ends a year); `None` before 1970-01-01 or for month 1 or 2 of
/// year 0.
pub open spec fn civil_days(year: int, month: int, day: int) -> Option<int> {
    if month <= 2 && year < 1 {
        None
    } else {
        let y = if month <= 2 {
            year - 1
        } else {
            year
        };
        let m = if month <= 2 {
            month + 9
        } else {
            month - 3
        };
        let era = y / 400;
        let yoe = y - era * 400;
        let doy = (153 * m + 2) / 5 + day - 1;
        let doe = yoe * 365 + yoe / 4 - yoe / 100 + doy;
        let days = era * 146097 + doe;
        if days >= 719468 {
            Some(days - 719468)
        } else {
            None
        }
    }
}

/// Seconds since the Unix epoch of a timestamp, when its fields parse and its
/// date is not before the epoch.
pub open spec fn iso_seconds(s: Seq<char>) -> Option<int> {
    match iso_fields(s) {
        Some((y, mo, d, h, mi, se)) => match civil_days(y as int, mo as int, d as int) {
            Some(days) => Some(days * 86400 + h * 3600 + mi * 60 + se),
            None => None,
        },
        None => None,
    }
}

pub open spec fn pow10(n: nat) -> nat
    decreases n,
{
    if n == 0 {
        1
    } else {
        10 * pow10((n - 1) as nat)
    }
}

/// The value of `v[from..to]` as a field (at most four characters).
fn parse_field(v: &Vec<char>, from: usize, to: usize) -> (r: Option<u64>)
    requires
        from <= to <= v.len(),
        to - from <= 4,
    ensures
        match field_value(v@.subrange(from as int, to as int)) {
            Some(n) => r == Some(n as u64) && n < 10000 && (to - from <= 2 ==> n < 100),
            None => r is None,
        },
{
    let ghost f = v@.subrange(from as int, to as int);
    let mut start = from;
    if start < to && v[start] == '+' {
        start = start + 1;
    }
    let ghost d = v@.subrange(start as int, to as int);
    assert(d == field_digits(f)) by {
        if f.len() > 0 && f[0] == '+' {
            assert(d =~= f.drop_first());
        } else {
            assert(d =~= f);
        }
    }
    if start == to {
        return None;
    }
    let mut val: u64 = 0;
    let mut i = start;
    assert(v@.subrange(start as int, start as int) =~= Seq::<char>::empty());
    while i < to
        invariant
            start <= i <= to <= v.len(),
            to - start <= 4,
            to - from <= 4,
            d == v@.subrange(start as int, to as int),
            f == v@.subrange(from as int, to as int),
            d == field_digits(f),
            forall|k: int| start <= k < i ==> is_digit(#[trigger] v@[k]),
            val == digits_value(v@.subrange(start as int, i as int)),
            val < pow10((i - start) as nat),
        decreases to - i,
    {
        let c = v[i];
        if !('0' <= c && c <= '9') {
            assert(!is_digit(d[i - start]));
            assert(!all_digits(d));
            return None;
        }
        let digit: u64 = (c as u64) - ('0' as u64);
        proof {
            let s2 = v@.subrange(start as int, i + 1);
            assert(s2.drop_last() =~= v@.subrange(start as int, i as int));
            assert(pow10((i + 1 - start) as nat) == 10 * pow10((i - start) as nat));
            reveal_with_fuel(pow10, 5);
            assert(pow10((i - start) as nat) <= 1000);
        }
        val = val * 10 + digit;
        i = i + 1;
    }
    proof {
        assert(v@.subrange(start as int, to as int) == d);
        assert forall|k: int| 0 <= k < d.len() implies is_digit(#[trigger] d[k]) by {
            assert(d[k] == v@[start + k]);
        }
        reveal_with_fuel(pow10, 5);
        assert(to - start <= 2 ==> pow10((to - start) as nat) <= 100);
    }
    Some(val)
}

/// Days from 1970-01-01 to a date given by its year, month and day fields.
fn civil_to_days(year: u64, month: u64, day: u64) -> (r: Option<u64>)
    requires
        year < 10000,
        month < 100,
        day < 100,
    ensures
        match civil_days(year as int, month as int, day as int) {
            Some(n) => r == Some(n as u64),
            None => r is None,
        },
        r matches Some(n) ==> n <= 4_000_000,
        civil_days(year as int, month as int, day as int) matches Some(n) ==> 0 <= n <= 4_000_000,
{
    let (y, m) = if month <= 2 {
        if year == 0 {
            return None;
        }
        (year - 1, month + 9)
    } else {
        (year, month - 3)
    };
    let era = y / 400;
    let yoe = y - era * 400;
    assert(yoe < 400) by (nonlinear_arith)
        requires
            era == y / 400,
            yoe == y - era * 400,
    ;
    assert((153 * m + 2) / 5 <= 3306) by (nonlinear_arith)
        requires
            m <= 108,
    ;
    assert(yoe * 365 < 146000 && yoe / 100 <= yoe / 4) by (nonlinear_arith)
        requires
            yoe < 400,
    ;
    assert(era <= 25) by (nonlinear_arith)
        requires
            era == y / 400,
            y < 10000,
    ;
    assert(era * 146097 <= 3652425) by (nonlinear_arith)
        requires
            era <= 25,
    ;
    // The day of the year is `(153 * m + 2) / 5 + day - 1`; the subtraction
    // is deferred so that no intermediate value is negative.
    let added = era * 146097 + yoe * 365 + yoe / 4 + (153 * m + 2) / 5 + day;
    let removed = yoe / 100 + 1 + 719468;
    if added >= removed {
        Some(added - removed)
    } else {
        None
    }
}

/// Seconds since the Unix epoch of an ISO 8601 UTC timestamp such as
/// `2026-07-25T00:00:00Z` (fractional seconds and the zone are not read).
pub fn parse_iso8601_utc_secs(s: &str) -> (r: Option<u64>)
    ensures
        match iso_seconds(s@) {
            Some(n) => r == Some(n as u64) && 0 <= n <= u64::MAX,
            None => r is None,
        },
{
    let t = trimmed(s);
    let v = chars_of(t.as_str());
    if v.len() < 19 {
        return None;
    }
    if !(v[4] <= '\x7f' && v[7] <= '\x7f' && v[10] <= '\x7f' && v[13] <= '\x7f' && v[16]
        <= '\x7f') {
        return None;
    }
    let year = match parse_field(&v, 0, 4) {
        Some(x) => x,
        None => return None,
    };
    let month = match parse_field(&v, 5, 7) {
        Some(x) => x,
        None => return None,
    };
    let day = match parse_field(&v, 8, 10) {
        Some(x) => x,
        None => return None,
    };
    let hour = match parse_field(&v, 11, 13) {
        Some(x) => x,
        None => return None,
    };
    let minute = match parse_field(&v, 14, 16) {
        Some(x) => x,
        None => return None,
    };
    let second = match parse_field(&v, 17, 19) {
        Some(x) => x,
        None => return None,
    };
    let days = match civil_to_days(year, month, day) {
        Some(x) => x,
        None => return None,
    };
    Some(days * 86400 + hour * 3600 + minute * 60 + second)
}

} // verus!
