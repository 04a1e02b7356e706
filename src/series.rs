//! Time-series responses: a time axis and, per variable, its samples; and the units that go
//! with them.
use vstd::prelude::*;
use vstd::string::StringExecFns;

use crate::current::CurrentVariable;
use crate::daily::DailyVariable;
use crate::error::DecodeError;
use crate::hourly::HourlyVariable;
use crate::variable::{decode_outcome, Token, Variable};
use crate::varmap::VariableMap;

verus! {

/// A value as it stands under a key of a response object. The sample type `T` is left to the
/// caller; a number also carries its reading as a whole number, where it is one.
pub enum Field<T> {
    /// A string.
    Text(String),
    /// A number, with its value as a whole number where it is one.
    Number(T, Option<usize>),
    /// A non-empty list of strings.
    Texts(Vec<String>),
    /// A list of numbers, or the empty list.
    Numbers(Vec<T>),
    /// Anything else (null, an object, a mixed list).
    Other,
}

/// An hourly or daily block of a response: the time axis and, per variable, one sample per
/// entry of the time axis.
pub struct SeriesData<V, T> {
    pub time: Vec<String>,
    pub data: VariableMap<V, Vec<T>>,
}

/// The hourly block of a forecast.
pub type HourlyData<T> = SeriesData<HourlyVariable, T>;

/// The daily block of a forecast.
pub type DailyData<T> = SeriesData<DailyVariable, T>;

/// The current-conditions block of a response: one timestamp, the length of the interval it
/// covers in seconds, and one sample per variable.
pub struct CurrentData<V, T> {
    pub time: String,
    pub interval: usize,
    pub data: VariableMap<V, T>,
}

/// The key under which a response carries its time axis.
pub open spec fn time_key() -> Seq<char> {
    "time"@
}

/// The key under which current conditions carry the length of their interval.
pub open spec fn interval_key() -> Seq<char> {
    "interval"@
}

/// The error owed for a key whose value has the wrong shape.
pub open spec fn is_unexpected(e: DecodeError, k: Seq<char>) -> bool {
    match e {
        DecodeError::UnexpectedValue(s) => s@ == k,
        _ => false,
    }
}

/// The error owed for a variable key that does not decode.
pub open spec fn is_key_error<V: Variable>(e: DecodeError, k: Seq<char>) -> bool {
    decode_outcome(Err::<V, DecodeError>(e), k, V::named_by(k), V::level_shaped(k))
}

// ---------------------------------------------------------------- series blocks

/// Whether a value is a list of strings (the empty list included).
pub open spec fn is_text_list<T>(f: Field<T>) -> bool {
    f is Texts || (f is Numbers && f->Numbers_0@.len() == 0)
}

/// The strings of a list of strings.
pub open spec fn text_list<T>(f: Field<T>) -> Seq<String> {
    match f {
        Field::Texts(ts) => ts@,
        _ => Seq::empty(),
    }
}

/// Whether an entry of a series block is acceptable: the time axis is a list of strings,
/// every other key names a variable and holds a list of numbers.
pub open spec fn series_entry_ok<V: Variable, T>(e: (String, Field<T>)) -> bool {
    if e.0@ == time_key() {
        is_text_list(e.1)
    } else {
        V::named_by(e.0@) is Some && e.1 is Numbers
    }
}

/// The error that an unacceptable entry of a series block gives.
pub open spec fn series_entry_error<V: Variable, T>(e: (String, Field<T>), err: DecodeError) -> bool {
    if e.0@ == time_key() || V::named_by(e.0@) is Some {
        is_unexpected(err, e.0@)
    } else {
        is_key_error::<V>(err, e.0@)
    }
}

/// The time axis of a series block: the last `time` entry.
pub open spec fn series_time<T>(fs: Seq<(String, Field<T>)>) -> Option<Seq<String>>
    decreases fs.len(),
{
    if fs.len() == 0 {
        None
    } else if fs.last().0@ == time_key() && is_text_list(fs.last().1) {
        Some(text_list(fs.last().1))
    } else {
        series_time(fs.drop_last())
    }
}

/// The samples of a series block per variable: for each variable, the last entry that names it.
pub open spec fn series_samples<V: Variable, T>(fs: Seq<(String, Field<T>)>) -> Map<V, Vec<T>>
    decreases fs.len(),
{
    if fs.len() == 0 {
        Map::empty()
    } else {
        let e = fs.last();
        let rest = series_samples::<V, T>(fs.drop_last());
        if e.0@ != time_key() && V::named_by(e.0@) is Some && e.1 is Numbers {
            rest.insert(V::named_by(e.0@)->Some_0, e.1->Numbers_0)
        } else {
            rest
        }
    }
}

/// Every variable holds one sample per entry of the time axis.
pub open spec fn aligned<V, T>(time: Seq<String>, samples: Map<V, Vec<T>>) -> bool {
    forall|v: V| #[trigger] samples.contains_key(v) ==> samples[v]@.len() == time.len()
}

/// What decoding the entries `fs` of a series block owes: success exactly when every entry is
/// acceptable, there is a time axis and every variable is aligned with it; otherwise the error
/// of the first unacceptable entry, else a missing time axis, else a length mismatch.
pub open spec fn series_outcome<V: Variable, T>(
    fs: Seq<(String, Field<T>)>,
    r: Result<SeriesData<V, T>, DecodeError>,
) -> bool {
    if exists|j: int| 0 <= j < fs.len() && !series_entry_ok::<V, T>(#[trigger] fs[j]) {
        exists|j: int|
            0 <= j < fs.len() && !series_entry_ok::<V, T>(#[trigger] fs[j]) && (forall|i: int|
                0 <= i < j ==> series_entry_ok::<V, T>(#[trigger] fs[i])) && match r {
                Ok(_) => false,
                Err(err) => series_entry_error::<V, T>(fs[j], err),
            }
    } else {
        match series_time(fs) {
            None => r == Err::<SeriesData<V, T>, DecodeError>(DecodeError::TimeAxisMissing),
            Some(time) => if aligned(time, series_samples::<V, T>(fs)) {
                match r {
                    Ok(d) => d.time@ == time && d.data.wf() && d.data@ == series_samples::<V, T>(fs),
                    Err(_) => false,
                }
            } else {
                r == Err::<SeriesData<V, T>, DecodeError>(DecodeError::LengthMismatch)
            },
        }
    }
}

/// Decodes the entries of an hourly or daily block. The `time` entry becomes the time axis;
/// every other key is decoded as a variable of the catalog `V`, whose samples must match the
/// time axis in number.
pub fn decode_series<V: Variable, T>(fields: Vec<(String, Field<T>)>) -> (r: Result<
    SeriesData<V, T>,
    DecodeError,
>)
    ensures
        series_outcome(fields@, r),
{
    let time_name = String::from_str("time");
    let mut rest = fields;
    let mut time: Option<Vec<String>> = None;
    let mut data: VariableMap<V, Vec<T>> = VariableMap::new();
    let ghost mut i: int = 0;
    while rest.len() > 0
        invariant
            0 <= i <= fields@.len(),
            rest@ == fields@.skip(i),
            time_name@ == time_key(),
            match time {
                Some(ts) => series_time(fields@.take(i)) == Some(ts@),
                None => series_time(fields@.take(i)) is None,
            },
            data.wf(),
            data@ == series_samples::<V, T>(fields@.take(i)),
            forall|j: int| 0 <= j < i ==> series_entry_ok::<V, T>(#[trigger] fields@[j]),
        decreases rest@.len(),
    {
        let ghost before = rest@;
        let (k, f) = rest.remove(0);
        assert(fields@[i] == before[0]);
        assert(fields@.take(i + 1).drop_last() =~= fields@.take(i));
        assert(fields@.take(i + 1).last() == fields@[i]);
        if k == time_name {
            match f {
                Field::Texts(ts) => {
                    time = Some(ts);
                },
                Field::Numbers(xs) if xs.len() == 0 => {
                    time = Some(Vec::new());
                    assert(time->Some_0@ =~= Seq::<String>::empty());
                },
                _ => {
                    let err = DecodeError::UnexpectedValue(k);
                    proof {
                        assert(!series_entry_ok::<V, T>(fields@[i]));
                        assert(series_entry_error::<V, T>(fields@[i], err));
                        assert(forall|m: int| 0 <= m < i ==> series_entry_ok::<V, T>(#[trigger] fields@[m]));

                    }
                    return Err(err);
                },
            }
        } else {
            match V::decode(k.as_str()) {
                Err(e) => {
                    proof {
                        assert(!series_entry_ok::<V, T>(fields@[i]));
                        assert(series_entry_error::<V, T>(fields@[i], e));
                    }
                    return Err(e);
                },
                Ok(v) => match f {
                    Field::Numbers(xs) => {
                        data.insert(v, xs);
                    },
                    _ => {
                        proof {
                            assert(!series_entry_ok::<V, T>(fields@[i]));
                        }
                        return Err(DecodeError::UnexpectedValue(k));
                    },
                },
            }
        }
        proof {
            i = i + 1;
        }
        assert(rest@ =~= fields@.skip(i));
    }
    assert(fields@.take(i) =~= fields@);
    match time {
        None => Err(DecodeError::TimeAxisMissing),
        Some(ts) => {
            let entries = data.entries();
            let mut j: usize = 0;
            while j < entries.len()
                invariant
                    j <= entries@.len(),
                    series_time(fields@) == Some(ts@),
                    data@ == series_samples::<V, T>(fields@),
                    forall|m: int| 0 <= m < fields@.len() ==> series_entry_ok::<V, T>(#[trigger] fields@[m]),
                    forall|m: int|
                        0 <= m < entries@.len() ==> data@.contains_key(#[trigger] entries@[m].0)
                            && data@[entries@[m].0] == entries@[m].1,
                    forall|v: V| #[trigger]
                        data@.contains_key(v) ==> exists|m: int| 0 <= m < entries@.len() && entries@[m].0 == v,
                    forall|m: int| 0 <= m < j ==> (#[trigger] entries@[m]).1@.len() == ts@.len(),
                decreases entries@.len() - j,
            {
                if entries[j].1.len() != ts.len() {
                    proof {
                        let v = entries@[j as int].0;
                        assert(data@.contains_key(v) && data@[v] == entries@[j as int].1);
                        assert(!aligned(ts@, data@));
                    }
                    return Err(DecodeError::LengthMismatch);
                }
                j = j + 1;
            }
            assert forall|v: V| #[trigger] data@.contains_key(v) implies data@[v]@.len() == ts@.len() by {
                let m = choose|m: int| 0 <= m < entries@.len() && entries@[m].0 == v;
                assert(entries@[m].1@.len() == ts@.len());
            }
            Ok(SeriesData { time: ts, data })
        },
    }
}


/// A series block in which some variable holds a different number of samples than the time
/// axis has entries never decodes: it is neither truncated nor padded.
pub proof fn lemma_misaligned_fails<V: Variable, T>(
    fs: Seq<(String, Field<T>)>,
    r: Result<SeriesData<V, T>, DecodeError>,
    v: V,
)
    requires
        series_outcome(fs, r),
        series_time(fs) is Some,
        series_samples::<V, T>(fs).contains_key(v),
        series_samples::<V, T>(fs)[v]@.len() != series_time(fs)->Some_0.len(),
    ensures
        r is Err,
{
}

// ---------------------------------------------------------------- current conditions

/// Whether an entry of a current-conditions block is acceptable: `time` is a string,
/// `interval` a whole number, and every other key names a variable and holds a number.
pub open spec fn current_entry_ok<V: Variable, T>(e: (String, Field<T>)) -> bool {
    if e.0@ == time_key() {
        e.1 is Text
    } else if e.0@ == interval_key() {
        e.1 is Number && e.1->Number_1 is Some
    } else {
        V::named_by(e.0@) is Some && e.1 is Number
    }
}

/// The error that an unacceptable entry of a current-conditions block gives.
pub open spec fn current_entry_error<V: Variable, T>(e: (String, Field<T>), err: DecodeError) -> bool {
    if e.0@ == time_key() || e.0@ == interval_key() || V::named_by(e.0@) is Some {
        is_unexpected(err, e.0@)
    } else {
        is_key_error::<V>(err, e.0@)
    }
}

/// The timestamp of a current-conditions block: the last `time` entry.
pub open spec fn current_time<T>(fs: Seq<(String, Field<T>)>) -> Option<String>
    decreases fs.len(),
{
    if fs.len() == 0 {
        None
    } else if fs.last().0@ == time_key() && fs.last().1 is Text {
        Some(fs.last().1->Text_0)
    } else {
        current_time(fs.drop_last())
    }
}

/// The interval of a current-conditions block: the last `interval` entry.
pub open spec fn current_interval<T>(fs: Seq<(String, Field<T>)>) -> Option<usize>
    decreases fs.len(),
{
    if fs.len() == 0 {
        None
    } else if fs.last().0@ == interval_key() && fs.last().1 is Number && fs.last().1->Number_1 is Some {
        fs.last().1->Number_1
    } else {
        current_interval(fs.drop_last())
    }
}

/// The sample of each variable of a current-conditions block: the last entry that names it.
pub open spec fn current_samples<V: Variable, T>(fs: Seq<(String, Field<T>)>) -> Map<V, T>
    decreases fs.len(),
{
    if fs.len() == 0 {
        Map::empty()
    } else {
        let e = fs.last();
        let rest = current_samples::<V, T>(fs.drop_last());
        if e.0@ != time_key() && e.0@ != interval_key() && V::named_by(e.0@) is Some
            && e.1 is Number {
            rest.insert(V::named_by(e.0@)->Some_0, e.1->Number_0)
        } else {
            rest
        }
    }
}

/// What decoding the entries `fs` of a current-conditions block owes: success exactly when
/// every entry is acceptable and both `time` and `interval` are present; otherwise the error of
/// the first unacceptable entry, else a missing time, else a missing interval.
pub open spec fn current_outcome<V: Variable, T>(
    fs: Seq<(String, Field<T>)>,
    r: Result<CurrentData<V, T>, DecodeError>,
) -> bool {
    if exists|j: int| 0 <= j < fs.len() && !current_entry_ok::<V, T>(#[trigger] fs[j]) {
        exists|j: int|
            0 <= j < fs.len() && !current_entry_ok::<V, T>(#[trigger] fs[j]) && (forall|i: int|
                0 <= i < j ==> current_entry_ok::<V, T>(#[trigger] fs[i])) && match r {
                Ok(_) => false,
                Err(err) => current_entry_error::<V, T>(fs[j], err),
            }
    } else {
        match (current_time(fs), current_interval(fs)) {
            (None, _) => r == Err::<CurrentData<V, T>, DecodeError>(DecodeError::TimeAxisMissing),
            (Some(_), None) => r == Err::<CurrentData<V, T>, DecodeError>(
                DecodeError::IntervalMissing,
            ),
            (Some(time), Some(interval)) => match r {
                Ok(d) => d.time == time && d.interval == interval && d.data.wf() && d.data@
                    == current_samples::<V, T>(fs),
                Err(_) => false,
            },
        }
    }
}

/// Decodes the entries of a current-conditions block. `time` and `interval` become fields of
/// their own; every other key is decoded as a variable of the catalog `V`.
pub fn decode_current<V: Variable, T>(fields: Vec<(String, Field<T>)>) -> (r: Result<
    CurrentData<V, T>,
    DecodeError,
>)
    ensures
        current_outcome(fields@, r),
{
    let time_name = String::from_str("time");
    let interval_name = String::from_str("interval");
    let mut rest = fields;
    let mut time: Option<String> = None;
    let mut interval: Option<usize> = None;
    let mut data: VariableMap<V, T> = VariableMap::new();
    let ghost mut i: int = 0;
    while rest.len() > 0
        invariant
            0 <= i <= fields@.len(),
            rest@ == fields@.skip(i),
            time_name@ == time_key(),
            interval_name@ == interval_key(),
            time == current_time(fields@.take(i)),
            interval == current_interval(fields@.take(i)),
            data.wf(),
            data@ == current_samples::<V, T>(fields@.take(i)),
            forall|j: int| 0 <= j < i ==> current_entry_ok::<V, T>(#[trigger] fields@[j]),
        decreases rest@.len(),
    {
        let ghost before = rest@;
        let (k, f) = rest.remove(0);
        assert(fields@[i] == before[0]);
        assert(fields@.take(i + 1).drop_last() =~= fields@.take(i));
        assert(fields@.take(i + 1).last() == fields@[i]);
        proof {
            reveal_strlit("time");
            reveal_strlit("interval");
        }
        if k == time_name {
            match f {
                Field::Text(t) => {
                    time = Some(t);
                },
                _ => {
                    proof {
                        assert(!current_entry_ok::<V, T>(fields@[i]));
                    }
                    return Err(DecodeError::UnexpectedValue(k));
                },
            }
        } else if k == interval_name {
            match f {
                Field::Number(_, Some(n)) => {
                    interval = Some(n);
                },
                _ => {
                    proof {
                        assert(!current_entry_ok::<V, T>(fields@[i]));
                    }
                    return Err(DecodeError::UnexpectedValue(k));
                },
            }
        } else {
            match V::decode(k.as_str()) {
                Err(e) => {
                    proof {
                        assert(!current_entry_ok::<V, T>(fields@[i]));
                        assert(current_entry_error::<V, T>(fields@[i], e));
                    }
                    return Err(e);
                },
                Ok(v) => match f {
                    Field::Number(x, _) => {
                        data.insert(v, x);
                    },
                    _ => {
                        proof {
                            assert(!current_entry_ok::<V, T>(fields@[i]));
                        }
                        return Err(DecodeError::UnexpectedValue(k));
                    },
                },
            }
        }
        proof {
            i = i + 1;
        }
        assert(rest@ =~= fields@.skip(i));
    }
    assert(fields@.take(i) =~= fields@);
    match time {
        None => Err(DecodeError::TimeAxisMissing),
        Some(t) => match interval {
            None => Err(DecodeError::IntervalMissing),
            Some(n) => Ok(CurrentData { time: t, interval: n, data }),
        },
    }
}

// ---------------------------------------------------------------- units

/// Whether an entry of a units object is acceptable: its key names a member of the catalog
/// (the unit-only members included) and it holds a string.
pub open spec fn units_entry_ok<V: Variable, T>(e: (String, Field<T>)) -> bool {
    V::named_by(e.0@) is Some && e.1 is Text
}

/// The error that an unacceptable entry of a units object gives.
pub open spec fn units_entry_error<V: Variable, T>(e: (String, Field<T>), err: DecodeError) -> bool {
    if V::named_by(e.0@) is Some {
        is_unexpected(err, e.0@)
    } else {
        is_key_error::<V>(err, e.0@)
    }
}

/// The unit of each member in a units object: the last entry that names it.
pub open spec fn units_of<V: Variable, T>(fs: Seq<(String, Field<T>)>) -> Map<V, String>
    decreases fs.len(),
{
    if fs.len() == 0 {
        Map::empty()
    } else {
        let e = fs.last();
        let rest = units_of::<V, T>(fs.drop_last());
        if V::named_by(e.0@) is Some && e.1 is Text {
            rest.insert(V::named_by(e.0@)->Some_0, e.1->Text_0)
        } else {
            rest
        }
    }
}

/// What decoding the entries `fs` of a units object owes: the units of all members exactly
/// when every entry is acceptable, else the error of the first entry that is not.
pub open spec fn units_outcome<V: Variable, T>(
    fs: Seq<(String, Field<T>)>,
    r: Result<VariableMap<V, String>, DecodeError>,
) -> bool {
    if exists|j: int| 0 <= j < fs.len() && !units_entry_ok::<V, T>(#[trigger] fs[j]) {
        exists|j: int|
            0 <= j < fs.len() && !units_entry_ok::<V, T>(#[trigger] fs[j]) && (forall|i: int|
                0 <= i < j ==> units_entry_ok::<V, T>(#[trigger] fs[i])) && match r {
                Ok(_) => false,
                Err(err) => units_entry_error::<V, T>(fs[j], err),
            }
    } else {
        match r {
            Ok(m) => m.wf() && m@ == units_of::<V, T>(fs),
            Err(_) => false,
        }
    }
}

/// Decodes a units object: every key is decoded as a member of the catalog `V`, the
/// unit-only members included, and holds the unit as a string.
pub fn decode_units<V: Variable, T>(fields: Vec<(String, Field<T>)>) -> (r: Result<
    VariableMap<V, String>,
    DecodeError,
>)
    ensures
        units_outcome(fields@, r),
{
    let mut rest = fields;
    let mut units: VariableMap<V, String> = VariableMap::new();
    let ghost mut i: int = 0;
    while rest.len() > 0
        invariant
            0 <= i <= fields@.len(),
            rest@ == fields@.skip(i),
            units.wf(),
            units@ == units_of::<V, T>(fields@.take(i)),
            forall|j: int| 0 <= j < i ==> units_entry_ok::<V, T>(#[trigger] fields@[j]),
        decreases rest@.len(),
    {
        let ghost before = rest@;
        let (k, f) = rest.remove(0);
        assert(fields@[i] == before[0]);
        assert(fields@.take(i + 1).drop_last() =~= fields@.take(i));
        assert(fields@.take(i + 1).last() == fields@[i]);
        match V::decode(k.as_str()) {
            Err(e) => {
                proof {
                    assert(!units_entry_ok::<V, T>(fields@[i]));
                    assert(units_entry_error::<V, T>(fields@[i], e));
                }
                return Err(e);
            },
            Ok(v) => match f {
                Field::Text(u) => {
                    units.insert(v, u);
                },
                _ => {
                    proof {
                        assert(!units_entry_ok::<V, T>(fields@[i]));
                    }
                    return Err(DecodeError::UnexpectedValue(k));
                },
            },
        }
        proof {
            i = i + 1;
        }
        assert(rest@ =~= fields@.skip(i));
    }
    assert(fields@.take(i) =~= fields@);
    Ok(units)
}


// ---------------------------------------------------------------- unit-only members

/// A member that no token but `time` names never carries samples in a series block.
pub proof fn lemma_series_samples_exclude<V: Variable, T>(fs: Seq<(String, Field<T>)>, v: V)
    requires
        forall|k: Seq<char>| #[trigger] V::named_by(k) == Some(v) ==> k == time_key(),
    ensures
        !series_samples::<V, T>(fs).contains_key(v),
    decreases fs.len(),
{
    if fs.len() > 0 {
        lemma_series_samples_exclude::<V, T>(fs.drop_last(), v);
    }
}

/// A member that no token but `time` or `interval` names never carries a sample in a
/// current-conditions block.
pub proof fn lemma_current_samples_exclude<V: Variable, T>(fs: Seq<(String, Field<T>)>, v: V)
    requires
        forall|k: Seq<char>|
            #[trigger] V::named_by(k) == Some(v) ==> k == time_key() || k == interval_key(),
    ensures
        !current_samples::<V, T>(fs).contains_key(v),
    decreases fs.len(),
{
    if fs.len() > 0 {
        lemma_current_samples_exclude::<V, T>(fs.drop_last(), v);
    }
}

/// The unit-only member `Time` never carries samples in a decoded hourly block, though a
/// units object may hold it.
pub proof fn lemma_hourly_samples_exclude_time<T>(fs: Seq<(String, Field<T>)>)
    ensures
        !series_samples::<HourlyVariable, T>(fs).contains_key(HourlyVariable::Time),
{
    assert forall|k: Seq<char>| #[trigger]
        HourlyVariable::named_by(k) == Some(HourlyVariable::Time) implies k == time_key() by {
        HourlyVariable::lemma_fixed_named_by(k, HourlyVariable::Time);
    }
    lemma_series_samples_exclude::<HourlyVariable, T>(fs, HourlyVariable::Time);
}

/// The unit-only member `Time` never carries samples in a decoded daily block.
pub proof fn lemma_daily_samples_exclude_time<T>(fs: Seq<(String, Field<T>)>)
    ensures
        !series_samples::<DailyVariable, T>(fs).contains_key(DailyVariable::Time),
{
    assert forall|k: Seq<char>| #[trigger]
        DailyVariable::named_by(k) == Some(DailyVariable::Time) implies k == time_key() by {
        DailyVariable::lemma_named_by(k, DailyVariable::Time);
    }
    lemma_series_samples_exclude::<DailyVariable, T>(fs, DailyVariable::Time);
}

/// The unit-only members `Time` and `Interval` never carry a sample in decoded current
/// conditions.
pub proof fn lemma_current_samples_exclude_sentinels<T>(fs: Seq<(String, Field<T>)>)
    ensures
        !current_samples::<CurrentVariable, T>(fs).contains_key(CurrentVariable::Time),
        !current_samples::<CurrentVariable, T>(fs).contains_key(CurrentVariable::Interval),
{
    assert forall|k: Seq<char>| #[trigger]
        CurrentVariable::named_by(k) == Some(CurrentVariable::Time) implies k == time_key()
        || k == interval_key() by {
        CurrentVariable::lemma_named_by(k, CurrentVariable::Time);
    }
    assert forall|k: Seq<char>| #[trigger]
        CurrentVariable::named_by(k) == Some(CurrentVariable::Interval) implies k == time_key()
        || k == interval_key() by {
        CurrentVariable::lemma_named_by(k, CurrentVariable::Interval);
    }
    lemma_current_samples_exclude::<CurrentVariable, T>(fs, CurrentVariable::Time);
    lemma_current_samples_exclude::<CurrentVariable, T>(fs, CurrentVariable::Interval);
}

} // verus!
