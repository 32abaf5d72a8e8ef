//! What telemetry metrics carry into the profiler: the identity of a metric
//! in a child process, and the markers that record a value of a metric.
//!
//! A marker must stay small, so the string or the vector of values in it is
//! cut to a fixed size. A string is cut between characters: it stays valid
//! UTF-8.

use chrono::TimeZone;
use std::marker::PhantomData;
use vstd::prelude::*;
use vstd::string::*;
use vstd::utf8::*;

verus! {

broadcast use vstd::utf8::group_utf8_lib;

/// The number of values from which on a vector is cut for a marker.
pub const MAX_VECTOR_LENGTH: usize = 1024;

/// The number of a metric.
#[derive(Clone, Copy, Debug, PartialEq, Eq, Structural)]
pub struct BaseMetricId(pub u32);

/// The number of a metric that is a part of a labeled metric.
#[derive(Clone, Copy, Debug, PartialEq, Eq, Structural)]
pub struct SubMetricId(pub u32);

/// The number of a metric, or of a part of one.
#[derive(Clone, Copy, Debug, PartialEq, Eq, Structural)]
pub enum MetricId {
    Id(BaseMetricId),
    SubId(SubMetricId),
}

/// A metadata structure common to all Child metrics. Storing this data is
/// not necessary at all times, but many metrics require the ID for IPC
/// operations, and storing the name + category is necessary so that
/// profiler markers can be accurately recorded in child processes.
#[derive(Clone, Debug, PartialEq, Eq)]
pub struct ChildMetricMeta {
    pub id: BaseMetricId,
    pub name: String,
    pub category: String,
}

impl ChildMetricMeta {
    /// The metadata of the metric `id` with this name in this category.
    pub fn from_name_category_pair(id: BaseMetricId, name: String, category: String) -> (r:
        ChildMetricMeta)
        ensures
            r.id == id,
            r.name == name,
            r.category == category,
    {
        ChildMetricMeta { id, name, category }
    }

    /// The category and the name of the metric, in this order, and its
    /// label, which a metric in a child process does not have.
    pub fn get_identifiers<'a>(&'a self) -> (r: (&'a str, &'a str, Option<&'a str>))
        ensures
            r.0@ == self.category@,
            r.1@ == self.name@,
            r.2 is None,
    {
        (self.category.as_str(), self.name.as_str(), None)
    }
}

/// The greatest number of bytes of a string in a marker.
pub fn max_string_byte_length() -> (r: usize)
    ensures
        r == 1024,
{
    1024
}

/// Where a string of bytes `bytes` is cut to have at most `index` bytes and
/// still end with a whole character: at its end if it is that short, and
/// else at the last character boundary that is not after `index`.
pub open spec fn floor_char_boundary(bytes: Seq<u8>, index: int) -> int
    decreases index,
{
    if index >= bytes.len() {
        bytes.len() as int
    } else if index <= 0 {
        0
    } else if is_char_boundary(bytes, index) {
        index
    } else {
        floor_char_boundary(bytes, index - 1)
    }
}

/// The cut is a character boundary, is not after `index`, and no character
/// boundary lies between the two.
pub proof fn lemma_floor_char_boundary(bytes: Seq<u8>, index: int)
    requires
        valid_utf8(bytes),
        0 <= index,
    ensures
        is_char_boundary(bytes, floor_char_boundary(bytes, index)),
        0 <= floor_char_boundary(bytes, index) <= bytes.len(),
        index < bytes.len() ==> floor_char_boundary(bytes, index) <= index,
        forall|j: int|
            floor_char_boundary(bytes, index) < j <= index && j <= bytes.len()
                ==> !#[trigger] is_char_boundary(bytes, j),
    decreases index,
{
    if index >= bytes.len() {
    } else if index <= 0 {
    } else if is_char_boundary(bytes, index) {
    } else {
        lemma_floor_char_boundary(bytes, index - 1);
    }
}

/// A character has at most four bytes: of four places in a row, the fourth
/// not after the end of the string, one is a character boundary.
pub proof fn lemma_boundary_within_four(bytes: Seq<u8>, index: int)
    requires
        valid_utf8(bytes),
        0 <= index <= bytes.len(),
    ensures
        exists|k: int| 0 <= k <= 3 && k <= index && #[trigger] is_char_boundary(bytes, index - k),
    decreases bytes.len(),
{
    if index <= 3 {
        assert(is_char_boundary(bytes, index - index));
    } else {
        let first = length_of_first_scalar(bytes);
        let rest = pop_first_scalar(bytes);
        assert(1 <= first <= 4);
        lemma_boundary_within_four(rest, index - first);
        let k = choose|k: int|
            0 <= k <= 3 && k <= index - first && #[trigger] is_char_boundary(
                rest,
                index - first - k,
            );
        assert(is_char_boundary(bytes, index - k));
    }
}

/// Whether a byte starts a character: every byte but those that continue
/// one.
pub fn is_utf8_char_boundary(b: u8) -> (r: bool)
    ensures
        r == !is_continuation_byte(b),
{
    b < 128 || b >= 192
}

/// `String::truncate`: keeps the first `new_len` bytes of the string, where
/// the string has that many and a character starts or the string ends
/// after them.
#[verifier::external_body]
fn string_truncate(s: &mut String, new_len: usize)
    requires
        new_len <= encode_utf8(old(s)@).len(),
        is_char_boundary(encode_utf8(old(s)@), new_len as int),
    ensures
        encode_utf8(final(s)@) == encode_utf8(old(s)@).subrange(0, new_len as int),
{
    s.truncate(new_len)
}

/// Cuts `input` to at most `byte_length` bytes without cutting a character
/// in two: a string that is longer loses the characters that end after
/// `byte_length` bytes.
pub fn truncate_string_for_marker_to_length(input: String, byte_length: usize) -> (r: String)
    ensures
        encode_utf8(r@) == encode_utf8(input@).subrange(
            0,
            floor_char_boundary(encode_utf8(input@), byte_length as int),
        ),
        r@ == input@.subrange(0, r@.len() as int),
        r@.len() <= input@.len(),
        byte_length >= encode_utf8(input@).len() ==> r@ == input@,
        byte_length < encode_utf8(input@).len() ==> encode_utf8(r@).len() <= byte_length,
{
    let mut input = input;
    let ghost whole = input@;
    let ghost all = encode_utf8(whole);
    proof {
        lemma_floor_char_boundary(all, byte_length as int);
    }
    let len = input.as_str().as_bytes().len();
    if byte_length < len {
        let bytes = input.as_str().as_bytes();
        let lower_bound: usize = if byte_length >= 3 {
            byte_length - 3
        } else {
            0
        };
        let mut point: usize = byte_length;
        while point > lower_bound && !is_utf8_char_boundary(bytes[point])
            invariant
                bytes@ == all,
                valid_utf8(all),
                lower_bound <= point <= byte_length < all.len(),
                forall|j: int| point < j <= byte_length ==> !#[trigger] is_char_boundary(all, j),
            decreases point,
        {
            proof {
                is_char_boundary_iff_not_is_continuation_byte(all, point as int);
            }
            point -= 1;
        }
        proof {
            is_char_boundary_iff_not_is_continuation_byte(all, point as int);
            if !is_char_boundary(all, point as int) {
                lemma_boundary_within_four(all, byte_length as int);
            }
            assert(is_char_boundary(all, point as int));
            lemma_floor_is(all, byte_length as int, point as int);
        }
        string_truncate(&mut input, point);
        proof {
            let kept = all.subrange(0, point as int);
            assert(decode_utf8(all) == whole);
            assert(decode_utf8(kept) == input@);
            assert(whole == input@ + decode_utf8(all.subrange(point as int, all.len() as int)));
            assert(input@ =~= whole.subrange(0, input@.len() as int));
        }
    } else {
        assert(all.subrange(0, all.len() as int) =~= all);
        assert(whole =~= whole.subrange(0, whole.len() as int));
    }
    input
}

/// A character boundary `point` that is not after `index`, with no
/// character boundary between the two, is the cut for `index`.
pub proof fn lemma_floor_is(bytes: Seq<u8>, index: int, point: int)
    requires
        0 <= point <= index < bytes.len(),
        is_char_boundary(bytes, point),
        forall|j: int| point < j <= index ==> !#[trigger] is_char_boundary(bytes, j),
    ensures
        floor_char_boundary(bytes, index) == point,
    decreases index - point,
{
    if point < index {
        lemma_floor_is(bytes, index - 1, point);
    }
}

/// Cuts `input` to the size that a marker allows for a string.
pub fn truncate_string_for_marker(input: String) -> (r: String)
    ensures
        encode_utf8(r@) == encode_utf8(input@).subrange(
            0,
            floor_char_boundary(encode_utf8(input@), 1024),
        ),
        r@ == input@.subrange(0, r@.len() as int),
        encode_utf8(r@).len() <= 1024,
{
    proof {
        lemma_floor_char_boundary(encode_utf8(input@), 1024);
    }
    truncate_string_for_marker_to_length(input, max_string_byte_length())
}

/// Cuts a vector to the size that a marker allows: a vector of more than
/// [`MAX_VECTOR_LENGTH`] values keeps the first `MAX_VECTOR_LENGTH - 1`,
/// any other keeps them all.
pub fn truncate_vector_for_marker<T: Clone>(vec: &Vec<T>) -> (r: Vec<T>)
    ensures
        r@.len() == (if vec@.len() > MAX_VECTOR_LENGTH {
            (MAX_VECTOR_LENGTH - 1) as nat
        } else {
            vec@.len()
        }),
        forall|i: int| 0 <= i < r@.len() ==> cloned::<T>(#[trigger] vec@[i], r@[i]),
{
    let kept: usize = if vec.len() > MAX_VECTOR_LENGTH {
        MAX_VECTOR_LENGTH - 1
    } else {
        vec.len()
    };
    let mut r: Vec<T> = Vec::with_capacity(kept);
    let mut i: usize = 0;
    while i < kept
        invariant
            i <= kept <= vec@.len(),
            r@.len() == i,
            forall|j: int| 0 <= j < i ==> cloned::<T>(#[trigger] vec@[j], r@[j]),
        decreases kept - i,
    {
        r.push(vec[i].clone());
        i += 1;
    }
    r
}

/// A date and a time of day as a metric records them, in the time zone that
/// lies `offset_seconds` east of UTC.
#[derive(Clone, Copy, Debug, PartialEq, Eq)]
pub struct Datetime {
    pub year: i32,
    pub month: u32,
    pub day: u32,
    pub hour: u32,
    pub minute: u32,
    pub second: u32,
    pub nanosecond: u32,
    pub offset_seconds: i32,
}

/// A point in time, and the offset from UTC of the clock that showed it:
/// the seconds since the first of January 1970 in UTC, and the nanoseconds
/// since the last full second, which exceed a second in a leap second.
#[derive(Clone, Copy, Debug, PartialEq, Eq)]
pub struct Instant {
    pub timestamp: i64,
    pub nanosecond: u32,
    pub offset_seconds: i32,
}

/// What a date and a time of day on a local clock come to: no point in
/// time, one, or one of two.
#[derive(Clone, Copy, Debug, PartialEq, Eq)]
pub enum LocalDatetime {
    Invalid,
    Single(Instant),
    Ambiguous(Instant, Instant),
}

/// `chrono::FixedOffset`: a time zone at a fixed offset from UTC. Nothing
/// is known of a value.
#[verifier::external_type_specification]
#[verifier::external_body]
pub struct ExFixedOffset(chrono::FixedOffset);

/// `FixedOffset::east_opt`: there is a time zone `secs` seconds east of UTC
/// exactly when the offset is less than a day either way.
pub assume_specification[ chrono::FixedOffset::east_opt ](secs: i32) -> (r: Option<
    chrono::FixedOffset,
>)
    ensures
        r is Some <==> -86_400 < secs < 86_400,
;

/// What the calendar makes of a date and a time of day on a clock that is
/// `offset_seconds` east of UTC.
pub uninterp spec fn local_datetime(
    offset_seconds: int,
    year: int,
    month: int,
    day: int,
    hour: int,
    minute: int,
    second: int,
    nanosecond: int,
) -> LocalDatetime;

/// `FixedOffset::east`, `TimeZone::ymd_opt` and `and_hms_nano_opt` of the
/// date it gives: the point in time of `gdt`, read through
/// `DateTime::timestamp` and `DateTime::timestamp_subsec_nanos`. The result
/// is what the calendar makes of `gdt`; a date with a time of day is never
/// ambiguous, and a point in time keeps the offset of `gdt`.
#[verifier::external_body]
#[allow(deprecated)]
fn datetime_in_offset(gdt: &Datetime) -> (r: LocalDatetime)
    requires
        -86_400 < gdt.offset_seconds < 86_400,
    ensures
        r == local_datetime(
            gdt.offset_seconds as int,
            gdt.year as int,
            gdt.month as int,
            gdt.day as int,
            gdt.hour as int,
            gdt.minute as int,
            gdt.second as int,
            gdt.nanosecond as int,
        ),
        !(r is Ambiguous),
        r matches LocalDatetime::Single(instant) ==> instant.offset_seconds == gdt.offset_seconds,
{
    let at = |t: chrono::DateTime<chrono::FixedOffset>| Instant {
        timestamp: t.timestamp(),
        nanosecond: t.timestamp_subsec_nanos(),
        offset_seconds: gdt.offset_seconds,
    };
    let date = chrono::FixedOffset::east(gdt.offset_seconds).ymd_opt(gdt.year, gdt.month, gdt.day);
    match date.and_hms_nano_opt(gdt.hour, gdt.minute, gdt.second, gdt.nanosecond) {
        chrono::LocalResult::None => LocalDatetime::Invalid,
        chrono::LocalResult::Single(t) => LocalDatetime::Single(at(t)),
        chrono::LocalResult::Ambiguous(a, b) => LocalDatetime::Ambiguous(at(a), at(b)),
    }
}

/// Converts the date and time of a metric into a point in time. Returns
/// `None` if the offset is not that of a time zone, that is a day or more
/// either way; else what the calendar makes of the date and the time in the
/// time zone with that offset.
pub fn glean_to_chrono_datetime(gdt: &Datetime) -> (r: Option<LocalDatetime>)
    ensures
        r is None <==> !(-86_400 < gdt.offset_seconds < 86_400),
        r matches Some(local) ==> local == local_datetime(
            gdt.offset_seconds as int,
            gdt.year as int,
            gdt.month as int,
            gdt.day as int,
            gdt.hour as int,
            gdt.minute as int,
            gdt.second as int,
            gdt.nanosecond as int,
        ) && !(local is Ambiguous) && (local matches LocalDatetime::Single(instant)
            ==> instant.offset_seconds == gdt.offset_seconds),
{
    let tz = chrono::FixedOffset::east_opt(gdt.offset_seconds);
    if tz.is_none() {
        return None;
    }
    Some(datetime_in_offset(gdt))
}

/// What is known of a metric: its category, its name, and its label if it
/// has one.
#[derive(Clone, Debug, PartialEq, Eq)]
pub struct MetricMetadata {
    pub category: String,
    pub name: String,
    pub label: Option<String>,
}

/// How a marker names its metric: the category, the name, and the label if
/// there is one.
#[derive(Clone, Debug, PartialEq, Eq)]
pub struct MarkerIdentifiers {
    pub cat: String,
    pub id: String,
    pub label: Option<String>,
}

/// Whether `s` is `head`, a slash and `tail`, with no slash in `head`.
pub open spec fn split_at_slash(s: Seq<char>, head: Seq<char>, tail: Seq<char>) -> bool {
    s == head + seq!['/'] + tail && !head.contains('/')
}

/// `str::split_once` with `"/"` as the delimiter: the parts of the string
/// before and after its first slash, if it has one.
#[verifier::external_body]
fn split_once_slash<'a>(s: &'a str) -> (r: Option<(&'a str, &'a str)>)
    ensures
        match r {
            Some((head, tail)) => split_at_slash(s@, head@, tail@),
            None => !s@.contains('/'),
        },
{
    s.split_once("/")
}

/// The first of two labels that is there.
pub open spec fn first_label(first: Option<String>, second: Option<String>) -> Option<String> {
    if first is Some {
        first
    } else {
        second
    }
}

/// How a marker names the metric with metadata `metadata`, for which the
/// lookup found the label `mlabel`.
///
/// The label of the metadata comes first, then the label of the lookup.
/// Where there is neither, the label is taken to be part of the name: what
/// follows the first slash of the name is the label, what stands before it
/// the name. A name without a slash stays whole and has no label.
pub fn marker_identifiers(metadata: MetricMetadata, mlabel: Option<String>) -> (r:
    MarkerIdentifiers)
    ensures
        r.cat@ == metadata.category@,
        match first_label(metadata.label, mlabel) {
            Some(label) => r.id@ == metadata.name@ && (r.label matches Some(l) && l@ == label@),
            None => if metadata.name@.contains('/') {
                r.label matches Some(l) && split_at_slash(metadata.name@, r.id@, l@)
            } else {
                r.label is None && r.id@ == metadata.name@
            },
        },
{
    let MetricMetadata { category, name, label } = metadata;
    let label = match label {
        Some(label) => Some(label),
        None => mlabel,
    };
    match label {
        // A label from the metric or from the lookup is used as it is.
        Some(label) => MarkerIdentifiers { cat: category, id: name, label: Some(label) },
        // Otherwise the label must be part of the name.
        None => {
            let split = split_once_slash(name.as_str());
            match split {
                Some((id, label)) => {
                    let id = id.to_owned();
                    let label = label.to_owned();
                    proof {
                        assert(name@.contains('/')) by {
                            let s = id@ + seq!['/'] + label@;
                            assert(s[id@.len() as int] == '/');
                        }
                    }
                    MarkerIdentifiers { cat: category, id, label: Some(label) }
                },
                None => MarkerIdentifiers { cat: category, id: name, label: None },
            }
        },
    }
}

/// A marker for a value of a metric that is a string, or like one.
#[derive(Debug)]
pub struct StringLikeMetricMarker<MetricT> {
    pub id: MetricId,
    pub val: String,
    pub _phantom: PhantomData<MetricT>,
}

impl<MetricT> StringLikeMetricMarker<MetricT> {
    /// The marker for the value `val` of the metric `id`, cut to the size
    /// that a marker allows.
    pub fn new(id: MetricId, val: &String) -> (r: StringLikeMetricMarker<MetricT>)
        ensures
            r.id == id,
            encode_utf8(r.val@) == encode_utf8(val@).subrange(
                0,
                floor_char_boundary(encode_utf8(val@), 1024),
            ),
            r.val@ == val@.subrange(0, r.val@.len() as int),
            encode_utf8(r.val@).len() <= 1024,
    {
        StringLikeMetricMarker::<MetricT> {
            id,
            val: truncate_string_for_marker(val.clone()),
            _phantom: PhantomData,
        }
    }

    /// The marker for the value `val` of the metric `id`, cut to the size
    /// that a marker allows.
    pub fn new_owned(id: MetricId, val: String) -> (r: StringLikeMetricMarker<MetricT>)
        ensures
            r.id == id,
            encode_utf8(r.val@) == encode_utf8(val@).subrange(
                0,
                floor_char_boundary(encode_utf8(val@), 1024),
            ),
            r.val@ == val@.subrange(0, r.val@.len() as int),
            encode_utf8(r.val@).len() <= 1024,
    {
        StringLikeMetricMarker::<MetricT> {
            id,
            val: truncate_string_for_marker(val),
            _phantom: PhantomData,
        }
    }
}

/// A marker for a value of a metric that is a number.
#[derive(Debug)]
pub struct IntLikeMetricMarker<MetricT, T> {
    pub id: MetricId,
    pub label: Option<String>,
    pub val: T,
    pub _phantom: PhantomData<MetricT>,
}

impl<MetricT, T> IntLikeMetricMarker<MetricT, T> {
    /// The marker for the value `val` of the metric `id` under `label`.
    pub fn new(id: MetricId, label: Option<String>, val: T) -> (r: IntLikeMetricMarker<
        MetricT,
        T,
    >)
        ensures
            r.id == id,
            r.label == label,
            r.val == val,
    {
        IntLikeMetricMarker { id, label, val, _phantom: PhantomData }
    }
}

/// One sample of a distribution, or several.
#[derive(Debug)]
pub enum DistributionValues<T> {
    Sample(T),
    Samples(Vec<T>),
}

/// A marker for samples of a metric that is a distribution.
#[derive(Debug)]
pub struct DistributionMetricMarker<MetricT, T> {
    pub id: MetricId,
    pub label: Option<String>,
    pub value: DistributionValues<T>,
    pub _phantom: PhantomData<MetricT>,
}

impl<MetricT, T> DistributionMetricMarker<MetricT, T> {
    /// The marker for the samples `value` of the metric `id` under `label`.
    pub fn new(id: MetricId, label: Option<String>, value: DistributionValues<T>) -> (r:
        DistributionMetricMarker<MetricT, T>)
        ensures
            r.id == id,
            r.label == label,
            r.value == value,
    {
        DistributionMetricMarker { id, label, value, _phantom: PhantomData }
    }
}

/// A marker for a value of a metric that is a boolean.
#[derive(Debug)]
pub struct BooleanMetricMarker<MetricT> {
    pub id: MetricId,
    pub label: Option<String>,
    pub val: bool,
    pub _phantom: PhantomData<MetricT>,
}

impl<MetricT> BooleanMetricMarker<MetricT> {
    /// The marker for the value `val` of the metric `id` under `label`.
    pub fn new(id: MetricId, label: Option<String>, val: bool) -> (r: BooleanMetricMarker<
        MetricT,
    >)
        ensures
            r.id == id,
            r.label == label,
            r.val == val,
    {
        BooleanMetricMarker { id, label, val, _phantom: PhantomData }
    }
}

/// A marker for the submission of a ping.
#[derive(Debug)]
pub struct PingMarker {
    pub name: String,
    pub reason: Option<String>,
}

impl PingMarker {
    /// The marker for the submission of the ping `name` for `reason`.
    pub fn new_for_submit(name: String, reason: Option<String>) -> (r: PingMarker)
        ensures
            r.name == name,
            r.reason == reason,
    {
        PingMarker { name, reason }
    }
}

} // verus!
