//! The renderings that `neo4rs` gives through `Debug`.
//!
//! Everything in this file is trusted. The outside types are declared so that
//! values of them can be carried, and each function states of an outside
//! `Debug` impl what its source shows, without proof.

use vstd::prelude::*;

verus! {

/// `neo4rs::BoltType`, carried as an opaque value.
#[verifier::external_type_specification]
#[verifier::external_body]
pub struct ExBoltType(neo4rs::BoltType);

/// `neo4rs::BoltDate`, carried as an opaque value.
#[verifier::external_type_specification]
#[verifier::external_body]
pub struct ExBoltDate(neo4rs::BoltDate);

/// `neo4rs::BoltTime`, carried as an opaque value.
#[verifier::external_type_specification]
#[verifier::external_body]
pub struct ExBoltTime(neo4rs::BoltTime);

/// `neo4rs::BoltDateTime`, carried as an opaque value.
#[verifier::external_type_specification]
#[verifier::external_body]
pub struct ExBoltDateTime(neo4rs::BoltDateTime);

/// `neo4rs::BoltDateTimeZoneId`, carried as an opaque value.
#[verifier::external_type_specification]
#[verifier::external_body]
pub struct ExBoltDateTimeZoneId(neo4rs::BoltDateTimeZoneId);

/// `neo4rs::BoltLocalTime`, carried as an opaque value.
#[verifier::external_type_specification]
#[verifier::external_body]
pub struct ExBoltLocalTime(neo4rs::BoltLocalTime);

/// `neo4rs::BoltLocalDateTime`, carried as an opaque value.
#[verifier::external_type_specification]
#[verifier::external_body]
pub struct ExBoltLocalDateTime(neo4rs::BoltLocalDateTime);

/// `neo4rs::BoltDuration`, carried as an opaque value.
#[verifier::external_type_specification]
#[verifier::external_body]
pub struct ExBoltDuration(neo4rs::BoltDuration);

/// The digit of `n`, for `n` below sixteen, in lower-case hexadecimal.
pub open spec fn hex_digit(n: int) -> char {
    if n < 10 {
        (48 + n) as char
    } else {
        (87 + n) as char
    }
}

/// The text of one byte: an escape for line feed, carriage return, tab,
/// backslash, double quote and zero; the character itself for the other
/// printable ASCII bytes; `\x` and two hexadecimal digits for the rest.
pub open spec fn byte_text(b: u8) -> Seq<char> {
    if b == 0x0a {
        seq!['\\', 'n']
    } else if b == 0x0d {
        seq!['\\', 'r']
    } else if b == 0x09 {
        seq!['\\', 't']
    } else if b == 0x5c || b == 0x22 {
        seq!['\\', b as char]
    } else if b == 0x00 {
        seq!['\\', '0']
    } else if 0x20 <= b < 0x7f {
        seq![b as char]
    } else {
        seq!['\\', 'x', hex_digit(b as int / 16), hex_digit(b as int % 16)]
    }
}

/// The text of a byte string: `b"`, the text of each byte in turn, `"`.
pub open spec fn bytes_text(bytes: Seq<u8>) -> Seq<char> {
    seq!['b', '"'] + bytes.map_values(|b: u8| byte_text(b)).flatten() + seq!['"']
}

/// Renders bytes as `neo4rs` does a `BoltBytes` value: through the `Debug`
/// impl of `bytes::Bytes`, which writes a byte-string literal. The contract
/// states that format in full.
#[verifier::external_body]
pub(crate) fn render_bytes(bytes: &Vec<u8>) -> (text: String)
    ensures
        text@ == bytes_text(bytes@),
{
    format!("{:?}", neo4rs::BoltBytes::new(bytes.clone().into()).value)
}

/// The text that the `Debug` impl of `neo4rs::BoltDate` writes.
pub uninterp spec fn date_debug_text(date: neo4rs::BoltDate) -> Seq<char>;

/// The text that the `Debug` impl of `neo4rs::BoltTime` writes.
pub uninterp spec fn time_debug_text(time: neo4rs::BoltTime) -> Seq<char>;

/// The text that the `Debug` impl of `neo4rs::BoltDateTime` writes.
pub uninterp spec fn date_time_debug_text(date_time: neo4rs::BoltDateTime) -> Seq<char>;

/// The text that the `Debug` impl of `neo4rs::BoltDateTimeZoneId` writes.
pub uninterp spec fn date_time_zone_id_debug_text(date_time: neo4rs::BoltDateTimeZoneId) -> Seq<
    char,
>;

/// The text that the `Debug` impl of `neo4rs::BoltLocalTime` writes.
pub uninterp spec fn local_time_debug_text(time: neo4rs::BoltLocalTime) -> Seq<char>;

/// The text that the `Debug` impl of `neo4rs::BoltLocalDateTime` writes.
pub uninterp spec fn local_date_time_debug_text(date_time: neo4rs::BoltLocalDateTime) -> Seq<char>;

/// The text that the `Debug` impl of `neo4rs::BoltDuration` writes.
pub uninterp spec fn duration_debug_text(duration: neo4rs::BoltDuration) -> Seq<char>;

/// Calls the derived `Debug` impl of `neo4rs::BoltDate`. The struct holds one
/// integer, so the text depends on the value alone; the contract names it.
#[verifier::external_body]
pub(crate) fn render_date(date: &neo4rs::BoltDate) -> (text: String)
    ensures
        text@ == date_debug_text(*date),
{
    format!("{:?}", date)
}

/// Calls the derived `Debug` impl of `neo4rs::BoltTime`. The struct holds two
/// integers, so the text depends on the value alone; the contract names it.
#[verifier::external_body]
pub(crate) fn render_time(time: &neo4rs::BoltTime) -> (text: String)
    ensures
        text@ == time_debug_text(*time),
{
    format!("{:?}", time)
}

/// Calls the derived `Debug` impl of `neo4rs::BoltDateTime`. The struct holds
/// three integers, so the text depends on the value alone; the contract names
/// it.
#[verifier::external_body]
pub(crate) fn render_date_time(date_time: &neo4rs::BoltDateTime) -> (text: String)
    ensures
        text@ == date_time_debug_text(*date_time),
{
    format!("{:?}", date_time)
}

/// Calls the derived `Debug` impl of `neo4rs::BoltDateTimeZoneId`. The struct
/// holds two integers and a string, so the text depends on the value alone;
/// the contract names it.
#[verifier::external_body]
pub(crate) fn render_date_time_zone_id(date_time: &neo4rs::BoltDateTimeZoneId) -> (text: String)
    ensures
        text@ == date_time_zone_id_debug_text(*date_time),
{
    format!("{:?}", date_time)
}

/// Calls the derived `Debug` impl of `neo4rs::BoltLocalTime`. The struct holds
/// one integer, so the text depends on the value alone; the contract names it.
#[verifier::external_body]
pub(crate) fn render_local_time(time: &neo4rs::BoltLocalTime) -> (text: String)
    ensures
        text@ == local_time_debug_text(*time),
{
    format!("{:?}", time)
}

/// Calls the derived `Debug` impl of `neo4rs::BoltLocalDateTime`. The struct
/// holds two integers, so the text depends on the value alone; the contract
/// names it.
#[verifier::external_body]
pub(crate) fn render_local_date_time(date_time: &neo4rs::BoltLocalDateTime) -> (text: String)
    ensures
        text@ == local_date_time_debug_text(*date_time),
{
    format!("{:?}", date_time)
}

/// Calls the derived `Debug` impl of `neo4rs::BoltDuration`. The struct holds
/// four integers, so the text depends on the value alone; the contract names
/// it.
#[verifier::external_body]
pub(crate) fn render_duration(duration: &neo4rs::BoltDuration) -> (text: String)
    ensures
        text@ == duration_debug_text(*duration),
{
    format!("{:?}", duration)
}

/// Calls the derived `Debug` impl of `neo4rs::BoltType`. A value may hold a
/// `BoltMap`, whose hash map is written in the order in which it is walked, so
/// nothing is claimed of the text.
#[verifier::external_body]
pub(crate) fn render_bolt(value: &neo4rs::BoltType) -> (text: String) {
    format!("{:?}", value)
}

} // verus!
