//! From a response body to a reading.

use vstd::prelude::*;
use crate::text::text_view;
use crate::json::{
    json_content, json_parse, member, number_of, number_text, object_member, parse_value,
    JsonContent,
};

verus! {

/// One set of measurements. Each field holds a number as decimal text, in
/// the form the response body's JSON number has once parsed.
#[derive(Debug, PartialEq, Eq)]
pub struct Reading {
    /// The number under `temperature`.
    pub temperature: String,
    /// The number under `humidity`.
    pub humidity: String,
    /// The number under `pressure`.
    pub pressure: String,
}

/// The three numbers of a reading, as sequences of characters.
pub struct ReadingView {
    pub temperature: Seq<char>,
    pub humidity: Seq<char>,
    pub pressure: Seq<char>,
}

impl View for Reading {
    type V = ReadingView;

    open spec fn view(&self) -> ReadingView {
        ReadingView {
            temperature: self.temperature@,
            humidity: self.humidity@,
            pressure: self.pressure@,
        }
    }
}

/// Why a response body yields no reading.
#[derive(Clone, Copy, Debug, PartialEq, Eq)]
pub enum DecodeError {
    /// The body is not JSON.
    Malformed,
    /// The body is JSON, but `Readings` or one of its three numbers is
    /// absent or not a number.
    SchemaMismatch,
}

/// The outcome of a decoding, with the reading taken by its view.
pub open spec fn outcome_view(outcome: Result<Reading, DecodeError>) -> Result<
    ReadingView,
    DecodeError,
> {
    match outcome {
        Ok(reading) => Ok(reading@),
        Err(error) => Err(error),
    }
}

/// The number that an object holds under a key; `None` where the value is
/// no object, has no such member, or holds something else than a number
/// there.
pub open spec fn numeric_member(content: JsonContent, key: Seq<char>) -> Option<Seq<char>> {
    match object_member(content, key) {
        Some(inner) => number_of(inner),
        None => None,
    }
}

/// A reading is assembled from three numbers, and from nothing less.
pub open spec fn assemble(
    temperature: Option<Seq<char>>,
    humidity: Option<Seq<char>>,
    pressure: Option<Seq<char>>,
) -> Result<ReadingView, DecodeError> {
    if temperature is Some && humidity is Some && pressure is Some {
        Ok(
            ReadingView {
                temperature: temperature->0,
                humidity: humidity->0,
                pressure: pressure->0,
            },
        )
    } else {
        Err(DecodeError::SchemaMismatch)
    }
}

/// The reading that a document holds: the numbers `temperature`, `humidity`
/// and `pressure` of its member `Readings`.
pub open spec fn reading_in(document: JsonContent) -> Result<ReadingView, DecodeError> {
    match object_member(document, "Readings"@) {
        Some(readings) => assemble(
            numeric_member(readings, "temperature"@),
            numeric_member(readings, "humidity"@),
            numeric_member(readings, "pressure"@),
        ),
        None => Err(DecodeError::SchemaMismatch),
    }
}

/// What decoding a body returns, given the document that the body parses
/// to, if any.
pub open spec fn decoded(parsed: Option<JsonContent>) -> Result<ReadingView, DecodeError> {
    match parsed {
        Some(document) => reading_in(document),
        None => Err(DecodeError::Malformed),
    }
}

impl Reading {
    /// Assembles a reading from the three numbers found, each `None` where
    /// the document had no number for it. All three make a reading; with
    /// any of them missing the schema is not met, and no reading is made of
    /// the rest.
    pub fn from_fields(
        temperature: Option<String>,
        humidity: Option<String>,
        pressure: Option<String>,
    ) -> (outcome: Result<Reading, DecodeError>)
        ensures
            outcome_view(outcome) == assemble(
                text_view(temperature),
                text_view(humidity),
                text_view(pressure),
            ),
    {
        match (temperature, humidity, pressure) {
            (Some(temperature), Some(humidity), Some(pressure)) => Ok(
                Reading { temperature, humidity, pressure },
            ),
            _ => Err(DecodeError::SchemaMismatch),
        }
    }
}

/// The number under `key` in `object`, as text.
fn numeric_field(object: &serde_json::Value, key: &str) -> (text: Option<String>)
    ensures
        text_view(text) == numeric_member(json_content(*object), key@),
{
    match member(object, key) {
        Some(inner) => number_text(inner),
        None => None,
    }
}

/// Reads the reading out of a parsed document.
pub fn extract_reading(document: &serde_json::Value) -> (outcome: Result<Reading, DecodeError>)
    ensures
        outcome_view(outcome) == reading_in(json_content(*document)),
{
    match member(document, "Readings") {
        Some(readings) => {
            let temperature = numeric_field(readings, "temperature");
            let humidity = numeric_field(readings, "humidity");
            let pressure = numeric_field(readings, "pressure");
            Reading::from_fields(temperature, humidity, pressure)
        },
        None => Err(DecodeError::SchemaMismatch),
    }
}

/// Decodes a response body: `Malformed` where the body is not JSON,
/// `SchemaMismatch` where the document lacks `Readings` or one of its three
/// numbers, and else the reading with the three numbers of the document.
pub fn decode(body: &str) -> (outcome: Result<Reading, DecodeError>)
    ensures
        outcome_view(outcome) == decoded(json_parse(body@)),
{
    match parse_value(body) {
        Ok(document) => extract_reading(&document),
        Err(_) => Err(DecodeError::Malformed),
    }
}

/// A body that is a JSON document with the expected members decodes to
/// the reading that holds the three numbers of the document, each as the
/// document has it.
pub proof fn law_matching_body_decodes(
    body: Seq<char>,
    document: JsonContent,
    readings: JsonContent,
    temperature: Seq<char>,
    humidity: Seq<char>,
    pressure: Seq<char>,
)
    requires
        object_member(document, "Readings"@) == Some(readings),
        numeric_member(readings, "temperature"@) == Some(temperature),
        numeric_member(readings, "humidity"@) == Some(humidity),
        numeric_member(readings, "pressure"@) == Some(pressure),
    ensures
        json_parse(body) == Some(document) ==> decoded(json_parse(body)) == Ok::<
            ReadingView,
            DecodeError,
        >(ReadingView { temperature, humidity, pressure }),
{
}

/// A body that is a JSON document without `Readings`, or without a number
/// for one of the three measurements under it, decodes to
/// `SchemaMismatch`, and so to no reading, whatever else it holds.
pub proof fn law_other_body_mismatches(body: Seq<char>, document: JsonContent)
    requires
        object_member(document, "Readings"@) matches Some(readings) ==> {
            ||| numeric_member(readings, "temperature"@) is None
            ||| numeric_member(readings, "humidity"@) is None
            ||| numeric_member(readings, "pressure"@) is None
        },
    ensures
        json_parse(body) == Some(document) ==> decoded(json_parse(body)) == Err::<
            ReadingView,
            DecodeError,
        >(DecodeError::SchemaMismatch),
{
}

/// A body that is no JSON document decodes to `Malformed`.
pub proof fn law_non_json_is_malformed(body: Seq<char>)
    ensures
        json_parse(body) is None ==> decoded(json_parse(body)) == Err::<ReadingView, DecodeError>(
            DecodeError::Malformed,
        ),
{
}

} // verus!
