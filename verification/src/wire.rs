//! The wire form of a sample: one JSON object with eight members of fixed
//! names, in a fixed order, each a number.
//!
//! This module holds the schema: the names, the order, which member fails a
//! document, and the object that is written around the numbers. `serde_json`
//! reads the document. No floating-point code stands here: a measurement
//! crosses this module as its JSON text, and whoever calls turns that text
//! into a number or a number into that text.

use vstd::prelude::*;

verus! {

/// The members of the wire object, in the order in which they are written.
#[derive(Clone, Copy, Debug, PartialEq, Eq, Structural)]
pub enum Field {
    Timestamp,
    Temperature,
    Humidity,
    RZero,
    CorrectedRZero,
    Resistance,
    Ppm,
    CorrectedPpm,
}

/// Why a text is not the wire form of a sample.
#[derive(Clone, Copy, Debug, PartialEq, Eq, Structural)]
pub enum DecodeError {
    /// The text is not a JSON document.
    Syntax,
    /// The document has no member of this name.
    Missing(Field),
    /// The member is there, but it is not a number that the field can hold.
    Mistyped(Field),
}

/// What a document holds under one member name.
#[derive(Clone, Debug, PartialEq, Eq)]
pub enum Member<T> {
    /// No member of that name, or the document is no object at all.
    Absent,
    /// A member that is not a number that the field can hold.
    Mistyped,
    /// The member's value.
    Number(T),
}

/// The JSON text of each measurement of a sample.
#[derive(Clone, Debug, PartialEq, Eq)]
pub struct Numerals {
    pub temperature: String,
    pub humidity: String,
    pub r_zero: String,
    pub corrected_r_zero: String,
    pub resistance: String,
    pub ppm: String,
    pub corrected_ppm: String,
}

/// A sample as it stands on the wire: the timestamp, and each measurement as
/// its JSON text.
#[derive(Clone, Debug, PartialEq, Eq)]
pub struct Frame {
    pub timestamp: u64,
    pub numerals: Numerals,
}

/// What a document holds under each of the eight names.
#[derive(Clone, Debug, PartialEq, Eq)]
pub struct Members {
    pub timestamp: Member<u64>,
    pub temperature: Member<String>,
    pub humidity: Member<String>,
    pub r_zero: Member<String>,
    pub corrected_r_zero: Member<String>,
    pub resistance: Member<String>,
    pub ppm: Member<String>,
    pub corrected_ppm: Member<String>,
}

/// `Numerals` with each text as a sequence of characters.
pub struct NumeralTexts {
    pub temperature: Seq<char>,
    pub humidity: Seq<char>,
    pub r_zero: Seq<char>,
    pub corrected_r_zero: Seq<char>,
    pub resistance: Seq<char>,
    pub ppm: Seq<char>,
    pub corrected_ppm: Seq<char>,
}

/// `Frame` with each text as a sequence of characters.
pub struct FrameView {
    pub timestamp: u64,
    pub numerals: NumeralTexts,
}

/// `Members` with each text as a sequence of characters.
pub struct MembersView {
    pub timestamp: Member<u64>,
    pub temperature: Member<Seq<char>>,
    pub humidity: Member<Seq<char>>,
    pub r_zero: Member<Seq<char>>,
    pub corrected_r_zero: Member<Seq<char>>,
    pub resistance: Member<Seq<char>>,
    pub ppm: Member<Seq<char>>,
    pub corrected_ppm: Member<Seq<char>>,
}

/// A member that holds a text, with the text as a sequence of characters.
pub open spec fn text_member(member: Member<String>) -> Member<Seq<char>> {
    match member {
        Member::Absent => Member::Absent,
        Member::Mistyped => Member::Mistyped,
        Member::Number(text) => Member::Number(text@),
    }
}

impl View for Numerals {
    type V = NumeralTexts;

    open spec fn view(&self) -> NumeralTexts {
        NumeralTexts {
            temperature: self.temperature@,
            humidity: self.humidity@,
            r_zero: self.r_zero@,
            corrected_r_zero: self.corrected_r_zero@,
            resistance: self.resistance@,
            ppm: self.ppm@,
            corrected_ppm: self.corrected_ppm@,
        }
    }
}

impl View for Frame {
    type V = FrameView;

    open spec fn view(&self) -> FrameView {
        FrameView { timestamp: self.timestamp, numerals: self.numerals@ }
    }
}

impl View for Members {
    type V = MembersView;

    open spec fn view(&self) -> MembersView {
        MembersView {
            timestamp: self.timestamp,
            temperature: text_member(self.temperature),
            humidity: text_member(self.humidity),
            r_zero: text_member(self.r_zero),
            corrected_r_zero: text_member(self.corrected_r_zero),
            resistance: text_member(self.resistance),
            ppm: text_member(self.ppm),
            corrected_ppm: text_member(self.corrected_ppm),
        }
    }
}

impl Field {
    /// The member's name on the wire.
    pub open spec fn wire_name(self) -> Seq<char> {
        match self {
            Field::Timestamp => "timestamp"@,
            Field::Temperature => "temperature"@,
            Field::Humidity => "humidity"@,
            Field::RZero => "r_zero"@,
            Field::CorrectedRZero => "corrected_r_zero"@,
            Field::Resistance => "resistance"@,
            Field::Ppm => "ppm"@,
            Field::CorrectedPpm => "corrected_ppm"@,
        }
    }

    /// The member's name on the wire.
    pub fn name(self) -> (r: &'static str)
        ensures
            r@ == self.wire_name(),
    {
        match self {
            Field::Timestamp => "timestamp",
            Field::Temperature => "temperature",
            Field::Humidity => "humidity",
            Field::RZero => "r_zero",
            Field::CorrectedRZero => "corrected_r_zero",
            Field::Resistance => "resistance",
            Field::Ppm => "ppm",
            Field::CorrectedPpm => "corrected_ppm",
        }
    }
}

impl<T> Member<T> {
    /// The error that this member causes in `field`, if it causes one.
    pub open spec fn fault(self, field: Field) -> Option<DecodeError> {
        match self {
            Member::Absent => Some(DecodeError::Missing(field)),
            Member::Mistyped => Some(DecodeError::Mistyped(field)),
            Member::Number(_) => None,
        }
    }

    /// The member's value, or the error that it causes in `field`.
    pub fn number(self, field: Field) -> (r: Result<T, DecodeError>)
        ensures
            match r {
                Ok(value) => self == Member::Number(value),
                Err(e) => self.fault(field) == Some(e),
            },
    {
        match self {
            Member::Absent => Err(DecodeError::Missing(field)),
            Member::Mistyped => Err(DecodeError::Mistyped(field)),
            Member::Number(value) => Ok(value),
        }
    }
}

impl MembersView {
    /// The first error among the members, in wire order, if there is one.
    pub open spec fn first_fault(self) -> Option<DecodeError> {
        if self.timestamp.fault(Field::Timestamp).is_some() {
            self.timestamp.fault(Field::Timestamp)
        } else if self.temperature.fault(Field::Temperature).is_some() {
            self.temperature.fault(Field::Temperature)
        } else if self.humidity.fault(Field::Humidity).is_some() {
            self.humidity.fault(Field::Humidity)
        } else if self.r_zero.fault(Field::RZero).is_some() {
            self.r_zero.fault(Field::RZero)
        } else if self.corrected_r_zero.fault(Field::CorrectedRZero).is_some() {
            self.corrected_r_zero.fault(Field::CorrectedRZero)
        } else if self.resistance.fault(Field::Resistance).is_some() {
            self.resistance.fault(Field::Resistance)
        } else if self.ppm.fault(Field::Ppm).is_some() {
            self.ppm.fault(Field::Ppm)
        } else {
            self.corrected_ppm.fault(Field::CorrectedPpm)
        }
    }

    /// The members of the wire form of `frame`.
    pub open spec fn of(frame: FrameView) -> MembersView {
        MembersView {
            timestamp: Member::Number(frame.timestamp),
            temperature: Member::Number(frame.numerals.temperature),
            humidity: Member::Number(frame.numerals.humidity),
            r_zero: Member::Number(frame.numerals.r_zero),
            corrected_r_zero: Member::Number(frame.numerals.corrected_r_zero),
            resistance: Member::Number(frame.numerals.resistance),
            ppm: Member::Number(frame.numerals.ppm),
            corrected_ppm: Member::Number(frame.numerals.corrected_ppm),
        }
    }

    /// The frame that the members make up: all eight have to be numbers, and
    /// the first one in wire order that is not decides the error.
    pub open spec fn assembled(self) -> Result<FrameView, DecodeError> {
        match self.first_fault() {
            Some(e) => Err(e),
            None => Ok(
                FrameView {
                    timestamp: self.timestamp->Number_0,
                    numerals: NumeralTexts {
                        temperature: self.temperature->Number_0,
                        humidity: self.humidity->Number_0,
                        r_zero: self.r_zero->Number_0,
                        corrected_r_zero: self.corrected_r_zero->Number_0,
                        resistance: self.resistance->Number_0,
                        ppm: self.ppm->Number_0,
                        corrected_ppm: self.corrected_ppm->Number_0,
                    },
                },
            ),
        }
    }
}

/// Makes a frame of what a document holds under the eight names: whole, or
/// not at all.
pub fn frame_from_members(members: Members) -> (r: Result<Frame, DecodeError>)
    ensures
        match r {
            Ok(frame) => members@.assembled() == Ok::<FrameView, DecodeError>(frame@),
            Err(e) => members@.assembled() == Err::<FrameView, DecodeError>(e),
        },
{
    let timestamp = match members.timestamp.number(Field::Timestamp) {
        Ok(value) => value,
        Err(e) => {
            return Err(e);
        },
    };
    let temperature = match members.temperature.number(Field::Temperature) {
        Ok(value) => value,
        Err(e) => {
            return Err(e);
        },
    };
    let humidity = match members.humidity.number(Field::Humidity) {
        Ok(value) => value,
        Err(e) => {
            return Err(e);
        },
    };
    let r_zero = match members.r_zero.number(Field::RZero) {
        Ok(value) => value,
        Err(e) => {
            return Err(e);
        },
    };
    let corrected_r_zero = match members.corrected_r_zero.number(Field::CorrectedRZero) {
        Ok(value) => value,
        Err(e) => {
            return Err(e);
        },
    };
    let resistance = match members.resistance.number(Field::Resistance) {
        Ok(value) => value,
        Err(e) => {
            return Err(e);
        },
    };
    let ppm = match members.ppm.number(Field::Ppm) {
        Ok(value) => value,
        Err(e) => {
            return Err(e);
        },
    };
    let corrected_ppm = match members.corrected_ppm.number(Field::CorrectedPpm) {
        Ok(value) => value,
        Err(e) => {
            return Err(e);
        },
    };
    Ok(
        Frame {
            timestamp,
            numerals: Numerals {
                temperature,
                humidity,
                r_zero,
                corrected_r_zero,
                resistance,
                ppm,
                corrected_ppm,
            },
        },
    )
}

/// `serde_json::Value`, a parsed JSON document. Nothing of its inside is
/// visible to the proofs: what it holds is spoken of through `json_member`,
/// `json_u64` and `json_numeral`.
#[verifier::external_type_specification]
#[verifier::external_body]
pub struct ExValue(serde_json::Value);

/// The document that `serde_json::from_slice` reads from `text`, or `None`
/// where it reports an error.
pub uninterp spec fn json_document(text: Seq<u8>) -> Option<serde_json::Value>;

/// What `serde_json::Value::get` finds in `doc` under the string index `key`.
pub uninterp spec fn json_member(doc: serde_json::Value, key: Seq<char>) -> Option<serde_json::Value>;

/// What `serde_json::Value::as_u64` makes of `value`.
pub uninterp spec fn json_u64(value: serde_json::Value) -> Option<u64>;

/// The text that `serde_json` writes for `value` if it is a number, `None` if
/// it is anything else.
pub uninterp spec fn json_numeral(value: serde_json::Value) -> Option<Seq<char>>;

/// Calls `serde_json::from_slice` for a `Value`. The contract only names the
/// outcome: the same bytes always give the same document or the same refusal.
#[verifier::external_body]
fn parse(payload: &[u8]) -> (r: Option<serde_json::Value>)
    ensures
        r == json_document(payload@),
{
    serde_json::from_slice::<serde_json::Value>(payload).ok()
}

/// Calls `serde_json::Value::get` with a string index. The contract only
/// names the outcome.
#[verifier::external_body]
fn lookup<'a>(doc: &'a serde_json::Value, key: &str) -> (r: Option<&'a serde_json::Value>)
    ensures
        match r {
            Some(value) => json_member(*doc, key@) == Some(*value),
            None => json_member(*doc, key@).is_none(),
        },
{
    doc.get(key)
}

/// Calls `serde_json::Value::as_u64`. The contract only names the outcome.
#[verifier::external_body]
fn unsigned(value: &serde_json::Value) -> (r: Option<u64>)
    ensures
        r == json_u64(*value),
{
    value.as_u64()
}

/// Calls `serde_json::Value::as_number` and writes the number out with its
/// `Display`. The contract only names the outcome.
#[verifier::external_body]
fn numeral(value: &serde_json::Value) -> (r: Option<String>)
    ensures
        match r {
            Some(text) => json_numeral(*value) == Some(text@),
            None => json_numeral(*value).is_none(),
        },
{
    value.as_number().map(ToString::to_string)
}

/// What `doc` holds under the name of `field`, read as a whole number that
/// is not negative.
pub open spec fn integer_in(doc: serde_json::Value, field: Field) -> Member<u64> {
    match json_member(doc, field.wire_name()) {
        None => Member::Absent,
        Some(value) => match json_u64(value) {
            None => Member::Mistyped,
            Some(n) => Member::Number(n),
        },
    }
}

/// What `doc` holds under the name of `field`, read as the text of a number.
pub open spec fn numeral_in(doc: serde_json::Value, field: Field) -> Member<Seq<char>> {
    match json_member(doc, field.wire_name()) {
        None => Member::Absent,
        Some(value) => match json_numeral(value) {
            None => Member::Mistyped,
            Some(text) => Member::Number(text),
        },
    }
}

/// What `doc` holds under each of the eight names.
pub open spec fn members_in(doc: serde_json::Value) -> MembersView {
    MembersView {
        timestamp: integer_in(doc, Field::Timestamp),
        temperature: numeral_in(doc, Field::Temperature),
        humidity: numeral_in(doc, Field::Humidity),
        r_zero: numeral_in(doc, Field::RZero),
        corrected_r_zero: numeral_in(doc, Field::CorrectedRZero),
        resistance: numeral_in(doc, Field::Resistance),
        ppm: numeral_in(doc, Field::Ppm),
        corrected_ppm: numeral_in(doc, Field::CorrectedPpm),
    }
}

/// The frame that `text` is the wire form of, or the reason why it is none.
pub open spec fn decoded(text: Seq<u8>) -> Result<FrameView, DecodeError> {
    match json_document(text) {
        None => Err(DecodeError::Syntax),
        Some(doc) => members_in(doc).assembled(),
    }
}

/// Looks up the member of `field` and reads it as a whole number that is not
/// negative.
fn integer_member(doc: &serde_json::Value, field: Field) -> (r: Member<u64>)
    ensures
        r == integer_in(*doc, field),
{
    match lookup(doc, field.name()) {
        None => Member::Absent,
        Some(value) => match unsigned(value) {
            None => Member::Mistyped,
            Some(n) => Member::Number(n),
        },
    }
}

/// Looks up the member of `field` and reads it as the text of a number.
fn numeral_member(doc: &serde_json::Value, field: Field) -> (r: Member<String>)
    ensures
        text_member(r) == numeral_in(*doc, field),
{
    match lookup(doc, field.name()) {
        None => Member::Absent,
        Some(value) => match numeral(value) {
            None => Member::Mistyped,
            Some(text) => Member::Number(text),
        },
    }
}

/// Reads a payload: the text has to be a JSON document that holds a number
/// under each of the eight names, a whole one that is not negative for the
/// timestamp. Members of other names are passed over.
pub fn decode(payload: &[u8]) -> (r: Result<Frame, DecodeError>)
    ensures
        match r {
            Ok(frame) => decoded(payload@) == Ok::<FrameView, DecodeError>(frame@),
            Err(e) => decoded(payload@) == Err::<FrameView, DecodeError>(e),
        },
{
    match parse(payload) {
        None => Err(DecodeError::Syntax),
        Some(doc) => {
            let members = Members {
                timestamp: integer_member(&doc, Field::Timestamp),
                temperature: numeral_member(&doc, Field::Temperature),
                humidity: numeral_member(&doc, Field::Humidity),
                r_zero: numeral_member(&doc, Field::RZero),
                corrected_r_zero: numeral_member(&doc, Field::CorrectedRZero),
                resistance: numeral_member(&doc, Field::Resistance),
                ppm: numeral_member(&doc, Field::Ppm),
                corrected_ppm: numeral_member(&doc, Field::CorrectedPpm),
            };
            frame_from_members(members)
        },
    }
}

/// The character for one decimal digit.
pub open spec fn digit(d: nat) -> char {
    if d == 0 {
        '0'
    } else if d == 1 {
        '1'
    } else if d == 2 {
        '2'
    } else if d == 3 {
        '3'
    } else if d == 4 {
        '4'
    } else if d == 5 {
        '5'
    } else if d == 6 {
        '6'
    } else if d == 7 {
        '7'
    } else if d == 8 {
        '8'
    } else {
        '9'
    }
}

/// A natural number in decimal, most significant digit first, without
/// leading zeros.
pub open spec fn decimal(n: nat) -> Seq<char>
    decreases n,
{
    if n < 10 {
        seq![digit(n)]
    } else {
        decimal(n / 10).push(digit(n % 10))
    }
}

/// A member's name as it stands in the object: quoted, with the colon.
pub open spec fn key(field: Field) -> Seq<char> {
    "\""@ + field.wire_name() + "\":"@
}

/// The wire object: the eight members in order, the timestamp in decimal and
/// each measurement as its text, without any space.
pub open spec fn encoded(frame: FrameView) -> Seq<char> {
    "{"@ + key(Field::Timestamp) + decimal(frame.timestamp as nat)
        + ","@ + key(Field::Temperature) + frame.numerals.temperature
        + ","@ + key(Field::Humidity) + frame.numerals.humidity
        + ","@ + key(Field::RZero) + frame.numerals.r_zero
        + ","@ + key(Field::CorrectedRZero) + frame.numerals.corrected_r_zero
        + ","@ + key(Field::Resistance) + frame.numerals.resistance
        + ","@ + key(Field::Ppm) + frame.numerals.ppm
        + ","@ + key(Field::CorrectedPpm) + frame.numerals.corrected_ppm
        + "}"@
}

/// The text of one decimal digit.
fn digit_text(d: u64) -> (r: &'static str)
    requires
        d < 10,
    ensures
        r@ == seq![digit(d as nat)],
{
    proof {
        reveal_strlit("0");
        reveal_strlit("1");
        reveal_strlit("2");
        reveal_strlit("3");
        reveal_strlit("4");
        reveal_strlit("5");
        reveal_strlit("6");
        reveal_strlit("7");
        reveal_strlit("8");
        reveal_strlit("9");
    }
    let r = if d == 0 {
        "0"
    } else if d == 1 {
        "1"
    } else if d == 2 {
        "2"
    } else if d == 3 {
        "3"
    } else if d == 4 {
        "4"
    } else if d == 5 {
        "5"
    } else if d == 6 {
        "6"
    } else if d == 7 {
        "7"
    } else if d == 8 {
        "8"
    } else {
        "9"
    };
    assert(r@ =~= seq![digit(d as nat)]);
    r
}

/// Appends `n` in decimal.
fn push_decimal(out: &mut String, n: u64)
    ensures
        final(out)@ == old(out)@ + decimal(n as nat),
    decreases n,
{
    if n >= 10 {
        push_decimal(out, n / 10);
    }
    out.append(digit_text(n % 10));
    assert(out@ =~= old(out)@ + decimal(n as nat));
}

/// Appends a member's quoted name and the colon.
fn push_key(out: &mut String, field: Field)
    ensures
        final(out)@ == old(out)@ + key(field),
{
    out.append("\"");
    out.append(field.name());
    out.append("\":");
    assert(out@ =~= old(out)@ + key(field));
}

/// Appends a comma and one member.
fn push_member(out: &mut String, field: Field, numeral: &str)
    ensures
        final(out)@ == old(out)@ + ","@ + key(field) + numeral@,
{
    out.append(",");
    push_key(out, field);
    out.append(numeral);
}

/// Writes a frame as the wire object.
pub fn encode(frame: &Frame) -> (r: String)
    ensures
        r@ == encoded(frame@),
{
    let mut out = String::from_str("{");
    push_key(&mut out, Field::Timestamp);
    push_decimal(&mut out, frame.timestamp);
    push_member(&mut out, Field::Temperature, frame.numerals.temperature.as_str());
    push_member(&mut out, Field::Humidity, frame.numerals.humidity.as_str());
    push_member(&mut out, Field::RZero, frame.numerals.r_zero.as_str());
    push_member(&mut out, Field::CorrectedRZero, frame.numerals.corrected_r_zero.as_str());
    push_member(&mut out, Field::Resistance, frame.numerals.resistance.as_str());
    push_member(&mut out, Field::Ppm, frame.numerals.ppm.as_str());
    push_member(&mut out, Field::CorrectedPpm, frame.numerals.corrected_ppm.as_str());
    out.append("}");
    out
}

/// The number that a decimal digit stands for.
pub open spec fn digit_value(c: char) -> nat {
    if c == '1' {
        1
    } else if c == '2' {
        2
    } else if c == '3' {
        3
    } else if c == '4' {
        4
    } else if c == '5' {
        5
    } else if c == '6' {
        6
    } else if c == '7' {
        7
    } else if c == '8' {
        8
    } else if c == '9' {
        9
    } else {
        0
    }
}

/// The number that a run of decimal digits stands for.
pub open spec fn decimal_value(digits: Seq<char>) -> nat
    decreases digits.len(),
{
    if digits.len() == 0 {
        0
    } else {
        decimal_value(digits.drop_last()) * 10 + digit_value(digits.last())
    }
}

/// The decimal text of a number is made of digits only, has no leading zero
/// unless the number is zero, and reads back as the number.
pub proof fn law_decimal_reads_back(n: nat)
    ensures
        decimal_value(decimal(n)) == n,
        decimal(n).len() >= 1,
        forall|i: int|
            0 <= i < decimal(n).len() ==> digit(digit_value(#[trigger] decimal(n)[i])) == decimal(
                n,
            )[i],
        decimal(n)[0] == '0' <==> n == 0,
    decreases n,
{
    if n < 10 {
        assert(decimal(n).drop_last() =~= Seq::<char>::empty());
        assert(decimal_value(Seq::<char>::empty()) == 0);
    } else {
        law_decimal_reads_back(n / 10);
        assert(decimal(n).drop_last() =~= decimal(n / 10));
    }
}

/// A document that holds every member of a frame as it is gives that frame
/// back, field for field.
pub proof fn law_members_round_trip(frame: FrameView)
    ensures
        MembersView::of(frame).assembled() == Ok::<FrameView, DecodeError>(frame),
{
}

/// A document fails exactly when one of the eight members is absent or
/// mistyped, and then with the error of the first such member in wire order;
/// a document that does not fail holds all eight as they stand in the frame.
pub proof fn law_failure_is_first_fault(members: MembersView)
    ensures
        members.assembled().is_err() <==> members.first_fault().is_some(),
        members.assembled() matches Err(e) ==> members.first_fault() == Some(e) && e
            != DecodeError::Syntax,
        members.assembled() matches Ok(frame) ==> members == MembersView::of(frame),
{
}

/// A text fails with `Syntax` exactly when it is no JSON document at all.
pub proof fn law_syntax_error(text: Seq<u8>)
    ensures
        decoded(text) == Err::<FrameView, DecodeError>(DecodeError::Syntax) <==> json_document(
            text,
        ).is_none(),
{
    if let Some(doc) = json_document(text) {
        law_failure_is_first_fault(members_in(doc));
    }
}

} // verus!
