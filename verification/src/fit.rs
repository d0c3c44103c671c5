//! Decoded activity messages.
//!
//! The binary format is decoded by the `fitparser` crate. The library does
//! not call the decoder itself: a caller runs it and hands over the
//! records, which are copied, field by field, into plain values that the
//! rest of the library can reason about. A message is a kind and a list
//! of named fields.

use crate::error::Error;
use fitparser::profile::MesgNum;
use fitparser::{ErrorKind, FitDataRecord, Value};
use vstd::prelude::*;
use vstd::string::*;

verus! {

/// A decoded record of the `fitparser` crate.
#[verifier::external_type_specification]
#[verifier::external_body]
pub struct ExFitDataRecord(FitDataRecord);

/// The kinds of message that import tells apart.
#[derive(Clone, Copy, Debug, PartialEq, Eq, Structural)]
pub enum MessageKind {
    /// Identifies the file: device, serial number, creation time.
    FileId,
    /// Summary of one segment of the activity.
    Lap,
    /// One telemetry sample.
    Record,
    /// Any other kind; import passes over it.
    Other,
}

/// The kind of a decoded record, as far as import tells kinds apart.
pub uninterp spec fn record_kind(record: FitDataRecord) -> MessageKind;

/// What a decoded record holds: its fields in stored order, each with its
/// name, its value as a plain value and the text that the decoder prints
/// for the value.
pub uninterp spec fn record_fields(record: FitDataRecord) -> Seq<FieldView>;

/// `FitDataRecord::kind`, reduced to the kinds that import tells apart.
/// Trusted: the result depends on the record alone.
#[verifier::external_body]
fn kind_of(record: &FitDataRecord) -> (kind: MessageKind)
    ensures
        kind == record_kind(*record),
{
    match record.kind() {
        MesgNum::FileId => MessageKind::FileId,
        MesgNum::Lap => MessageKind::Lap,
        MesgNum::Record => MessageKind::Record,
        _ => MessageKind::Other,
    }
}

/// The value of a field.
///
/// All integer types of the format share one variant. Floating point
/// values are carried as their bit patterns and never interpreted.
#[derive(Clone, Debug, PartialEq, Eq)]
pub enum FieldValue {
    /// A point in time, in seconds since the Unix epoch.
    Timestamp(i64),
    /// Any integer, byte or enumeration value.
    Integer(i64),
    /// A single precision number, as its bit pattern.
    Single(u32),
    /// A double precision number, as its bit pattern.
    Double(u64),
    /// A string.
    Text(String),
    /// An array of values; import cannot store it.
    Array,
    /// A value that the device marked as not set.
    Invalid,
}

/// `FitDataRecord::fields`, counted. Trusted: the record holds this many
/// fields.
#[verifier::external_body]
fn field_count(record: &FitDataRecord) -> (count: usize)
    ensures
        count == record_fields(*record).len(),
{
    record.fields().len()
}

/// `FitDataField::name` of the field at `index`. Trusted: it is the name of
/// that field, and depends on the record alone.
#[verifier::external_body]
fn name_at(record: &FitDataRecord, index: usize) -> (name: String)
    requires
        index < record_fields(*record).len(),
    ensures
        name@ == record_fields(*record)[index as int].name,
{
    record.fields()[index].name().to_string()
}

/// `FitDataField::value` of the field at `index`, as a plain value: one arm
/// for each variant of `fitparser::Value` that carries something other
/// than an integer, and the crate's own conversion to `i64`
/// (`TryInto<i64>` for `&Value`) for all the integer variants. Trusted: it
/// is the value of that field, and depends on the record alone.
#[verifier::external_body]
fn value_at(record: &FitDataRecord, index: usize) -> (value: FieldValue)
    requires
        index < record_fields(*record).len(),
    ensures
        value@ == record_fields(*record)[index as int].value,
{
    match record.fields()[index].value() {
        Value::Timestamp(time) => FieldValue::Timestamp(time.timestamp()),
        Value::Float32(number) => FieldValue::Single(number.to_bits()),
        Value::Float64(number) => FieldValue::Double(number.to_bits()),
        Value::String(text) => FieldValue::Text(text.clone()),
        Value::Array(_) => FieldValue::Array,
        Value::Invalid => FieldValue::Invalid,
        integer => match integer.try_into() {
            Ok(number) => FieldValue::Integer(number),
            Err(_) => FieldValue::Invalid,
        },
    }
}

/// `Display` of the `fitparser::Value` of the field at `index`. Trusted: it
/// is the text that the decoder prints for that field's value, and depends
/// on the record alone.
#[verifier::external_body]
fn text_at(record: &FitDataRecord, index: usize) -> (text: String)
    requires
        index < record_fields(*record).len(),
    ensures
        text@ == record_fields(*record)[index as int].text,
{
    record.fields()[index].value().to_string()
}

/// `ErrorKind::ValueError`, the decoder's error for a value of the wrong
/// type, built from its message. Nothing is claimed of what it returns.
#[verifier::external_body]
pub(crate) fn value_error(message: String) -> ErrorKind {
    ErrorKind::ValueError(message)
}

/// Mathematical model of a `FieldValue`.
pub enum FieldValueView {
    Timestamp(i64),
    Integer(i64),
    Single(u32),
    Double(u64),
    Text(Seq<char>),
    Array,
    Invalid,
}

impl View for FieldValue {
    type V = FieldValueView;

    open spec fn view(&self) -> FieldValueView {
        match self {
            FieldValue::Timestamp(seconds) => FieldValueView::Timestamp(*seconds),
            FieldValue::Integer(number) => FieldValueView::Integer(*number),
            FieldValue::Single(bits) => FieldValueView::Single(*bits),
            FieldValue::Double(bits) => FieldValueView::Double(*bits),
            FieldValue::Text(text) => FieldValueView::Text(text@),
            FieldValue::Array => FieldValueView::Array,
            FieldValue::Invalid => FieldValueView::Invalid,
        }
    }
}

/// A named field of a message: its value and the text the decoder prints
/// for that value.
#[derive(Clone, Debug, PartialEq, Eq)]
pub struct Field {
    pub name: String,
    pub value: FieldValue,
    pub text: String,
}

/// Mathematical model of a `Field`.
pub struct FieldView {
    pub name: Seq<char>,
    pub value: FieldValueView,
    pub text: Seq<char>,
}

impl View for Field {
    type V = FieldView;

    open spec fn view(&self) -> FieldView {
        FieldView { name: self.name@, value: self.value@, text: self.text@ }
    }
}

impl Field {
    /// A field from its parts.
    pub fn new(name: &str, value: FieldValue, text: &str) -> (r: Field)
        ensures
            r@ == (FieldView { name: name@, value: value@, text: text@ }),
    {
        Field { name: name.to_owned(), value, text: text.to_owned() }
    }
}

/// The models of a sequence of fields.
pub open spec fn field_views(fields: Seq<Field>) -> Seq<FieldView> {
    Seq::new(fields.len(), |i: int| fields[i]@)
}

/// One decoded message: its kind and its fields in stored order.
#[derive(Clone, Debug, PartialEq, Eq)]
pub struct Message {
    pub kind: MessageKind,
    pub fields: Vec<Field>,
}

/// Mathematical model of a `Message`.
pub struct MessageView {
    pub kind: MessageKind,
    pub fields: Seq<FieldView>,
}

impl View for Message {
    type V = MessageView;

    open spec fn view(&self) -> MessageView {
        MessageView { kind: self.kind, fields: field_views(self.fields@) }
    }
}

/// The models of a sequence of messages.
pub open spec fn message_views(messages: Seq<Message>) -> Seq<MessageView> {
    Seq::new(messages.len(), |i: int| messages[i]@)
}

/// The field that a lookup by name finds: the last one called `name`. A
/// later field shadows an earlier one of the same name.
pub open spec fn lookup(fields: Seq<FieldView>, name: Seq<char>) -> Option<FieldView>
    decreases fields.len(),
{
    if fields.len() == 0 {
        None
    } else if fields.last().name == name {
        Some(fields.last())
    } else {
        lookup(fields.drop_last(), name)
    }
}

impl Message {
    /// A message of the given kind without fields.
    pub fn new(kind: MessageKind) -> (r: Message)
        ensures
            r@ == (MessageView { kind, fields: Seq::empty() }),
    {
        let r = Message { kind, fields: Vec::new() };
        assert(field_views(r.fields@) =~= Seq::empty());
        r
    }

    /// Adds a field after the ones already there.
    pub fn push(&mut self, field: Field)
        ensures
            final(self)@ == (MessageView {
                kind: old(self)@.kind,
                fields: old(self)@.fields.push(field@),
            }),
    {
        self.fields.push(field);
        assert(field_views(self.fields@) =~= field_views(old(self).fields@).push(field@));
    }

    /// Looks a field up by name.
    pub fn get(&self, name: &str) -> (r: Option<&Field>)
        ensures
            match r {
                Some(field) => lookup(self@.fields, name@) == Some(field@),
                None => lookup(self@.fields, name@) is None,
            },
    {
        let mut i: usize = self.fields.len();
        assert(self@.fields.take(i as int) =~= self@.fields);
        while i > 0
            invariant
                0 <= i <= self.fields.len(),
                lookup(self@.fields, name@) == lookup(self@.fields.take(i as int), name@),
            decreases i,
        {
            let field = &self.fields[i - 1];
            proof {
                let prefix = self@.fields.take(i as int);
                assert(prefix.last() == field@);
                assert(prefix.drop_last() =~= self@.fields.take(i - 1));
            }
            if field.name.as_str().eq(name) {
                return Some(field);
            }
            i = i - 1;
        }
        None
    }
}

/// The message that a decoded record becomes: its kind and its fields.
pub open spec fn record_message(record: FitDataRecord) -> MessageView {
    MessageView { kind: record_kind(record), fields: record_fields(record) }
}

/// The messages that decoded records become, one for one and in order.
pub open spec fn record_messages(records: Seq<FitDataRecord>) -> Seq<MessageView> {
    Seq::new(records.len(), |i: int| record_message(records[i]))
}

/// Copies one decoded record into a message: the kind, and every field in
/// stored order with its name, its value and its text.
fn message_of(record: &FitDataRecord) -> (message: Message)
    ensures
        message@ == record_message(*record),
{
    let mut message = Message::new(kind_of(record));
    let count = field_count(record);
    let mut i: usize = 0;
    assert(record_fields(*record).take(0) =~= Seq::<FieldView>::empty());
    while i < count
        invariant
            0 <= i <= count,
            count == record_fields(*record).len(),
            message@ == (MessageView {
                kind: record_kind(*record),
                fields: record_fields(*record).take(i as int),
            }),
        decreases count - i,
    {
        let field = Field {
            name: name_at(record, i),
            value: value_at(record, i),
            text: text_at(record, i),
        };
        assert(field@ == record_fields(*record)[i as int]);
        message.push(field);
        assert(record_fields(*record).take(i + 1) =~= record_fields(*record).take(i as int).push(
            record_fields(*record)[i as int],
        ));
        i = i + 1;
    }
    assert(record_fields(*record).take(count as int) =~= record_fields(*record));
    message
}

/// Copies decoded records into messages, one for one and in order.
///
/// What a message holds is what the decoder put into the record: the kind,
/// and for each field its name, its value and the text that the decoder
/// prints for the value.
pub fn messages_of(records: &[FitDataRecord]) -> (messages: Vec<Message>)
    ensures
        message_views(messages@) == record_messages(records@),
{
    let mut messages: Vec<Message> = Vec::new();
    let mut i: usize = 0;
    while i < records.len()
        invariant
            0 <= i <= records.len(),
            messages@.len() == i,
            forall|k: int| 0 <= k < i ==> (#[trigger] messages@[k])@ == record_message(records@[k]),
        decreases records.len() - i,
    {
        messages.push(message_of(&records[i]));
        i = i + 1;
    }
    assert(message_views(messages@) =~= record_messages(records@));
    messages
}

/// Turns what the decoder returned into what import takes: the records as
/// messages, or the decoder's error as `Error::FitParser`.
pub fn decoded(outcome: Result<Vec<FitDataRecord>, Box<ErrorKind>>) -> (r: Result<
    Vec<Message>,
    Error,
>)
    ensures
        match outcome {
            Ok(records) => r matches Ok(messages) && message_views(messages@) == record_messages(
                records@,
            ),
            Err(kind) => r == Err::<Vec<Message>, Error>(Error::FitParser(*kind)),
        },
{
    match outcome {
        Ok(records) => Ok(messages_of(records.as_slice())),
        Err(kind) => Err(Error::FitParser(*kind)),
    }
}

} // verus!
