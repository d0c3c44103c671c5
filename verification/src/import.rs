//! The import engine: from the decoded messages of one activity file to
//! the rows that make it a stored activity.
//!
//! The engine never touches storage. It is told which fingerprints are
//! stored already and answers with an `ImportPlan`: the inserts to issue, in
//! order, inside one transaction. The caller issues them and commits, or
//! rolls back if anything fails; a refused import has no plan, so nothing
//! of it can ever become visible.

use crate::error::Error;
use crate::fit::{
    lookup, message_views, value_error, Field, FieldValue, FieldValueView, FieldView, Message,
    MessageKind, MessageView,
};
use crate::identity::{fingerprint, generate_uuid};
use vstd::prelude::*;
use vstd::string::*;

verus! {

/// A value bound to a statement parameter.
#[derive(Clone, Debug, PartialEq, Eq)]
pub enum SqlParam {
    /// SQL `NULL`.
    Null,
    /// An integer.
    Integer(i64),
    /// A single precision number, as its bit pattern.
    Single(u32),
    /// A double precision number, as its bit pattern.
    Double(u64),
    /// Text.
    Text(String),
    /// A point in time in seconds since the Unix epoch; stored as text in
    /// RFC 3339 form, in UTC.
    Timestamp(i64),
}

/// Mathematical model of a `SqlParam`.
pub enum SqlParamView {
    Null,
    Integer(i64),
    Single(u32),
    Double(u64),
    Text(Seq<char>),
    Timestamp(i64),
}

impl View for SqlParam {
    type V = SqlParamView;

    open spec fn view(&self) -> SqlParamView {
        match self {
            SqlParam::Null => SqlParamView::Null,
            SqlParam::Integer(number) => SqlParamView::Integer(*number),
            SqlParam::Single(bits) => SqlParamView::Single(*bits),
            SqlParam::Double(bits) => SqlParamView::Double(*bits),
            SqlParam::Text(text) => SqlParamView::Text(text@),
            SqlParam::Timestamp(seconds) => SqlParamView::Timestamp(*seconds),
        }
    }
}

/// The models of a sequence of parameters.
pub open spec fn param_views(params: Seq<SqlParam>) -> Seq<SqlParamView> {
    Seq::new(params.len(), |i: int| params[i]@)
}

/// The parameter that stands for a field value, or `None` for a value that
/// cannot be stored. Only arrays cannot; a value marked as not set is
/// stored as `NULL`.
pub open spec fn sql_value(value: FieldValueView) -> Option<SqlParamView> {
    match value {
        FieldValueView::Timestamp(seconds) => Some(SqlParamView::Timestamp(seconds)),
        FieldValueView::Integer(number) => Some(SqlParamView::Integer(number)),
        FieldValueView::Single(bits) => Some(SqlParamView::Single(bits)),
        FieldValueView::Double(bits) => Some(SqlParamView::Double(bits)),
        FieldValueView::Text(text) => Some(SqlParamView::Text(text)),
        FieldValueView::Array => None,
        FieldValueView::Invalid => Some(SqlParamView::Null),
    }
}

/// Converts a field value into a statement parameter. Fails with
/// `ArrayConversionError` for an array and for nothing else.
pub fn to_sql(value: &FieldValue) -> (r: Result<SqlParam, Error>)
    ensures
        match sql_value(value@) {
            Some(param) => r is Ok && r->Ok_0@ == param,
            None => r matches Err(Error::ArrayConversionError),
        },
{
    match value {
        FieldValue::Timestamp(seconds) => Ok(SqlParam::Timestamp(*seconds)),
        FieldValue::Integer(number) => Ok(SqlParam::Integer(*number)),
        FieldValue::Single(bits) => Ok(SqlParam::Single(*bits)),
        FieldValue::Double(bits) => Ok(SqlParam::Double(*bits)),
        FieldValue::Text(text) => Ok(SqlParam::Text(text.clone())),
        FieldValue::Array => Err(Error::ArrayConversionError),
        FieldValue::Invalid => Ok(SqlParam::Null),
    }
}

/// The parameter bound for the field called `name`: `NULL` when the
/// message has no such field.
pub open spec fn sql_param(fields: Seq<FieldView>, name: Seq<char>) -> Option<SqlParamView> {
    match lookup(fields, name) {
        None => Some(SqlParamView::Null),
        Some(field) => sql_value(field.value),
    }
}

/// Whether every named field of the message can be bound.
pub open spec fn bindable(fields: Seq<FieldView>, names: Seq<Seq<char>>) -> bool {
    forall|i: int| 0 <= i < names.len() ==> (#[trigger] sql_param(fields, names[i])) is Some
}

/// The parameters bound for the named fields, one per name, in the order
/// of the names.
pub open spec fn bound(fields: Seq<FieldView>, names: Seq<Seq<char>>) -> Seq<SqlParamView> {
    Seq::new(names.len(), |i: int| sql_param(fields, names[i])->Some_0)
}

/// The character sequences of a list of names.
pub open spec fn name_views(names: Seq<&'static str>) -> Seq<Seq<char>> {
    Seq::new(names.len(), |i: int| names[i]@)
}

/// Message fields bound to the columns of a `files` row, in column order.
/// The fingerprint follows them.
pub open spec fn file_field_names() -> Seq<Seq<char>> {
    seq!["type"@, "manufacturer"@, "garmin_product"@, "serial_number"@, "time_created"@]
}

/// Message fields bound to the columns of a `lap_messages` row, in column
/// order. The owning file's identifier follows them.
pub open spec fn lap_field_names() -> Seq<Seq<char>> {
    seq![
        "start_position_lat"@,
        "start_position_long"@,
        "end_position_lat"@,
        "end_position_long"@,
        "enhanced_avg_speed"@,
        "avg_heart_rate"@,
        "total_calories"@,
        "total_distance"@,
        "start_time"@,
        "timestamp"@,
    ]
}

/// Message fields bound to the columns of a `record_messages` row, in
/// column order. The owning file's identifier follows them.
pub open spec fn record_field_names() -> Seq<Seq<char>> {
    seq![
        "position_lat"@,
        "position_long"@,
        "enhanced_speed"@,
        "distance"@,
        "heart_rate"@,
        "timestamp"@,
    ]
}

/// The three tables of the store.
#[derive(Clone, Copy, Debug, PartialEq, Eq, Structural)]
pub enum Table {
    /// One row per imported file.
    Files,
    /// One row per lap message.
    Laps,
    /// One row per record message.
    Records,
}

/// The fields bound for a row of `table`.
pub open spec fn field_names(table: Table) -> Seq<Seq<char>> {
    match table {
        Table::Files => file_field_names(),
        Table::Laps => lap_field_names(),
        Table::Records => record_field_names(),
    }
}

/// The names of the message fields bound for a row of `table`, in the
/// order of the statement's parameters.
pub fn bound_fields(table: Table) -> (names: Vec<&'static str>)
    ensures
        name_views(names@) == field_names(table),
{
    let mut names: Vec<&'static str> = Vec::new();
    match table {
        Table::Files => {
            names.push("type");
            names.push("manufacturer");
            names.push("garmin_product");
            names.push("serial_number");
            names.push("time_created");
        },
        Table::Laps => {
            names.push("start_position_lat");
            names.push("start_position_long");
            names.push("end_position_lat");
            names.push("end_position_long");
            names.push("enhanced_avg_speed");
            names.push("avg_heart_rate");
            names.push("total_calories");
            names.push("total_distance");
            names.push("start_time");
            names.push("timestamp");
        },
        Table::Records => {
            names.push("position_lat");
            names.push("position_long");
            names.push("enhanced_speed");
            names.push("distance");
            names.push("heart_rate");
            names.push("timestamp");
        },
    }
    assert(name_views(names@) =~= field_names(table));
    names
}

/// The insert statement for a row of `table`. Its parameters are the
/// bound fields in order, followed by the fingerprint for `Files` and by
/// the identifier of the owning file for the other two.
pub fn insert_statement(table: Table) -> (sql: &'static str)
    ensures
        sql@ == insert_sql(table),
{
    match table {
        Table::Files =>
            "insert into files (type, device_manufacturer, device_product, device_serial_number, time_created, uuid) values (?1, ?2, ?3, ?4, ?5, ?6)",
        Table::Laps =>
            "insert into lap_messages (start_position_lat, start_position_long, end_position_lat, end_position_long, average_speed, average_heart_rate, total_calories, total_distance, start_time, timestamp, file_id) values (?1, ?2, ?3, ?4, ?5, ?6, ?7, ?8, ?9, ?10, ?11)",
        Table::Records =>
            "insert into record_messages (position_lat, position_long, speed, distance, heart_rate, timestamp, file_id) values (?1, ?2, ?3, ?4, ?5, ?6, ?7)",
    }
}

/// The text of the insert statement for a row of `table`.
pub open spec fn insert_sql(table: Table) -> Seq<char> {
    match table {
        Table::Files =>
            "insert into files (type, device_manufacturer, device_product, device_serial_number, time_created, uuid) values (?1, ?2, ?3, ?4, ?5, ?6)"@,
        Table::Laps =>
            "insert into lap_messages (start_position_lat, start_position_long, end_position_lat, end_position_long, average_speed, average_heart_rate, total_calories, total_distance, start_time, timestamp, file_id) values (?1, ?2, ?3, ?4, ?5, ?6, ?7, ?8, ?9, ?10, ?11)"@,
        Table::Records =>
            "insert into record_messages (position_lat, position_long, speed, distance, heart_rate, timestamp, file_id) values (?1, ?2, ?3, ?4, ?5, ?6, ?7)"@,
    }
}

/// Binds the named fields of a message. Fails with `ArrayConversionError`
/// exactly when one of them holds an array.
pub fn bind(message: &Message, names: &Vec<&'static str>) -> (r: Result<Vec<SqlParam>, Error>)
    ensures
        bindable(message@.fields, name_views(names@)) ==> r is Ok && param_views(r->Ok_0@)
            == bound(message@.fields, name_views(names@)),
        !bindable(message@.fields, name_views(names@)) ==> r matches Err(
            Error::ArrayConversionError,
        ),
{
    let ghost fields = message@.fields;
    let ghost wanted = name_views(names@);
    let mut values: Vec<SqlParam> = Vec::new();
    let mut i: usize = 0;
    while i < names.len()
        invariant
            0 <= i <= names.len(),
            fields == message@.fields,
            wanted == name_views(names@),
            forall|k: int| 0 <= k < i ==> (#[trigger] sql_param(fields, wanted[k])) is Some,
            values@.len() == i,
            wanted.len() == names@.len(),
            param_views(values@) =~= bound(fields, wanted).take(i as int),
        decreases names.len() - i,
    {
        assert(wanted[i as int] == names@[i as int]@);
        let value = match message.get(names[i]) {
            None => SqlParam::Null,
            Some(field) => match to_sql(&field.value) {
                Ok(param) => param,
                Err(error) => {
                    assert(sql_param(fields, wanted[i as int]) is None);
                    return Err(error);
                },
            },
        };
        assert(value@ == sql_param(fields, wanted[i as int])->Some_0);
        let ghost before = values@;
        values.push(value);
        assert forall|k: int| 0 <= k <= i implies param_views(values@)[k] == bound(
            fields,
            wanted,
        )[k] by {
            if k < i {
                assert(param_views(before)[k] == bound(fields, wanted).take(i as int)[k]);
            }
        }
        i = i + 1;
    }
    assert(param_views(values@) =~= bound(fields, wanted));
    Ok(values)
}

/// One row to insert: the table and the values of the bound fields in the
/// order of `field_names`. A `Files` row carries the fingerprint as one
/// more value at the end. A row of another table belongs to the file that
/// the closest `Files` row before it inserts.
#[derive(Clone, Debug, PartialEq, Eq)]
pub struct Insert {
    pub table: Table,
    pub values: Vec<SqlParam>,
}

/// Mathematical model of an `Insert`.
pub struct InsertView {
    pub table: Table,
    pub values: Seq<SqlParamView>,
}

impl View for Insert {
    type V = InsertView;

    open spec fn view(&self) -> InsertView {
        InsertView { table: self.table, values: param_views(self.values@) }
    }
}

/// The models of a sequence of inserts.
pub open spec fn insert_views(inserts: Seq<Insert>) -> Seq<InsertView> {
    Seq::new(inserts.len(), |i: int| inserts[i]@)
}

/// Basic information about one imported file. For a file that holds
/// several activities in a chain it describes the last of them.
#[derive(Clone, Debug, PartialEq, Eq)]
pub struct FileInfo {
    id: Option<u32>,
    manufacturer: String,
    product: String,
    serial_number: u32,
    timestamp: i64,
    uuid: String,
}

/// Mathematical model of a `FileInfo`.
pub struct FileInfoView {
    /// Row identifier; absent until the file is stored.
    pub id: Option<u32>,
    pub manufacturer: Seq<char>,
    pub product: Seq<char>,
    pub serial_number: u32,
    /// Creation time in seconds since the Unix epoch.
    pub timestamp: i64,
    /// The fingerprint.
    pub uuid: Seq<char>,
}

impl View for FileInfo {
    type V = FileInfoView;

    closed spec fn view(&self) -> FileInfoView {
        FileInfoView {
            id: self.id,
            manufacturer: self.manufacturer@,
            product: self.product@,
            serial_number: self.serial_number,
            timestamp: self.timestamp,
            uuid: self.uuid@,
        }
    }
}

impl FileInfo {
    /// A description from its parts.
    pub fn new(
        id: Option<u32>,
        manufacturer: String,
        product: String,
        serial_number: u32,
        timestamp: i64,
        uuid: String,
    ) -> (r: FileInfo)
        ensures
            r@ == (FileInfoView {
                id,
                manufacturer: manufacturer@,
                product: product@,
                serial_number,
                timestamp,
                uuid: uuid@,
            }),
    {
        FileInfo { id, manufacturer, product, serial_number, timestamp, uuid }
    }

    /// Row identifier of the file in the store, once it has one.
    pub fn id(&self) -> (r: Option<u32>)
        ensures
            r == self@.id,
    {
        self.id
    }

    /// Manufacturer of the recording device; empty if the file names none.
    pub fn manufacturer(&self) -> (r: &str)
        ensures
            r@ == self@.manufacturer,
    {
        self.manufacturer.as_str()
    }

    /// Product name of the recording device; empty if the file names none.
    pub fn product(&self) -> (r: &str)
        ensures
            r@ == self@.product,
    {
        self.product.as_str()
    }

    /// Serial number of the recording device.
    pub fn serial_number(&self) -> (r: u32)
        ensures
            r == self@.serial_number,
    {
        self.serial_number
    }

    /// Creation time of the file in seconds since the Unix epoch.
    pub fn timestamp(&self) -> (r: i64)
        ensures
            r == self@.timestamp,
    {
        self.timestamp
    }

    /// The fingerprint computed from the file's bytes.
    pub fn uuid(&self) -> (r: &str)
        ensures
            r@ == self@.uuid,
    {
        self.uuid.as_str()
    }

    /// The same description once storage has assigned `rowid` to the file.
    /// The identifier keeps the low 32 bits of the row identifier.
    pub fn persisted(self, rowid: i64) -> (r: FileInfo)
        ensures
            r@ == (FileInfoView { id: Some(rowid as u32), ..self@ }),
    {
        let id: u32 = #[verifier::truncate] (rowid as u32);
        FileInfo { id: Some(id), ..self }
    }
}

/// The text that the decoder prints for the field called `name`; empty when
/// the message has no such field.
pub open spec fn text_of(fields: Seq<FieldView>, name: Seq<char>) -> Seq<char> {
    match lookup(fields, name) {
        Some(field) => field.text,
        None => Seq::empty(),
    }
}

/// The integer that a value converts to: a timestamp gives its seconds, an
/// integer itself, and nothing else converts.
pub open spec fn integer_value(value: FieldValueView) -> Option<i64> {
    match value {
        FieldValueView::Timestamp(seconds) => Some(seconds),
        FieldValueView::Integer(number) => Some(number),
        _ => None,
    }
}

/// The serial number that a file identification states: `-1` if it has no
/// such field, and `None` if the field does not convert to an integer.
pub open spec fn serial_of(fields: Seq<FieldView>) -> Option<i64> {
    match lookup(fields, "serial_number"@) {
        None => Some(-1i64),
        Some(field) => integer_value(field.value),
    }
}

/// The creation time that a file identification states: the epoch itself
/// if it has no such field or the field is no timestamp.
pub open spec fn created_of(fields: Seq<FieldView>) -> i64 {
    match lookup(fields, "time_created"@) {
        Some(field) => match field.value {
            FieldValueView::Timestamp(seconds) => seconds,
            _ => 0i64,
        },
        None => 0i64,
    }
}

/// The description of the file that a file identification with these
/// fields establishes. The serial number keeps the low 32 bits.
pub open spec fn file_info_of(fields: Seq<FieldView>, uuid: Seq<char>) -> FileInfoView {
    FileInfoView {
        id: None,
        manufacturer: text_of(fields, "manufacturer"@),
        product: text_of(fields, "garmin_product"@),
        serial_number: serial_of(fields)->Some_0 as u32,
        timestamp: created_of(fields),
        uuid,
    }
}

/// The row that a message of a given table contributes.
pub open spec fn row_of(table: Table, fields: Seq<FieldView>, uuid: Seq<char>) -> InsertView {
    match table {
        Table::Files => InsertView {
            table,
            values: bound(fields, file_field_names()).push(SqlParamView::Text(uuid)),
        },
        _ => InsertView { table, values: bound(fields, field_names(table)) },
    }
}

/// What has been staged after some prefix of the messages.
pub struct Staging {
    /// The file that the last file identification so far established.
    pub info: Option<FileInfoView>,
    /// The rows staged so far, in order.
    pub inserts: Seq<InsertView>,
}

/// Why staging stopped.
pub enum ImportFailure {
    /// The fingerprint is stored already.
    Duplicate,
    /// A bound field holds an array.
    Array,
    /// The serial number of a file identification is no integer.
    Serial,
    /// The messages never identified the file.
    NoFileId,
}

/// The table that a message of this kind is stored in, if any.
pub open spec fn table_of(kind: MessageKind) -> Option<Table> {
    match kind {
        MessageKind::FileId => Some(Table::Files),
        MessageKind::Lap => Some(Table::Laps),
        MessageKind::Record => Some(Table::Records),
        MessageKind::Other => None,
    }
}

/// Whether a message yields a row, given whether a file identification
/// came before it. A lap or record before the first file identification
/// has no file to belong to and is passed over, as is any other kind.
pub open spec fn contributes(kind: MessageKind, file_seen: bool) -> bool {
    match kind {
        MessageKind::FileId => true,
        MessageKind::Lap | MessageKind::Record => file_seen,
        MessageKind::Other => false,
    }
}

/// Staging one more message.
pub open spec fn stage(staging: Staging, message: MessageView, uuid: Seq<char>) -> Result<
    Staging,
    ImportFailure,
> {
    if !contributes(message.kind, staging.info is Some) {
        Ok(staging)
    } else {
        let table = table_of(message.kind)->Some_0;
        if !bindable(message.fields, field_names(table)) {
            Err(ImportFailure::Array)
        } else if table == Table::Files && serial_of(message.fields) is None {
            Err(ImportFailure::Serial)
        } else {
            Ok(
                Staging {
                    info: if table == Table::Files {
                        Some(file_info_of(message.fields, uuid))
                    } else {
                        staging.info
                    },
                    inserts: staging.inserts.push(row_of(table, message.fields, uuid)),
                },
            )
        }
    }
}

/// Staging the first `n` messages, in order, stopping at the first failure.
pub open spec fn staged_prefix(messages: Seq<MessageView>, uuid: Seq<char>, n: nat) -> Result<
    Staging,
    ImportFailure,
>
    decreases n,
{
    if n == 0 {
        Ok(Staging { info: None, inserts: Seq::empty() })
    } else {
        match staged_prefix(messages, uuid, (n - 1) as nat) {
            Ok(staging) => stage(staging, messages[n - 1], uuid),
            Err(failure) => Err(failure),
        }
    }
}

/// Mathematical model of an `ImportPlan`.
pub struct PlanView {
    pub file_info: FileInfoView,
    pub inserts: Seq<InsertView>,
}

/// The outcome of staging all messages of a file with fingerprint `uuid`.
pub open spec fn staged(messages: Seq<MessageView>, uuid: Seq<char>) -> Result<
    PlanView,
    ImportFailure,
> {
    match staged_prefix(messages, uuid, messages.len()) {
        Ok(staging) => match staging.info {
            Some(file_info) => Ok(PlanView { file_info, inserts: staging.inserts }),
            None => Err(ImportFailure::NoFileId),
        },
        Err(failure) => Err(failure),
    }
}

/// The outcome of an import, given the fingerprints that are stored: a
/// known fingerprint is refused before anything is staged.
pub open spec fn import_outcome(
    uuid: Seq<char>,
    known: Seq<Seq<char>>,
    messages: Seq<MessageView>,
) -> Result<PlanView, ImportFailure> {
    if known.contains(uuid) {
        Err(ImportFailure::Duplicate)
    } else {
        staged(messages, uuid)
    }
}

/// What to do to store one file: the inserts to issue in order inside one
/// transaction, and the description of the file. The description has no
/// row identifier yet; `FileInfo::persisted` adds it once the last `Files`
/// row is in.
#[derive(Clone, Debug, PartialEq, Eq)]
pub struct ImportPlan {
    pub file_info: FileInfo,
    pub inserts: Vec<Insert>,
}

impl View for ImportPlan {
    type V = PlanView;

    open spec fn view(&self) -> PlanView {
        PlanView { file_info: self.file_info@, inserts: insert_views(self.inserts@) }
    }
}

/// Whether a result is the one that the model prescribes.
pub open spec fn agrees(
    result: Result<ImportPlan, Error>,
    expected: Result<PlanView, ImportFailure>,
    uuid: Seq<char>,
) -> bool {
    match expected {
        Ok(plan) => result is Ok && result->Ok_0@ == plan,
        Err(ImportFailure::Duplicate) => result matches Err(Error::DuplicateFileError(text))
            && text@ == uuid,
        Err(ImportFailure::Array) => result matches Err(Error::ArrayConversionError),
        Err(ImportFailure::Serial) => result matches Err(Error::FitParser(_)),
        Err(ImportFailure::NoFileId) => result matches Err(Error::FileIdMessageNotFound(text))
            && text@ == uuid,
    }
}

/// Once staging has failed it stays failed: later messages change nothing.
pub proof fn lemma_failure_is_final(
    messages: Seq<MessageView>,
    uuid: Seq<char>,
    n: nat,
    m: nat,
)
    requires
        n <= m,
        staged_prefix(messages, uuid, n) is Err,
    ensures
        staged_prefix(messages, uuid, m) == staged_prefix(messages, uuid, n),
    decreases m,
{
    if n < m {
        lemma_failure_is_final(messages, uuid, n, (m - 1) as nat);
    }
}

/// The serial number of a file identification.
fn serial_number_of(message: &Message) -> (r: Result<i64, Error>)
    ensures
        match serial_of(message@.fields) {
            Some(number) => r == Ok::<i64, Error>(number),
            None => r matches Err(Error::FitParser(_)),
        },
{
    match message.get("serial_number") {
        None => Ok(-1),
        Some(field) => match &field.value {
            FieldValue::Timestamp(seconds) => Ok(*seconds),
            FieldValue::Integer(number) => Ok(*number),
            FieldValue::Invalid => Err(
                Error::FitParser(
                    value_error(String::from_str("cannot convert an invalid value into an i64")),
                ),
            ),
            _ => {
                let mut message = String::from_str("cannot convert ");
                message.append(field.text.as_str());
                message.append(" into an i64");
                Err(Error::FitParser(value_error(message)))
            },
        },
    }
}

/// The text printed for the field called `name`, or the empty text.
fn field_text(message: &Message, name: &str) -> (r: String)
    ensures
        r@ == text_of(message@.fields, name@),
{
    match message.get(name) {
        Some(field) => field.text.clone(),
        None => String::new(),
    }
}

/// The creation time that a file identification states.
fn creation_time(message: &Message) -> (r: i64)
    ensures
        r == created_of(message@.fields),
{
    match message.get("time_created") {
        Some(field) => match &field.value {
            FieldValue::Timestamp(seconds) => *seconds,
            _ => 0,
        },
        None => 0,
    }
}

/// Stages the messages of one file, in order.
///
/// A file identification contributes a `Files` row and (re)establishes the
/// description of the file. A lap or a record contributes a row of its
/// table if a file identification came before it and is passed over
/// otherwise. Every other kind is passed over. The first message whose
/// row cannot be built ends the import with its error, and so does a
/// stream without any file identification.
pub fn stage_messages(uuid: &str, messages: &Vec<Message>) -> (r: Result<ImportPlan, Error>)
    ensures
        agrees(r, staged(message_views(messages@), uuid@), uuid@),
{
    let ghost views = message_views(messages@);
    let mut info: Option<FileInfo> = None;
    let mut inserts: Vec<Insert> = Vec::new();
    let mut i: usize = 0;
    assert(insert_views(inserts@) =~= Seq::empty());
    while i < messages.len()
        invariant
            0 <= i <= messages.len(),
            views == message_views(messages@),
            views.len() == messages@.len(),
            staged_prefix(views, uuid@, i as nat) == Ok::<Staging, ImportFailure>(
                Staging {
                    info: match info {
                        Some(file) => Some(file@),
                        None => None,
                    },
                    inserts: insert_views(inserts@),
                },
            ),
        decreases messages.len() - i,
    {
        let message = &messages[i];
        assert(views[i as int] == message@);
        let table = match message.kind {
            MessageKind::FileId => Some(Table::Files),
            MessageKind::Lap => if info.is_some() {
                Some(Table::Laps)
            } else {
                None
            },
            MessageKind::Record => if info.is_some() {
                Some(Table::Records)
            } else {
                None
            },
            MessageKind::Other => None,
        };
        if let Some(table) = table {
            let names = bound_fields(table);
            let mut values = match bind(message, &names) {
                Ok(values) => values,
                Err(error) => {
                    proof {
                        lemma_failure_is_final(views, uuid@, (i + 1) as nat, views.len());
                    }
                    return Err(error);
                },
            };
            if let Table::Files = table {
                let serial = match serial_number_of(message) {
                    Ok(serial) => serial,
                    Err(error) => {
                        proof {
                            lemma_failure_is_final(views, uuid@, (i + 1) as nat, views.len());
                        }
                        return Err(error);
                    },
                };
                let ghost bound_values = values@;
                values.push(SqlParam::Text(uuid.to_owned()));
                assert(param_views(values@) =~= param_views(bound_values).push(
                    SqlParamView::Text(uuid@),
                ));
                info = Some(
                    FileInfo {
                        id: None,
                        manufacturer: field_text(message, "manufacturer"),
                        product: field_text(message, "garmin_product"),
                        serial_number: #[verifier::truncate] (serial as u32),
                        timestamp: creation_time(message),
                        uuid: uuid.to_owned(),
                    },
                );
            }
            let ghost staged_before = inserts@;
            let insert = Insert { table, values };
            assert(insert@ == row_of(table, message@.fields, uuid@));
            inserts.push(insert);
            assert(insert_views(inserts@) =~= insert_views(staged_before).push(
                row_of(table, message@.fields, uuid@),
            ));
        }
        i = i + 1;
    }
    match info {
        Some(file_info) => Ok(ImportPlan { file_info, inserts }),
        None => Err(Error::FileIdMessageNotFound(uuid.to_owned())),
    }
}

/// The character sequences of a list of fingerprints.
pub open spec fn fingerprint_views(known: Seq<String>) -> Seq<Seq<char>> {
    Seq::new(known.len(), |i: int| known[i]@)
}

/// Whether `uuid` is among the known fingerprints.
pub fn is_known(uuid: &str, known: &Vec<String>) -> (r: bool)
    ensures
        r == fingerprint_views(known@).contains(uuid@),
{
    let mut i: usize = 0;
    while i < known.len()
        invariant
            0 <= i <= known.len(),
            forall|k: int| 0 <= k < i ==> fingerprint_views(known@)[k] != uuid@,
        decreases known.len() - i,
    {
        if known[i].as_str().eq(uuid) {
            assert(fingerprint_views(known@)[i as int] == uuid@);
            return true;
        }
        i = i + 1;
    }
    false
}

/// Plans the import of a file from its fingerprint and its decoded
/// messages. `known` holds the fingerprints of the files in the store.
///
/// A fingerprint that is known is refused with `DuplicateFileError` before
/// anything is staged. Otherwise the messages are staged as
/// `stage_messages` describes.
pub fn import_messages(uuid: &str, known: &Vec<String>, messages: &Vec<Message>) -> (r: Result<
    ImportPlan,
    Error,
>)
    ensures
        agrees(
            r,
            import_outcome(uuid@, fingerprint_views(known@), message_views(messages@)),
            uuid@,
        ),
{
    if is_known(uuid, known) {
        return Err(Error::DuplicateFileError(uuid.to_owned()));
    }
    stage_messages(uuid, messages)
}

/// Whether a result is the one that follows from what the decoder
/// returned: the decoder's failure as it is, else the outcome of staging
/// the decoded messages.
pub open spec fn follows(
    result: Result<ImportPlan, Error>,
    decoded: Result<Vec<Message>, Error>,
    uuid: Seq<char>,
) -> bool {
    match decoded {
        Ok(messages) => agrees(result, staged(message_views(messages@), uuid), uuid),
        Err(error) => result == Err::<ImportPlan, Error>(error),
    }
}

/// Plans the import of one activity file from its complete content.
/// `known` holds the fingerprints of the files in the store, and `decode`
/// is the decoder of the file format.
///
/// The fingerprint of the bytes is computed first. If it is known the file
/// is refused with `DuplicateFileError` and the decoder is never called.
/// If not, the decoder is called once, on the same bytes. Its failure is
/// passed on unchanged. Its messages are staged as `stage_messages`
/// describes.
pub fn import_fit_data<F>(data: &[u8], known: &Vec<String>, decode: F) -> (r: Result<
    ImportPlan,
    Error,
>) where F: FnOnce(&[u8]) -> Result<Vec<Message>, Error>
    requires
        call_requires(decode, (data,)),
    ensures
        fingerprint_views(known@).contains(fingerprint(data@)) ==> agrees(
            r,
            Err(ImportFailure::Duplicate),
            fingerprint(data@),
        ),
        !fingerprint_views(known@).contains(fingerprint(data@)) ==> exists|
            decoded: Result<Vec<Message>, Error>,
        |
            call_ensures(decode, (data,), decoded) && #[trigger] follows(
                r,
                decoded,
                fingerprint(data@),
            ),
{
    let uuid = generate_uuid(data);
    if is_known(uuid.as_str(), known) {
        return Err(Error::DuplicateFileError(uuid));
    }
    let decoded = decode(data);
    match decoded {
        Ok(messages) => {
            let r = stage_messages(uuid.as_str(), &messages);
            assert(follows(r, Ok(messages), fingerprint(data@)));
            r
        },
        Err(error) => {
            let r = Err(error);
            assert(follows(r, Err(error), fingerprint(data@)));
            r
        },
    }
}

/// Whether a file identification is among the first `n` messages.
pub open spec fn file_seen(messages: Seq<MessageView>, n: nat) -> bool
    decreases n,
{
    n > 0 && (messages[n - 1].kind == MessageKind::FileId || file_seen(
        messages,
        (n - 1) as nat,
    ))
}

/// Whether the message at index `i` yields a row.
pub open spec fn yields_row(messages: Seq<MessageView>, i: int) -> bool {
    contributes(messages[i].kind, file_seen(messages, i as nat))
}

/// The number of rows that the first `n` messages yield, which is also the
/// position among the staged rows of the row that message `n` yields.
pub open spec fn rows_before(messages: Seq<MessageView>, n: nat) -> nat
    decreases n,
{
    if n == 0 {
        0
    } else if yields_row(messages, n - 1) {
        rows_before(messages, (n - 1) as nat) + 1
    } else {
        rows_before(messages, (n - 1) as nat)
    }
}

/// Later messages land on later positions.
pub proof fn lemma_rows_before_monotone(messages: Seq<MessageView>, i: nat, j: nat)
    requires
        i <= j,
    ensures
        rows_before(messages, i) <= rows_before(messages, j),
        i < j && yields_row(messages, i as int) ==> rows_before(messages, i) < rows_before(
            messages,
            j,
        ),
    decreases j,
{
    if i < j {
        lemma_rows_before_monotone(messages, i, (j - 1) as nat);
    }
}

/// What staging one message does when it succeeds: a message that yields
/// a row appends exactly that row, any other message changes nothing, and
/// a file is established from the first file identification on.
pub proof fn lemma_stage_appends(staging: Staging, message: MessageView, uuid: Seq<char>)
    requires
        stage(staging, message, uuid) is Ok,
    ensures
        (stage(staging, message, uuid)->Ok_0.info is Some) == (staging.info is Some
            || message.kind == MessageKind::FileId),
        contributes(message.kind, staging.info is Some) ==> stage(
            staging,
            message,
            uuid,
        )->Ok_0.inserts == staging.inserts.push(
            row_of(table_of(message.kind)->Some_0, message.fields, uuid),
        ),
        !contributes(message.kind, staging.info is Some) ==> stage(staging, message, uuid)->Ok_0
            == staging,
{
}

/// What a successfully staged prefix looks like: a file is established
/// exactly if a file identification was seen; there is one row for each
/// message that yields one; and the row of message `i` stands at position
/// `rows_before(messages, i)`.
pub proof fn lemma_staged_prefix_rows(messages: Seq<MessageView>, uuid: Seq<char>, n: nat)
    requires
        n <= messages.len(),
        staged_prefix(messages, uuid, n) is Ok,
    ensures
        (staged_prefix(messages, uuid, n)->Ok_0.info is Some) == file_seen(messages, n),
        staged_prefix(messages, uuid, n)->Ok_0.inserts.len() == rows_before(messages, n),
        forall|i: int|
            0 <= i < n && #[trigger] yields_row(messages, i) ==> staged_prefix(
                messages,
                uuid,
                n,
            )->Ok_0.inserts[rows_before(messages, i as nat) as int] == row_of(
                table_of(messages[i].kind)->Some_0,
                messages[i].fields,
                uuid,
            ),
    decreases n,
{
    if n > 0 {
        let shorter = (n - 1) as nat;
        lemma_staged_prefix_rows(messages, uuid, shorter);
        let before = staged_prefix(messages, uuid, shorter)->Ok_0;
        let after = staged_prefix(messages, uuid, n)->Ok_0;
        assert(stage(before, messages[n - 1], uuid) == staged_prefix(messages, uuid, n));
        lemma_stage_appends(before, messages[n - 1], uuid);
        assert(yields_row(messages, n - 1) == contributes(
            messages[n - 1].kind,
            before.info is Some,
        ));
        assert forall|i: int| 0 <= i < n && #[trigger] yields_row(messages, i) implies after.inserts[rows_before(
            messages,
            i as nat,
        ) as int] == row_of(table_of(messages[i].kind)->Some_0, messages[i].fields, uuid) by {
            if i < n - 1 {
                lemma_rows_before_monotone(messages, i as nat, shorter);
                assert(after.inserts[rows_before(messages, i as nat) as int]
                    == before.inserts[rows_before(messages, i as nat) as int]);
            }
        }
    }
}

/// Record and lap rows keep the order of their source messages: in a
/// successful import the row of each contributing message stands at the
/// position given by the number of contributing messages before it, so of
/// two contributing messages the later one has the later row.
pub proof fn lemma_rows_keep_message_order(
    messages: Seq<MessageView>,
    uuid: Seq<char>,
    i: int,
    j: int,
)
    requires
        staged(messages, uuid) is Ok,
        0 <= i < j < messages.len(),
        yields_row(messages, i),
        yields_row(messages, j),
    ensures
        rows_before(messages, i as nat) < rows_before(messages, j as nat) < staged(
            messages,
            uuid,
        )->Ok_0.inserts.len(),
        staged(messages, uuid)->Ok_0.inserts[rows_before(messages, i as nat) as int] == row_of(
            table_of(messages[i].kind)->Some_0,
            messages[i].fields,
            uuid,
        ),
        staged(messages, uuid)->Ok_0.inserts[rows_before(messages, j as nat) as int] == row_of(
            table_of(messages[j].kind)->Some_0,
            messages[j].fields,
            uuid,
        ),
{
    lemma_staged_prefix_rows(messages, uuid, messages.len());
    lemma_rows_before_monotone(messages, i as nat, j as nat);
    lemma_rows_before_monotone(messages, j as nat, messages.len());
}

/// Every staged row has a file to belong to: a successful import stages at
/// least one row, the first staged row is a `Files` row, and that row
/// carries the fingerprint.
pub proof fn lemma_file_row_comes_first(messages: Seq<MessageView>, uuid: Seq<char>)
    requires
        staged(messages, uuid) is Ok,
    ensures
        staged(messages, uuid)->Ok_0.inserts.len() > 0,
        staged(messages, uuid)->Ok_0.inserts[0].table == Table::Files,
        staged(messages, uuid)->Ok_0.inserts[0].values.len() > 0,
        staged(messages, uuid)->Ok_0.inserts[0].values.last() == SqlParamView::Text(uuid),
        staged(messages, uuid)->Ok_0.file_info.uuid == uuid,
        staged(messages, uuid)->Ok_0.file_info.id is None,
{
    lemma_first_row(messages, uuid, messages.len());
}

proof fn lemma_first_row(messages: Seq<MessageView>, uuid: Seq<char>, n: nat)
    requires
        staged_prefix(messages, uuid, n) is Ok,
    ensures
        staged_prefix(messages, uuid, n)->Ok_0.info is None ==> staged_prefix(
            messages,
            uuid,
            n,
        )->Ok_0.inserts.len() == 0,
        staged_prefix(messages, uuid, n)->Ok_0.info matches Some(file) ==> {
            let rows = staged_prefix(messages, uuid, n)->Ok_0.inserts;
            &&& rows.len() > 0
            &&& rows[0].table == Table::Files
            &&& rows[0].values.len() > 0
            &&& rows[0].values.last() == SqlParamView::Text(uuid)
            &&& file.uuid == uuid
            &&& file.id is None
        },
    decreases n,
{
    if n > 0 {
        lemma_first_row(messages, uuid, (n - 1) as nat);
    }
}

/// The rows of the store, as far as import is concerned, in the order in
/// which they were committed.
pub struct Store {
    pub rows: Seq<InsertView>,
}

/// Whether the store holds a file with this fingerprint.
pub open spec fn holds_file(rows: Seq<InsertView>, uuid: Seq<char>) -> bool {
    exists|i: int|
        0 <= i < rows.len() && (#[trigger] rows[i]).table == Table::Files && rows[i].values.len()
            > 0 && rows[i].values.last() == SqlParamView::Text(uuid)
}

/// Whether `known` lists exactly the fingerprints of the stored files.
pub open spec fn lists_files(known: Seq<Seq<char>>, rows: Seq<InsertView>) -> bool {
    forall|uuid: Seq<char>| #[trigger] known.contains(uuid) <==> holds_file(rows, uuid)
}

/// The store after an import attempt whose caller commits the planned rows
/// on success and rolls back on failure.
pub open spec fn store_after(
    store: Store,
    outcome: Result<PlanView, ImportFailure>,
) -> Store {
    match outcome {
        Ok(plan) => Store { rows: store.rows + plan.inserts },
        Err(_) => store,
    }
}

/// Importing the same file twice: if the first import succeeds and is
/// committed, a second import of a file with the same fingerprint is
/// refused as a duplicate, whatever its messages, and leaves the store as
/// the first import left it.
pub proof fn lemma_second_import_is_refused(
    store: Store,
    uuid: Seq<char>,
    known: Seq<Seq<char>>,
    messages: Seq<MessageView>,
    known_after: Seq<Seq<char>>,
    again: Seq<MessageView>,
)
    requires
        lists_files(known, store.rows),
        import_outcome(uuid, known, messages) is Ok,
        lists_files(
            known_after,
            store_after(store, import_outcome(uuid, known, messages)).rows,
        ),
    ensures
        import_outcome(uuid, known_after, again) == Err::<PlanView, ImportFailure>(
            ImportFailure::Duplicate,
        ),
        store_after(
            store_after(store, import_outcome(uuid, known, messages)),
            import_outcome(uuid, known_after, again),
        ) == store_after(store, import_outcome(uuid, known, messages)),
{
    let plan = import_outcome(uuid, known, messages)->Ok_0;
    let rows = store_after(store, import_outcome(uuid, known, messages)).rows;
    lemma_file_row_comes_first(messages, uuid);
    assert(rows[store.rows.len() as int] == plan.inserts[0]);
    assert(holds_file(rows, uuid));
}

/// A failed import leaves nothing behind: it has no plan, so after the
/// rollback the store holds exactly the rows it held before.
pub proof fn lemma_failed_import_stages_nothing(
    store: Store,
    uuid: Seq<char>,
    known: Seq<Seq<char>>,
    messages: Seq<MessageView>,
)
    requires
        import_outcome(uuid, known, messages) is Err,
    ensures
        store_after(store, import_outcome(uuid, known, messages)) == store,
{
}

/// A failure in the middle of the messages undoes what was staged before
/// it: however many rows the messages before the failing one had staged,
/// the import as a whole fails, hands out no plan, and after the rollback
/// the store holds exactly the rows it held before.
pub proof fn lemma_late_failure_stages_nothing(
    store: Store,
    uuid: Seq<char>,
    known: Seq<Seq<char>>,
    messages: Seq<MessageView>,
    n: nat,
)
    requires
        n < messages.len(),
        staged_prefix(messages, uuid, n) is Ok,
        staged_prefix(messages, uuid, n + 1) is Err,
    ensures
        import_outcome(uuid, known, messages) is Err,
        store_after(store, import_outcome(uuid, known, messages)) == store,
{
    lemma_failure_is_final(messages, uuid, n + 1, messages.len());
}

} // verus!
