//! The decisions behind the command line: how import failures are
//! handled, which directory entries are imported, how the list of files is
//! queried, and which markers a route image gets.

use crate::config::LogLevel;
use crate::db::{file_info_select, new_file_info_query, QueryStringBuilder, QueryView};
use crate::error::Error;
use crate::gps::Location;
use crate::import::FileInfo;
use crate::services::{Marker, MarkerView};
use crate::text::{decimal, push_decimal};
use vstd::prelude::*;
use vstd::string::*;

verus! {

/// The log level that the command line asks for. Quiet wins over verbose:
/// once quiet gives warnings, more often errors only; else once verbose
/// gives debug output, more often a trace; else the default stands.
pub open spec fn chosen_level(quiet: i32, verbose: i32, default: LogLevel) -> LogLevel {
    if quiet == 1 {
        LogLevel::Warn
    } else if quiet > 1 {
        LogLevel::Error
    } else if verbose == 1 {
        LogLevel::Debug
    } else if verbose > 1 {
        LogLevel::Trace
    } else {
        default
    }
}

/// Turns the counts of the quiet and verbose flags into a log level.
pub fn verbosity(quiet: i32, verbose: i32, default: LogLevel) -> (level: LogLevel)
    ensures
        level == chosen_level(quiet, verbose, default),
{
    if quiet == 1 {
        LogLevel::Warn
    } else if quiet > 1 {
        LogLevel::Error
    } else if verbose == 1 {
        LogLevel::Debug
    } else if verbose > 1 {
        LogLevel::Trace
    } else {
        default
    }
}

/// How to respond to a file that was imported before.
#[derive(Clone, Copy, Debug, PartialEq, Eq, Structural)]
pub enum DuplicateFileBehavior {
    Error,
    Warn,
    Suppress,
}

/// How to respond to a file that fails to import for any other reason.
#[derive(Clone, Copy, Debug, PartialEq, Eq, Structural)]
pub enum ImportErrorBehavior {
    Error,
    Warn,
    Suppress,
}

/// The lower case form of an ASCII capital, and any other character as it
/// is.
pub open spec fn lower(c: char) -> char {
    if 'A' <= c <= 'Z' {
        ((c as u8 + 32) as u8) as char
    } else {
        c
    }
}

/// The text with its ASCII capitals made lower case.
pub open spec fn ascii_lowercase(text: Seq<char>) -> Seq<char> {
    Seq::new(text.len(), |i: int| lower(text[i]))
}

/// The behaviour that a word names, whatever the case of its letters.
pub open spec fn behavior_named(word: Seq<char>) -> Option<ImportErrorBehavior> {
    if ascii_lowercase(word) == "error"@ {
        Some(ImportErrorBehavior::Error)
    } else if ascii_lowercase(word) == "warn"@ {
        Some(ImportErrorBehavior::Warn)
    } else if ascii_lowercase(word) == "suppress"@ {
        Some(ImportErrorBehavior::Suppress)
    } else {
        None
    }
}

/// The message for a word that names no behaviour.
pub open spec fn unknown_behavior_message(word: Seq<char>) -> Seq<char> {
    "Unknown value "@ + word + ": expected: error, warn, suppress"@
}

/// Makes the ASCII capitals of a text lower case.
pub fn to_ascii_lowercase(text: &str) -> (r: String)
    ensures
        r@ == ascii_lowercase(text@),
{
    let length = text.unicode_len();
    let mut lowered = String::new();
    let mut i: usize = 0;
    while i < length
        invariant
            0 <= i <= length,
            length == text@.len(),
            lowered@ =~= ascii_lowercase(text@).take(i as int),
        decreases length - i,
    {
        let c = text.get_char(i);
        if 'A' <= c && c <= 'Z' {
            lowered.push(((c as u8) + 32) as char);
        } else {
            lowered.push(c);
        }
        i = i + 1;
    }
    assert(lowered@ =~= ascii_lowercase(text@));
    lowered
}

impl ImportErrorBehavior {
    /// Reads a behaviour from its name: `error`, `warn` or `suppress`, in
    /// any case. Any other word is an `InvalidConfigurationValue`.
    pub fn parse(s: &str) -> (r: Result<Self, Error>)
        ensures
            match behavior_named(s@) {
                Some(behavior) => r == Ok::<Self, Error>(behavior),
                None => r matches Err(Error::InvalidConfigurationValue(message)) && message@
                    == unknown_behavior_message(s@),
            },
    {
        let lowered = to_ascii_lowercase(s);
        if lowered.as_str().eq("error") {
            Ok(ImportErrorBehavior::Error)
        } else if lowered.as_str().eq("warn") {
            Ok(ImportErrorBehavior::Warn)
        } else if lowered.as_str().eq("suppress") {
            Ok(ImportErrorBehavior::Suppress)
        } else {
            let mut message = String::from_str("Unknown value ");
            message.append(s);
            message.append(": expected: error, warn, suppress");
            Err(Error::InvalidConfigurationValue(message))
        }
    }
}

impl std::str::FromStr for ImportErrorBehavior {
    type Err = Error;

    /// Reads a behaviour from its name, as `parse` does.
    fn from_str(s: &str) -> (r: Result<Self, Error>)
        ensures
            match behavior_named(s@) {
                Some(behavior) => r == Ok::<Self, Error>(behavior),
                None => r matches Err(Error::InvalidConfigurationValue(message)) && message@
                    == unknown_behavior_message(s@),
            },
    {
        ImportErrorBehavior::parse(s)
    }
}

/// What to do after a file failed to import.
#[derive(Clone, Copy, Debug, PartialEq, Eq, Structural)]
pub struct Reaction {
    /// The level at which the failure is logged.
    pub level: LogLevel,
    /// Whether the whole run stops with this failure.
    pub abort: bool,
}

/// The reaction to a failure, by the behaviour that applies to it: a
/// duplicate goes by the behaviour for duplicates, every other failure by
/// the behaviour for import errors. `Error` logs an error and stops the
/// run, `Warn` logs a warning and `Suppress` a trace, and both go on.
pub open spec fn reaction_to(
    duplicate: bool,
    dupe_err: DuplicateFileBehavior,
    import_err: ImportErrorBehavior,
) -> Reaction {
    if duplicate {
        match dupe_err {
            DuplicateFileBehavior::Error => Reaction { level: LogLevel::Error, abort: true },
            DuplicateFileBehavior::Warn => Reaction { level: LogLevel::Warn, abort: false },
            DuplicateFileBehavior::Suppress => Reaction { level: LogLevel::Trace, abort: false },
        }
    } else {
        match import_err {
            ImportErrorBehavior::Error => Reaction { level: LogLevel::Error, abort: true },
            ImportErrorBehavior::Warn => Reaction { level: LogLevel::Warn, abort: false },
            ImportErrorBehavior::Suppress => Reaction { level: LogLevel::Trace, abort: false },
        }
    }
}

/// Decides what to do after a file failed to import with `error`.
pub fn import_failure_reaction(
    error: &Error,
    dupe_err: DuplicateFileBehavior,
    import_err: ImportErrorBehavior,
) -> (reaction: Reaction)
    ensures
        reaction == reaction_to(error is DuplicateFileError, dupe_err, import_err),
{
    match error {
        Error::DuplicateFileError(_) => match dupe_err {
            DuplicateFileBehavior::Error => Reaction { level: LogLevel::Error, abort: true },
            DuplicateFileBehavior::Warn => Reaction { level: LogLevel::Warn, abort: false },
            DuplicateFileBehavior::Suppress => Reaction { level: LogLevel::Trace, abort: false },
        },
        _ => match import_err {
            ImportErrorBehavior::Error => Reaction { level: LogLevel::Error, abort: true },
            ImportErrorBehavior::Warn => Reaction { level: LogLevel::Warn, abort: false },
            ImportErrorBehavior::Suppress => Reaction { level: LogLevel::Trace, abort: false },
        },
    }
}

/// How duplicates are handled for the paths given on the command line: a
/// duplicate is a hard error only when a single path is imported.
pub fn duplicate_behavior(path_count: usize) -> (behavior: DuplicateFileBehavior)
    ensures
        behavior == if path_count == 1 {
            DuplicateFileBehavior::Error
        } else {
            DuplicateFileBehavior::Warn
        },
{
    if path_count == 1 {
        DuplicateFileBehavior::Error
    } else {
        DuplicateFileBehavior::Warn
    }
}

/// Whether an entry of a scanned directory is taken: a directory when the
/// scan is recursive, and any entry whose extension is `fit` in any case.
pub open spec fn entry_wanted(is_dir: bool, recursive: bool, extension: Option<Seq<char>>) -> bool {
    (is_dir && recursive) || (extension matches Some(text) && ascii_lowercase(text) == "fit"@)
}

/// Decides whether an entry of a scanned directory is taken.
pub fn wants_entry(is_dir: bool, recursive: bool, extension: Option<&str>) -> (r: bool)
    ensures
        r == entry_wanted(
            is_dir,
            recursive,
            match extension {
                Some(text) => Some(text@),
                None => None,
            },
        ),
{
    if is_dir && recursive {
        return true;
    }
    match extension {
        Some(text) => to_ascii_lowercase(text).as_str().eq("fit"),
        None => false,
    }
}

/// The name of the directory that keeps the files of one device.
pub open spec fn device_directory_name(
    manufacturer: Seq<char>,
    product: Seq<char>,
    serial_number: u32,
) -> Seq<char> {
    manufacturer + "-"@ + product + "-"@ + decimal(serial_number as nat)
}

/// The name of the directory that keeps copies of the files of the device
/// that recorded `file_info`: manufacturer, product and serial number,
/// joined by dashes.
pub fn device_directory(file_info: &FileInfo) -> (name: String)
    ensures
        name@ == device_directory_name(
            file_info@.manufacturer,
            file_info@.product,
            file_info@.serial_number,
        ),
{
    let mut name = String::from_str(file_info.manufacturer());
    name.append("-");
    name.append(file_info.product());
    name.append("-");
    push_decimal(&mut name, file_info.serial_number() as u64);
    assert(name@ =~= device_directory_name(
        file_info@.manufacturer,
        file_info@.product,
        file_info@.serial_number,
    ));
    name
}

/// The name under which a copy is kept when the imported path has no file
/// name of its own: the fingerprint with the extension `fit`.
pub fn fallback_file_name(file_info: &FileInfo) -> (name: String)
    ensures
        name@ == file_info@.uuid + ".fit"@,
{
    let mut name = String::from_str(file_info.uuid());
    name.append(".fit");
    name
}

/// The predicates of the file list: the lower bound first, then the upper.
pub open spec fn list_clauses(since: bool, until: bool) -> Seq<Seq<char>> {
    (if since {
        seq!["time_created >= ?"@]
    } else {
        Seq::empty()
    }) + (if until {
        seq!["time_created < ?"@]
    } else {
        Seq::empty()
    })
}

/// The query behind the file list. A lower and an upper bound on the
/// creation time are bound as parameters, in this order, if they are
/// given. Files come newest first, or oldest first when reversed, and at
/// most `number` of them if a number is given.
pub fn list_files_query(since: bool, until: bool, reverse: bool, number: Option<usize>) -> (r:
    QueryStringBuilder<'static>)
    ensures
        r@ == (QueryView {
            base_query: file_info_select(),
            where_clauses: list_clauses(since, until),
            order_by: seq![
                if reverse {
                    "time_created ASC"@
                } else {
                    "time_created DESC"@
                },
            ],
            limit: number,
        }),
{
    let mut query = new_file_info_query();
    if since {
        query.and_where("time_created >= ?");
    }
    if until {
        query.and_where("time_created < ?");
    }
    if reverse {
        query.order_by("time_created ASC");
    } else {
        query.order_by("time_created DESC");
    }
    if let Some(value) = number {
        query.limit(value);
    }
    assert(query@.where_clauses =~= list_clauses(since, until));
    assert(query@.order_by =~= seq![
        if reverse {
            "time_created ASC"@
        } else {
            "time_created DESC"@
        },
    ]);
    query
}

/// The markers of a route: `S` at the first point of the trace, the number
/// of each lap at the place where it ends, counted from one, and `F` at the
/// last point of the trace.
pub open spec fn markers_of(trace: Seq<Location>, lap_ends: Seq<Location>) -> Seq<MarkerView> {
    seq![MarkerView { location: trace[0], label: "S"@ }] + Seq::new(
        lap_ends.len(),
        |i: int| MarkerView { location: lap_ends[i], label: decimal((i + 1) as nat) },
    ) + seq![MarkerView { location: trace.last(), label: "F"@ }]
}

/// The models of a list of markers.
pub open spec fn marker_views(markers: Seq<Marker>) -> Seq<MarkerView> {
    Seq::new(markers.len(), |i: int| markers[i]@)
}

/// Builds the markers of a route from its trace and the places where its
/// laps end. The trace must not be empty.
pub fn route_markers(trace: &Vec<Location>, lap_ends: &Vec<Location>) -> (markers: Vec<Marker>)
    requires
        trace@.len() > 0,
    ensures
        marker_views(markers@) == markers_of(trace@, lap_ends@),
{
    let mut markers: Vec<Marker> = Vec::new();
    markers.push(Marker::new(trace[0], String::from_str("S")));
    let mut i: usize = 0;
    while i < lap_ends.len()
        invariant
            0 <= i <= lap_ends.len(),
            trace@.len() > 0,
            markers@.len() == i + 1,
            markers@[0]@ == (MarkerView { location: trace@[0], label: "S"@ }),
            forall|k: int|
                0 <= k < i ==> (#[trigger] markers@[k + 1])@ == (MarkerView {
                    location: lap_ends@[k],
                    label: decimal((k + 1) as nat),
                }),
        decreases lap_ends.len() - i,
    {
        let mut label = String::new();
        push_decimal(&mut label, i as u64 + 1);
        assert(label@ =~= decimal((i + 1) as nat));
        markers.push(Marker::new(lap_ends[i], label));
        i = i + 1;
    }
    markers.push(Marker::new(trace[trace.len() - 1], String::from_str("F")));
    assert(marker_views(markers@) =~= markers_of(trace@, lap_ends@));
    markers
}

} // verus!
