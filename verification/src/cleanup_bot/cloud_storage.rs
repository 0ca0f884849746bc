//! Cloud storage backends for attachment backups, and the date-based layout
//! that both share.

use vstd::prelude::*;

use crate::cleanup_bot::clock::utc_now;
use crate::text::{format_signed_zero_padded, format_zero_padded, signed_zero_padded, zero_padded};

pub mod onedrive;
pub mod proton_drive;

verus! {

/// What can go wrong while talking to a cloud storage backend. The causes of
/// transport and file errors are kept as their messages.
pub enum CloudStorageError {
    Http(String),
    Auth(String),
    TokenStorage(String),
    Upload(String),
    Io(String),
}

/// The text of `e`, as it is displayed.
pub open spec fn error_text(e: CloudStorageError) -> Seq<char> {
    match e {
        CloudStorageError::Http(m) => "HTTP request failed: "@ + m@,
        CloudStorageError::Auth(m) => "Authentication failed: "@ + m@,
        CloudStorageError::TokenStorage(m) => "Token storage error: "@ + m@,
        CloudStorageError::Upload(m) => "Upload failed: "@ + m@,
        CloudStorageError::Io(m) => "IO error: "@ + m@,
    }
}

impl CloudStorageError {
    /// The message of the error, as it is displayed.
    pub fn message(&self) -> (s: String)
        ensures
            s@ == error_text(*self),
    {
        let (prefix, m) = match self {
            CloudStorageError::Http(m) => ("HTTP request failed: ", m),
            CloudStorageError::Auth(m) => ("Authentication failed: ", m),
            CloudStorageError::TokenStorage(m) => ("Token storage error: ", m),
            CloudStorageError::Upload(m) => ("Upload failed: ", m),
            CloudStorageError::Io(m) => ("IO error: ", m),
        };
        let mut s = String::from_str(prefix);
        s.append(m.as_str());
        s
    }
}

/// Names what `Path::file_name` gives, as text, for the path `path`.
pub uninterp spec fn path_file_name_of(path: Seq<char>) -> Option<Seq<char>>;

/// Names what `Path::parent` gives, as text, for the path `path`.
pub uninterp spec fn path_parent_of(path: Seq<char>) -> Option<Seq<char>>;

/// Names what `NaiveDate::parse_from_str(text, "%Y-%m-%d")` gives, as year,
/// month and day.
pub uninterp spec fn parsed_iso_date(text: Seq<char>) -> Option<(i32, u32, u32)>;

/// Calls `std::path::Path::file_name`: the last component of the path, if it
/// is a normal one. The result is named, not described.
#[verifier::external_body]
fn path_file_name(path: &str) -> (r: Option<String>)
    ensures
        r matches Some(n) ==> path_file_name_of(path@) == Some(n@),
        r is None ==> path_file_name_of(path@) is None,
{
    let name = std::path::Path::new(path).file_name()?;
    Some(name.to_str()?.to_string())
}

/// Calls `std::path::Path::parent`: the path without its last component.
/// The result is named, not described.
#[verifier::external_body]
fn path_parent(path: &str) -> (r: Option<String>)
    ensures
        r matches Some(p) ==> path_parent_of(path@) == Some(p@),
        r is None ==> path_parent_of(path@) is None,
{
    let parent = std::path::Path::new(path).parent()?;
    Some(parent.to_str()?.to_string())
}

/// Calls `chrono::NaiveDate::parse_from_str(text, "%Y-%m-%d")` and reads the
/// year, month and day of the date. The result is named, not described.
#[verifier::external_body]
fn parse_iso_date(text: &str) -> (r: Option<(i32, u32, u32)>)
    ensures
        r == parsed_iso_date(text@),
{
    let date = chrono::NaiveDate::parse_from_str(text, "%Y-%m-%d").ok()?;
    Some((chrono::Datelike::year(&date), chrono::Datelike::month(&date), chrono::Datelike::day(&date)))
}

/// The file name used remotely for the local file `path`: its own name, or
/// `unknown` when it has none.
pub open spec fn remote_file_name(path: Seq<char>) -> Seq<char> {
    match path_file_name_of(path) {
        Some(n) => n,
        None => "unknown"@,
    }
}

/// The date that the name of the folder holding `path` spells (`YYYY-MM-DD`).
pub open spec fn folder_date(path: Seq<char>) -> Option<(i32, u32, u32)> {
    match path_parent_of(path) {
        Some(parent) => match path_file_name_of(parent) {
            Some(name) => parsed_iso_date(name),
            None => None,
        },
        None => None,
    }
}

/// `YYYY/MM/DD/name`: the year with at least four digits, month and day with
/// two.
pub open spec fn dated_path(name: Seq<char>, date: (i32, u32, u32)) -> Seq<char> {
    signed_zero_padded(date.0 as int, 4) + "/"@ + zero_padded(date.1 as nat, 2) + "/"@
        + zero_padded(date.2 as nat, 2) + "/"@ + name
}

/// Formats `YYYY/MM/DD/file_name`.
pub fn dated_remote_path(file_name: &str, year: i32, month: u32, day: u32) -> (s: String)
    ensures
        s@ == dated_path(file_name@, (year, month, day)),
{
    let mut s = format_signed_zero_padded(year, 4);
    s.append("/");
    s.append(format_zero_padded(month as u64, 2).as_str());
    s.append("/");
    s.append(format_zero_padded(day as u64, 2).as_str());
    s.append("/");
    s.append(file_name);
    s
}

/// Builds a relative remote path (`YYYY/MM/DD/filename`) for a local backup
/// file. The date comes from the name of the file's folder (`YYYY-MM-DD`);
/// when that is not a date, today's date in UTC is used.
pub fn build_relative_remote_path(local_path: &str) -> (s: String)
    ensures
        match folder_date(local_path@) {
            Some(d) => s@ == dated_path(remote_file_name(local_path@), d),
            None => exists|d: (i32, u32, u32)|
                1 <= d.1 <= 12 && 1 <= d.2 <= 31 && #[trigger] dated_path(
                    remote_file_name(local_path@),
                    d,
                ) == s@,
        },
{
    let file_name = match path_file_name(local_path) {
        Some(n) => n,
        None => String::from_str("unknown"),
    };
    let date = match path_parent(local_path) {
        Some(parent) => match path_file_name(parent.as_str()) {
            Some(name) => parse_iso_date(name.as_str()),
            None => None,
        },
        None => None,
    };
    let (year, month, day) = match date {
        Some(d) => d,
        None => {
            let now = utc_now();
            (now.year, now.month, now.day)
        },
    };
    assert(date is None ==> 1 <= month <= 12 && 1 <= day <= 31);
    assert(file_name@ == remote_file_name(local_path@));
    let s = dated_remote_path(file_name.as_str(), year, month, day);
    assert(dated_path(remote_file_name(local_path@), (year, month, day)) == s@);
    s
}

} // verus!
