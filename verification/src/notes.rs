//! Stored meeting notes: which file is read, and dates written by the
//! earlier Swift app.
use vstd::prelude::*;
use crate::text::ends_with;

verus! {

/// Which copy of a notes file is read.
#[derive(Debug, Clone, Copy, PartialEq, Eq, Structural)]
pub enum NotesFile {
    /// The file in the app's data directory.
    Current,
    /// The file the earlier app left in its data directory.
    Legacy,
}

/// The app's own file when it exists; otherwise the earlier app's file when
/// that app's directory is known; otherwise the app's own (missing) file.
pub fn notes_file(current_exists: bool, legacy_dir_known: bool) -> (r: NotesFile)
    ensures
        r == (if current_exists || !legacy_dir_known { NotesFile::Current } else { NotesFile::Legacy }),
{
    if current_exists || !legacy_dir_known {
        NotesFile::Current
    } else {
        NotesFile::Legacy
    }
}

/// Whether `DateTime::from_timestamp_millis` gives a date for this many
/// milliseconds since 1970: chrono's dates run from January 1 of the year
/// -262143 to December 31 of the year 262142.
pub open spec fn chrono_millis_in_range(ms: i64) -> bool {
    -8_334_601_228_800_000 <= ms <= 8_210_266_876_799_999
}

/// The RFC 3339 text `to_rfc3339` writes for the UTC date this many
/// milliseconds after 1970.
pub uninterp spec fn chrono_rfc3339_of_millis(ms: i64) -> Seq<char>;

/// The milliseconds from 0001-01-01T00:00:00Z to 9999-12-31T23:59:59.999Z.
pub open spec fn common_era_millis(ms: i64) -> bool {
    -62_135_596_800_000 <= ms <= 253_402_300_799_999
}

/// Calls `chrono::DateTime::from_timestamp_millis` and writes the date it
/// gives with `to_rfc3339`; the date itself stays inside this body. The
/// contract claims that a text comes back exactly when the number is in
/// chrono's range of dates, that
/// the text is a function of the number, and that it ends in the zero offset
/// "+00:00"; the digits before the offset are not stated.
#[verifier::external_body]
fn rfc3339_from_unix_millis(ms: i64) -> (r: Option<String>)
    ensures
        r is Some == chrono_millis_in_range(ms),
        r matches Some(s) ==> s@ == chrono_rfc3339_of_millis(ms) && ends_with(s@, "+00:00"@),
{
    chrono::DateTime::from_timestamp_millis(ms).map(|d| d.to_rfc3339())
}

/// Seconds since 2001-01-01 (the Foundation reference date) as stored by
/// the earlier app, already moved to milliseconds since 1970, written as an
/// RFC 3339 date; none when chrono has no such date.
pub fn migrated_date(unix_ms: i64) -> (r: Option<String>)
    ensures
        r is Some == chrono_millis_in_range(unix_ms),
        common_era_millis(unix_ms) ==> r is Some,
        r matches Some(s) ==> s@ == chrono_rfc3339_of_millis(unix_ms) && ends_with(s@, "+00:00"@),
{
    rfc3339_from_unix_millis(unix_ms)
}

} // verus!
