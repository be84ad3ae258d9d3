//! The decoded, read-only in-memory representation of a database file: the
//! parsed header and the ordered sequence of decoded pages.

pub mod header;
pub mod page;
pub mod page_collection;

use crate::database::header::DatabaseHeader;
use crate::database::header::DatabaseHeaderError;
use crate::database::header::header_bytes_wf;
use crate::database::header::spec_effective_page_size;
use crate::database::header::spec_header_error_matches;
use crate::database::header::spec_parsed_header;
use crate::database::page::DatabasePageError;
use crate::database::page_collection::PageCollection;
use crate::database::page_collection::spec_all_windows_wf;
use crate::database::page_collection::spec_collection_matches;
use crate::database::page_collection::spec_first_page_error;
use crate::database::page_collection::spec_framing_ok;
use vstd::prelude::*;
use vstd::slice::slice_subrange;
use vstd::slice::slice_to_vec;

verus! {

/// A whole decoded database file. Constructed exactly once from the full
/// file buffer and never mutated afterwards.
#[derive(Debug, PartialEq, Eq)]
pub struct Database {
    pub header: DatabaseHeader,
    pub pages: PageCollection,
}

/// The top-level decode error, tagged by the phase that failed: the fixed
/// header, a page, or the framing of the buffer into pages.
#[derive(Debug, PartialEq, Eq)]
pub enum DatabaseReadError {
    InvalidHeader(DatabaseHeaderError),
    InvalidPage(DatabasePageError),
    TruncatedFile,
}

/// The bytes handed to the header decoder: the first 100 bytes of the file,
/// or the whole file where it is shorter than that.
pub open spec fn spec_header_slice(b: Seq<u8>) -> Seq<u8> {
    if b.len() < 100 {
        b
    } else {
        b.subrange(0, 100)
    }
}

impl Database {
    /// Decodes a whole database file: the 100-byte header first, then every
    /// page window, failing fast at the first malformed phase.
    pub fn from_bytes(db_file: Vec<u8>) -> (r: Result<Database, DatabaseReadError>)
        ensures
            !header_bytes_wf(spec_header_slice(db_file@)) ==> (r matches Err(
                DatabaseReadError::InvalidHeader(e),
            ) && spec_header_error_matches(e, spec_header_slice(db_file@))),
            header_bytes_wf(spec_header_slice(db_file@)) ==> ({
                let h = spec_parsed_header(spec_header_slice(db_file@));
                let eff = spec_effective_page_size(h);
                &&& (!spec_framing_ok(db_file@.len() as int, eff) ==> r == Err::<
                    Database,
                    DatabaseReadError,
                >(DatabaseReadError::TruncatedFile))
                &&& (spec_framing_ok(db_file@.len() as int, eff) && !spec_all_windows_wf(
                    db_file@,
                    eff,
                ) ==> (r matches Err(DatabaseReadError::InvalidPage(e)) && spec_first_page_error(
                    e,
                    db_file@,
                    eff,
                )))
                &&& (spec_framing_ok(db_file@.len() as int, eff) && spec_all_windows_wf(
                    db_file@,
                    eff,
                ) ==> (r matches Ok(db) && db.header == h && spec_collection_matches(
                    db.pages,
                    db_file@,
                    eff,
                )))
            }),
    {
        let header_bytes: Vec<u8> = if db_file.len() < 100 {
            slice_to_vec(db_file.as_slice())
        } else {
            slice_to_vec(slice_subrange(db_file.as_slice(), 0, 100))
        };
        let header = match DatabaseHeader::try_from(header_bytes) {
            Ok(h) => h,
            Err(e) => return Err(DatabaseReadError::InvalidHeader(e)),
        };
        let pages = match PageCollection::from_bytes(db_file, &header) {
            Ok(p) => p,
            Err(e) => return Err(e),
        };
        Ok(Database { header, pages })
    }
}

} // verus!
