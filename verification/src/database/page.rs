//! One decoded page: its fixed header, the cell pointer array that follows
//! it, and the raw bytes of the whole page window.

pub mod header;

use crate::database::page::header::PageHeader;
use crate::database::page::header::PageHeaderError;
use crate::database::page::header::PageType;
use crate::database::page::header::PageTypeError;
use crate::database::page::header::page_type_byte_ok;
use crate::database::page::header::spec_page_header_len;
use crate::database::page::header::spec_page_type;
use crate::database::page::header::spec_parsed_page_header;
use crate::util::DecodeError;
use crate::util::get_u16_from_bytes;
use crate::util::u16_be;
use vstd::prelude::*;
use vstd::slice::slice_subrange;
use vstd::slice::slice_to_vec;

verus! {

/// The ordered cell pointer array of one page, in on-disk slot order.
#[derive(Debug, PartialEq, Eq, Clone)]
pub struct CellOffsets(pub Vec<u16>);

#[derive(Debug, PartialEq, Eq)]
pub enum CellOffsetError {
    CellOffsetDecodeError(DecodeError),
}

/// The cell offsets encoded in a window of two-byte big-endian values, one
/// per contiguous chunk, in on-disk order.
pub open spec fn spec_cell_offsets(w: Seq<u8>) -> Seq<u16> {
    Seq::new((w.len() / 2) as nat, |i: int| u16_be(w.subrange(2 * i, 2 * i + 2)))
}

impl CellOffsets {
    /// Decodes the cell pointer array from a window whose length must be
    /// even: one big-endian `u16` per two-byte chunk, order preserved.
    pub fn try_from(value: &[u8]) -> (r: Result<CellOffsets, CellOffsetError>)
        ensures
            value@.len() % 2 == 0 ==> (r matches Ok(c) && c.0@ == spec_cell_offsets(value@)),
            value@.len() % 2 != 0 ==> (r matches Err(e) && e matches
            CellOffsetError::CellOffsetDecodeError(d) && d.is_incorrect_byte_count(
                2,
                1,
                "cell_offsets"@,
            )),
    {
        let len = value.len();
        let n = len / 2;
        let mut offsets: Vec<u16> = Vec::new();
        let mut k: usize = 0;
        proof {
            assert(offsets@ =~= spec_cell_offsets(value@).subrange(0, 0));
        }
        while k < n
            invariant
                k <= n,
                len == value@.len(),
                n == len / 2,
                offsets@ == spec_cell_offsets(value@).subrange(0, k as int),
            decreases n - k,
        {
            proof {
                assert(2 * k + 2 <= 2 * n);
                assert(2 * n <= len);
            }
            let chunk = slice_subrange(value, 2 * k, 2 * k + 2);
            let v = match get_u16_from_bytes(chunk, "cell_offsets") {
                Ok(v) => v,
                Err(e) => return Err(CellOffsetError::CellOffsetDecodeError(e)),
            };
            offsets.push(v);
            proof {
                assert(spec_cell_offsets(value@).subrange(0, k + 1) =~= spec_cell_offsets(
                    value@,
                ).subrange(0, k as int).push(spec_cell_offsets(value@)[k as int]));
            }
            k += 1;
        }
        if value.len() % 2 == 1 {
            // The final chunk holds a single byte and cannot decode.
            let chunk = slice_subrange(value, 2 * n, value.len());
            match get_u16_from_bytes(chunk, "cell_offsets") {
                Err(e) => {
                    return Err(CellOffsetError::CellOffsetDecodeError(e));
                },
                Ok(_) => {},
            }
        }
        proof {
            assert(offsets@ =~= spec_cell_offsets(value@));
        }
        Ok(CellOffsets(offsets))
    }

    /// How many cell offsets were decoded.
    pub fn len(&self) -> (r: usize)
        ensures
            r == self.0@.len(),
    {
        self.0.len()
    }
}

/// One decoded page of the database file.
#[derive(Debug, PartialEq, Eq, Clone)]
pub struct DatabasePage {
    pub page_header: PageHeader,
    pub cell_offsets: CellOffsets,
    pub bytes: Vec<u8>,
}

#[derive(Debug, PartialEq, Eq)]
pub enum DatabasePageError {
    CellOffsetError(CellOffsetError),
    PageTypeError(PageTypeError),
    PageHeaderError(PageHeaderError),
}

/// A page window from which a whole page decodes: non-empty, a valid
/// page-type byte, room for the fixed header, and room for the cell
/// pointer array that the header's cell count declares.
pub open spec fn spec_page_wf(w: Seq<u8>) -> bool {
    &&& w.len() > 0
    &&& page_type_byte_ok(w[0])
    &&& spec_page_header_len(spec_page_type(w[0])) <= w.len()
    &&& spec_page_header_len(spec_page_type(w[0])) + 2 * (u16_be(w.subrange(3, 5)) as int)
        <= w.len()
}

/// How a decoded page relates to the window it was decoded from: the header
/// comes from the window's first 8 or 12 bytes, the cell offsets from the
/// two-byte chunks right after, and the raw bytes are the window itself.
pub open spec fn spec_page_matches(p: DatabasePage, w: Seq<u8>) -> bool
    recommends
        spec_page_wf(w),
{
    let h = spec_page_header_len(spec_page_type(w[0]));
    let n = u16_be(w.subrange(3, 5)) as int;
    &&& p.page_header == spec_parsed_page_header(w.subrange(0, h))
    &&& p.cell_offsets.0@ == spec_cell_offsets(w.subrange(h, h + 2 * n))
    &&& p.bytes@ == w
}

/// The error that a malformed page window decodes to: empty windows first,
/// then an unknown page-type byte, then a window too short for the fixed
/// header, then too few bytes left for the declared cell pointer array.
pub open spec fn spec_page_error_matches(e: DatabasePageError, w: Seq<u8>) -> bool {
    if w.len() == 0 {
        e == DatabasePageError::PageHeaderError(PageHeaderError::EmptyHeader)
    } else if !page_type_byte_ok(w[0]) {
        e == DatabasePageError::PageTypeError(PageTypeError::InvalidType(w[0]))
    } else if w.len() < spec_page_header_len(spec_page_type(w[0])) {
        e == DatabasePageError::PageHeaderError(
            PageHeaderError::InvalidLength(spec_page_type(w[0]), w.len() as usize),
        )
    } else {
        let h = spec_page_header_len(spec_page_type(w[0]));
        let n = u16_be(w.subrange(3, 5)) as int;
        &&& e matches DatabasePageError::CellOffsetError(CellOffsetError::CellOffsetDecodeError(d))
        &&& d.is_incorrect_byte_count(2 * n, w.len() - h, "cell_offsets"@)
    }
}

impl DatabasePage {
    /// Decodes one page from its full window: classifies the first byte,
    /// decodes the fixed header, then the cell pointer array, and retains
    /// the window's raw bytes.
    pub fn try_from(value: &[u8]) -> (r: Result<DatabasePage, DatabasePageError>)
        ensures
            spec_page_wf(value@) ==> (r matches Ok(p) && spec_page_matches(p, value@)),
            !spec_page_wf(value@) ==> (r matches Err(e) && spec_page_error_matches(e, value@)),
    {
        if value.len() == 0 {
            return Err(DatabasePageError::PageHeaderError(PageHeaderError::EmptyHeader));
        }
        let page_type = match PageType::try_from(value[0]) {
            Ok(t) => t,
            Err(e) => return Err(DatabasePageError::PageTypeError(e)),
        };
        let header_len = page_type.header_length();
        let header_window = if value.len() < header_len {
            value
        } else {
            slice_subrange(value, 0, header_len)
        };
        let page_header = match PageHeader::try_from(header_window) {
            Ok(h) => h,
            Err(e) => return Err(DatabasePageError::PageHeaderError(e)),
        };
        let num_cells = page_header.get_number_of_cells() as usize;
        let cell_bytes = num_cells * 2;
        let available = value.len() - header_len;
        if available < cell_bytes {
            return Err(
                DatabasePageError::CellOffsetError(
                    CellOffsetError::CellOffsetDecodeError(
                        DecodeError::IncorrectNumberOfBytes {
                            num_bytes_expected: cell_bytes,
                            num_bytes_recieved: available,
                            item_parsed: "cell_offsets".to_owned(),
                        },
                    ),
                ),
            );
        }
        let cell_window = slice_subrange(value, header_len, header_len + cell_bytes);
        let cell_offsets = match CellOffsets::try_from(cell_window) {
            Ok(c) => c,
            Err(e) => return Err(DatabasePageError::CellOffsetError(e)),
        };
        Ok(DatabasePage { page_header, cell_offsets, bytes: slice_to_vec(value) })
    }

    /// The kind of this page.
    pub fn get_page_type(&self) -> (r: PageType)
        ensures
            r == self.page_header.page_type,
    {
        self.page_header.page_type
    }
}

} // verus!
