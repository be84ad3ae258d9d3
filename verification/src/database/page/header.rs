//! The page-kind-dependent fixed page header: a tag byte, three 16-bit
//! fields, one byte of fragment count, and — for interior pages only — a
//! right-most pointer.

use crate::util::DecodeError;
use crate::util::get_u16_from_bytes;
use crate::util::get_u32_from_bytes;
use crate::util::u16_be;
use crate::util::u32_be;
use vstd::prelude::*;
use vstd::slice::slice_subrange;

verus! {

/// The four page kinds of the on-disk b-tree format.
#[derive(Debug, PartialEq, Eq, Clone, Copy)]
pub enum PageType {
    InteriorIndex,
    InteriorTable,
    LeafIndex,
    LeafTable,
}

#[derive(Debug, PartialEq, Eq)]
pub enum PageTypeError {
    InvalidType(u8),
}

/// The page-type byte admits exactly the values 2, 5, 10 and 13.
pub open spec fn page_type_byte_ok(b: u8) -> bool {
    b == 2 || b == 5 || b == 10 || b == 13
}

/// The page kind that a valid page-type byte stands for.
pub open spec fn spec_page_type(b: u8) -> PageType
    recommends
        page_type_byte_ok(b),
{
    if b == 2 {
        PageType::InteriorIndex
    } else if b == 5 {
        PageType::InteriorTable
    } else if b == 10 {
        PageType::LeafIndex
    } else {
        PageType::LeafTable
    }
}

/// Interior pages carry a right-most pointer; leaf pages do not.
pub open spec fn spec_is_interior(t: PageType) -> bool {
    t == PageType::InteriorIndex || t == PageType::InteriorTable
}

/// The exact length of the fixed page header for each kind: 12 bytes for
/// interior pages, 8 for leaf pages.
pub open spec fn spec_page_header_len(t: PageType) -> int {
    if spec_is_interior(t) {
        12
    } else {
        8
    }
}

impl PageType {
    /// Maps byte 2 to `InteriorIndex`, 5 to `InteriorTable`, 10 to
    /// `LeafIndex` and 13 to `LeafTable`; every other byte is rejected,
    /// carrying the offending value.
    pub fn try_from(value: u8) -> (r: Result<PageType, PageTypeError>)
        ensures
            page_type_byte_ok(value) ==> r == Ok::<PageType, PageTypeError>(spec_page_type(value)),
            !page_type_byte_ok(value) ==> r == Err::<PageType, PageTypeError>(
                PageTypeError::InvalidType(value),
            ),
    {
        match value {
            2 => Ok(PageType::InteriorIndex),
            5 => Ok(PageType::InteriorTable),
            10 => Ok(PageType::LeafIndex),
            13 => Ok(PageType::LeafTable),
            _ => Err(PageTypeError::InvalidType(value)),
        }
    }

    /// The number of bytes that this kind's fixed page header occupies.
    pub fn header_length(&self) -> (r: usize)
        ensures
            r == spec_page_header_len(*self),
    {
        match self {
            PageType::InteriorIndex | PageType::InteriorTable => 12,
            PageType::LeafIndex | PageType::LeafTable => 8,
        }
    }
}

/// The decoded fixed page header.
#[derive(Debug, PartialEq, Eq, Clone)]
pub struct PageHeader {
    pub page_type: PageType,
    pub first_page_offset: u16,
    pub number_of_cells: u16,
    pub cell_content_start: u16,
    pub num_fragmented_free_bytes: u8,
    /// Only interior pages contain a right-most pointer.
    pub right_most_pointer: Option<u32>,
}

#[derive(Debug, PartialEq, Eq)]
pub enum PageHeaderError {
    EmptyHeader,
    InvalidLength(PageType, usize),
    InvalidPageType(u8),
    Decode(DecodeError),
}

/// A window holding exactly one well-formed fixed page header: non-empty,
/// a valid page-type byte, and exactly the length that the kind requires.
pub open spec fn page_header_bytes_wf(w: Seq<u8>) -> bool {
    &&& w.len() > 0
    &&& page_type_byte_ok(w[0])
    &&& w.len() == spec_page_header_len(spec_page_type(w[0]))
}

/// The page header that a well-formed window decodes to, field by field.
pub open spec fn spec_parsed_page_header(w: Seq<u8>) -> PageHeader
    recommends
        page_header_bytes_wf(w),
{
    let t = spec_page_type(w[0]);
    PageHeader {
        page_type: t,
        first_page_offset: u16_be(w.subrange(1, 3)),
        number_of_cells: u16_be(w.subrange(3, 5)),
        cell_content_start: u16_be(w.subrange(5, 7)),
        num_fragmented_free_bytes: w[7],
        right_most_pointer: if spec_is_interior(t) {
            Some(u32_be(w.subrange(8, 12)))
        } else {
            None::<u32>
        },
    }
}

/// The error that a malformed page-header window decodes to: empty windows,
/// then an unknown tag byte, then a length other than the kind requires.
pub open spec fn spec_page_header_error_matches(e: PageHeaderError, w: Seq<u8>) -> bool {
    if w.len() == 0 {
        e == PageHeaderError::EmptyHeader
    } else if !page_type_byte_ok(w[0]) {
        e == PageHeaderError::InvalidPageType(w[0])
    } else {
        e == PageHeaderError::InvalidLength(spec_page_type(w[0]), w.len() as usize)
    }
}

impl PageHeader {
    /// The number of cells recorded in the page header, which sizes the
    /// cell pointer array that follows it.
    pub fn get_number_of_cells(&self) -> (r: u16)
        ensures
            r == self.number_of_cells,
    {
        self.number_of_cells
    }

    /// Decodes the fixed page header from a window that must hold exactly
    /// the 8 or 12 bytes that the page kind requires.
    pub fn try_from(value: &[u8]) -> (r: Result<PageHeader, PageHeaderError>)
        ensures
            page_header_bytes_wf(value@) ==> r == Ok::<PageHeader, PageHeaderError>(
                spec_parsed_page_header(value@),
            ),
            !page_header_bytes_wf(value@) ==> (r matches Err(e) && spec_page_header_error_matches(
                e,
                value@,
            )),
    {
        if value.is_empty() {
            return Err(PageHeaderError::EmptyHeader);
        }
        // Value is non-empty, so we know it has at least one value
        let page_type = match PageType::try_from(value[0]) {
            Ok(t) => t,
            Err(PageTypeError::InvalidType(b)) => {
                return Err(PageHeaderError::InvalidPageType(b));
            },
        };
        let right_most_pointer = match page_type {
            PageType::LeafTable | PageType::LeafIndex => {
                if value.len() != 8 {
                    return Err(PageHeaderError::InvalidLength(page_type, value.len()));
                }
                None
            },
            PageType::InteriorTable | PageType::InteriorIndex => {
                if value.len() != 12 {
                    return Err(PageHeaderError::InvalidLength(page_type, value.len()));
                }
                let p = match get_u32_from_bytes(
                    slice_subrange(value, 8, 12),
                    "right_most_pointer",
                ) {
                    Ok(v) => v,
                    Err(e) => return Err(PageHeaderError::Decode(e)),
                };
                Some(p)
            },
        };
        let first_page_offset = match get_u16_from_bytes(
            slice_subrange(value, 1, 3),
            "first_page_offset",
        ) {
            Ok(v) => v,
            Err(e) => return Err(PageHeaderError::Decode(e)),
        };
        let number_of_cells = match get_u16_from_bytes(
            slice_subrange(value, 3, 5),
            "number_of_cells",
        ) {
            Ok(v) => v,
            Err(e) => return Err(PageHeaderError::Decode(e)),
        };
        let cell_content_start = match get_u16_from_bytes(
            slice_subrange(value, 5, 7),
            "cell_content_start",
        ) {
            Ok(v) => v,
            Err(e) => return Err(PageHeaderError::Decode(e)),
        };
        let num_fragmented_free_bytes = value[7];
        Ok(
            PageHeader {
                page_type,
                first_page_offset,
                number_of_cells,
                cell_content_start,
                num_fragmented_free_bytes,
                right_most_pointer,
            },
        )
    }
}

} // verus!
