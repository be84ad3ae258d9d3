//! The fixed 100-byte database header and its decoder.

use crate::util::DecodeError;
use crate::util::get_u16_from_bytes;
use crate::util::get_u32_from_bytes;
use crate::util::lemma_u16_be_round_trip;
use crate::util::lemma_u32_be_round_trip;
use crate::util::u16_be;
use crate::util::u16_be_bytes;
use crate::util::u32_be;
use crate::util::u32_be_bytes;
use vstd::prelude::*;
use vstd::slice::slice_subrange;

verus! {

/// Journalling mode recorded in the header, for reading and for writing.
#[derive(Debug, PartialEq, Eq, Clone, Copy)]
pub enum FileFormatVersion {
    Legacy,
    Wal,
}

#[derive(Debug, PartialEq, Eq)]
pub enum FileFormatVersionError {
    IncorrectVariant(u8),
}

/// The format-version byte admits exactly the values 1 (legacy) and 2 (WAL).
pub open spec fn version_byte_ok(b: u8) -> bool {
    b == 1 || b == 2
}

/// The variant that a valid format-version byte stands for.
pub open spec fn spec_version(b: u8) -> FileFormatVersion
    recommends
        version_byte_ok(b),
{
    if b == 1 {
        FileFormatVersion::Legacy
    } else {
        FileFormatVersion::Wal
    }
}

/// The byte that encodes a format-version variant.
pub open spec fn spec_version_byte(v: FileFormatVersion) -> u8 {
    match v {
        FileFormatVersion::Legacy => 1,
        FileFormatVersion::Wal => 2,
    }
}

impl FileFormatVersion {
    /// Maps byte 1 to `Legacy` and byte 2 to `Wal`; every other byte is
    /// rejected, carrying the offending value.
    pub fn try_from(value: u8) -> (r: Result<FileFormatVersion, FileFormatVersionError>)
        ensures
            version_byte_ok(value) ==> r == Ok::<FileFormatVersion, FileFormatVersionError>(
                spec_version(value),
            ),
            !version_byte_ok(value) ==> r == Err::<FileFormatVersion, FileFormatVersionError>(
                FileFormatVersionError::IncorrectVariant(value),
            ),
    {
        match value {
            1 => Ok(FileFormatVersion::Legacy),
            2 => Ok(FileFormatVersion::Wal),
            _ => Err(FileFormatVersionError::IncorrectVariant(value)),
        }
    }
}

/// Text encoding of the database, recorded as a 32-bit value in the header.
#[derive(Debug, PartialEq, Eq, Clone, Copy)]
pub enum TextEncoding {
    Utf8,
    Utf16Le,
    Utf16Be,
}

#[derive(Debug, PartialEq, Eq)]
pub enum TextEncodingError {
    IncorrectVariant(u32),
}

/// The text-encoding field admits exactly the values 1, 2 and 3.
pub open spec fn encoding_value_ok(v: u32) -> bool {
    v == 1 || v == 2 || v == 3
}

/// The variant that a valid text-encoding value stands for.
pub open spec fn spec_encoding(v: u32) -> TextEncoding
    recommends
        encoding_value_ok(v),
{
    if v == 1 {
        TextEncoding::Utf8
    } else if v == 2 {
        TextEncoding::Utf16Le
    } else {
        TextEncoding::Utf16Be
    }
}

/// The 32-bit value that encodes a text-encoding variant.
pub open spec fn spec_encoding_value(t: TextEncoding) -> u32 {
    match t {
        TextEncoding::Utf8 => 1,
        TextEncoding::Utf16Le => 2,
        TextEncoding::Utf16Be => 3,
    }
}

impl TextEncoding {
    /// Maps 1 to `Utf8`, 2 to `Utf16Le` and 3 to `Utf16Be`; every other
    /// value is rejected, carrying the offending value.
    pub fn try_from(value: u32) -> (r: Result<TextEncoding, TextEncodingError>)
        ensures
            encoding_value_ok(value) ==> r == Ok::<TextEncoding, TextEncodingError>(
                spec_encoding(value),
            ),
            !encoding_value_ok(value) ==> r == Err::<TextEncoding, TextEncodingError>(
                TextEncodingError::IncorrectVariant(value),
            ),
    {
        match value {
            1 => Ok(TextEncoding::Utf8),
            2 => Ok(TextEncoding::Utf16Le),
            3 => Ok(TextEncoding::Utf16Be),
            _ => Err(TextEncodingError::IncorrectVariant(value)),
        }
    }
}

/// The exact 16-byte signature that every database file starts with:
/// the bytes of "SQLite format 3" followed by a NUL.
pub open spec fn magic_bytes() -> Seq<u8> {
    seq![
        83u8,
        81u8,
        76u8,
        105u8,
        116u8,
        101u8,
        32u8,
        102u8,
        111u8,
        114u8,
        109u8,
        97u8,
        116u8,
        32u8,
        51u8,
        0u8,
    ]
}

/// One character per byte, used to report a wrong signature as text.
pub open spec fn chars_of_bytes(s: Seq<u8>) -> Seq<char> {
    Seq::new(s.len(), |i: int| s[i] as char)
}

// https://www.sqlite.org/fileformat.html
#[derive(Debug, PartialEq, Eq, Clone)]
pub struct DatabaseHeader {
    /// The database page size in bytes.
    /// Must be a power of two between 512 and 32768 inclusive, or the value 1 representing a page size of 65536.
    pub page_size: u16,
    /// File format write version. 1 for legacy; 2 for WAL.
    pub file_format_write_version: FileFormatVersion,
    /// File format read version. 1 for legacy; 2 for WAL.
    pub file_format_read_version: FileFormatVersion,
    /// Bytes of unused "reserved" space at the end of each page. Usually 0.
    pub reserved_space: u8,
    /// Maximum embedded payload fraction. Must be 64.
    pub maximum_embedded_payload_fraction: u8,
    /// Minimum embedded payload fraction. Must be 32.
    pub minimum_embedded_payload_fraction: u8,
    /// Leaf payload fraction. Must be 32.
    pub leaf_payload_fraction: u8,
    /// File change counter.
    pub file_change_counter: u32,
    /// Size of the database file in pages. The "in-header database size".
    pub database_size_in_pages: u32,
    /// Page number of the first freelist trunk page.
    pub first_freelist: u32,
    /// Total number of freelist pages.
    pub num_freelist: u32,
    /// The schema cookie.
    pub schema_cookie: u32,
    /// The schema format number. Supported schema formats are 1, 2, 3, and 4.
    pub schema_format_number: u32,
    /// Default page cache size.
    pub default_page_cache_size: u32,
    /// The page number of the largest root b-tree page when in auto-vacuum or incremental-vacuum modes, or zero otherwise.
    pub largest_root_page: u32,
    /// The database text encoding. A value of 1 means UTF-8. A value of 2 means UTF-16le. A value of 3 means UTF-16be.
    pub text_encoding: TextEncoding,
    /// The "user version" as read and set by the user_version pragma.
    pub user_version: u32,
    /// True (non-zero) for incremental-vacuum mode. False (zero) otherwise.
    pub incremental_vaccuum_mode: bool,
    /// The "Application ID" set by PRAGMA application_id.
    pub application_id: u32,
    pub version_valid_for: u32,
    pub sqlite_version_number: u32,
}

#[derive(Debug, PartialEq, Eq)]
pub enum DatabaseHeaderError {
    IncorrectLength(usize),
    IncorrectHeaderString(String),
    InvalidFileFormatVersion { field: String, value: u8 },
    MalformedDatabaseHeader(String),
    DecodeError(DecodeError),
}

/// The first sixteen bytes equal the format signature.
pub open spec fn header_magic_ok(b: Seq<u8>) -> bool {
    b.subrange(0, 16) == magic_bytes()
}

/// A 100-byte buffer from which every header field decodes: right length,
/// right signature, valid format-version bytes and text-encoding value.
pub open spec fn header_bytes_wf(b: Seq<u8>) -> bool {
    &&& b.len() == 100
    &&& header_magic_ok(b)
    &&& version_byte_ok(b[18])
    &&& version_byte_ok(b[19])
    &&& encoding_value_ok(u32_be(b.subrange(56, 60)))
}

/// The error that a malformed header buffer decodes to, checked in order:
/// wrong length, then wrong signature, then the write- and read-version
/// bytes, then the text-encoding value.
pub open spec fn spec_header_error_matches(e: DatabaseHeaderError, b: Seq<u8>) -> bool {
    if b.len() != 100 {
        e == DatabaseHeaderError::IncorrectLength(b.len() as usize)
    } else if !header_magic_ok(b) {
        &&& e matches DatabaseHeaderError::IncorrectHeaderString(s)
        &&& s@ == chars_of_bytes(b.subrange(0, 16))
    } else if !version_byte_ok(b[18]) {
        &&& e matches DatabaseHeaderError::InvalidFileFormatVersion { field, value: vb }
        &&& field@ == "file_format_write_version"@
        &&& vb == b[18]
    } else if !version_byte_ok(b[19]) {
        &&& e matches DatabaseHeaderError::InvalidFileFormatVersion { field, value: vb }
        &&& field@ == "file_format_read_version"@
        &&& vb == b[19]
    } else {
        &&& e matches DatabaseHeaderError::MalformedDatabaseHeader(f)
        &&& f@ == "text_encoding"@
    }
}

/// The header that a well-formed 100-byte buffer decodes to, field by field.
pub open spec fn spec_parsed_header(b: Seq<u8>) -> DatabaseHeader
    recommends
        header_bytes_wf(b),
{
    DatabaseHeader {
        page_size: u16_be(b.subrange(16, 18)),
        file_format_write_version: spec_version(b[18]),
        file_format_read_version: spec_version(b[19]),
        reserved_space: b[20],
        maximum_embedded_payload_fraction: b[21],
        minimum_embedded_payload_fraction: b[22],
        leaf_payload_fraction: b[23],
        file_change_counter: u32_be(b.subrange(24, 28)),
        database_size_in_pages: u32_be(b.subrange(28, 32)),
        first_freelist: u32_be(b.subrange(32, 36)),
        num_freelist: u32_be(b.subrange(36, 40)),
        schema_cookie: u32_be(b.subrange(40, 44)),
        schema_format_number: u32_be(b.subrange(44, 48)),
        default_page_cache_size: u32_be(b.subrange(48, 52)),
        largest_root_page: u32_be(b.subrange(52, 56)),
        text_encoding: spec_encoding(u32_be(b.subrange(56, 60))),
        user_version: u32_be(b.subrange(60, 64)),
        incremental_vaccuum_mode: u32_be(b.subrange(64, 68)) > 0,
        application_id: u32_be(b.subrange(68, 72)),
        version_valid_for: u32_be(b.subrange(92, 96)),
        sqlite_version_number: u32_be(b.subrange(96, 100)),
    }
}

/// The byte of the format signature at position `i`.
fn magic_byte(i: usize) -> (r: u8)
    requires
        i < 16,
    ensures
        r == magic_bytes()[i as int],
{
    match i {
        0 => 83,
        1 => 81,
        2 => 76,
        3 => 105,
        4 => 116,
        5 => 101,
        6 => 32,
        7 => 102,
        8 => 111,
        9 => 114,
        10 => 109,
        11 => 97,
        12 => 116,
        13 => 32,
        14 => 51,
        _ => 0,
    }
}

/// Relies on String::push: appends exactly the given character.
#[verifier::external_body]
fn push_char(s: &mut String, c: char)
    ensures
        final(s)@ == old(s)@.push(c),
{
    s.push(c)
}

/// Whether the buffer starts with the format signature.
fn check_magic(value: &Vec<u8>) -> (ok: bool)
    requires
        value@.len() >= 16,
    ensures
        ok <==> value@.subrange(0, 16) == magic_bytes(),
{
    let mut i: usize = 0;
    while i < 16
        invariant
            i <= 16,
            value@.len() >= 16,
            forall|j: int| 0 <= j < i ==> value@[j] == magic_bytes()[j],
        decreases 16 - i,
    {
        if value[i] != magic_byte(i) {
            proof {
                assert(value@.subrange(0, 16)[i as int] == value@[i as int]);
            }
            return false;
        }
        i += 1;
    }
    proof {
        assert(value@.subrange(0, 16) =~= magic_bytes());
    }
    true
}

/// The first sixteen bytes of the buffer, one character per byte.
fn header_string(value: &Vec<u8>) -> (s: String)
    requires
        value@.len() >= 16,
    ensures
        s@ == chars_of_bytes(value@.subrange(0, 16)),
{
    let mut s = String::new();
    let mut i: usize = 0;
    proof {
        assert(s@ =~= chars_of_bytes(value@.subrange(0, 0)));
    }
    while i < 16
        invariant
            i <= 16,
            value@.len() >= 16,
            s@ == chars_of_bytes(value@.subrange(0, i as int)),
        decreases 16 - i,
    {
        let c = value[i] as char;
        push_char(&mut s, c);
        proof {
            assert(chars_of_bytes(value@.subrange(0, i + 1)) =~= chars_of_bytes(
                value@.subrange(0, i as int),
            ).push(value@[i as int] as char));
        }
        i += 1;
    }
    proof {
        assert(value@.subrange(0, 16) == value@.subrange(0, i as int));
    }
    s
}

/// The 100 bytes that a header encodes to: the signature, every field
/// big-endian at its fixed offset, and zeroes for the reserved range.
pub open spec fn spec_encoded_header(h: DatabaseHeader) -> Seq<u8> {
    magic_bytes() + u16_be_bytes(h.page_size) + seq![
        spec_version_byte(h.file_format_write_version),
        spec_version_byte(h.file_format_read_version),
        h.reserved_space,
        h.maximum_embedded_payload_fraction,
        h.minimum_embedded_payload_fraction,
        h.leaf_payload_fraction,
    ] + u32_be_bytes(h.file_change_counter) + u32_be_bytes(h.database_size_in_pages)
        + u32_be_bytes(h.first_freelist) + u32_be_bytes(h.num_freelist) + u32_be_bytes(
        h.schema_cookie,
    ) + u32_be_bytes(h.schema_format_number) + u32_be_bytes(h.default_page_cache_size)
        + u32_be_bytes(h.largest_root_page) + u32_be_bytes(spec_encoding_value(h.text_encoding))
        + u32_be_bytes(h.user_version) + u32_be_bytes(
        if h.incremental_vaccuum_mode {
            1u32
        } else {
            0u32
        },
    ) + u32_be_bytes(h.application_id) + Seq::new(20, |i: int| 0u8) + u32_be_bytes(
        h.version_valid_for,
    ) + u32_be_bytes(h.sqlite_version_number)
}

/// Writes the format signature at the end of the buffer.
fn push_magic(v: &mut Vec<u8>)
    ensures
        final(v)@ == old(v)@ + magic_bytes(),
{
    let mut k: usize = 0;
    proof {
        assert(v@ =~= old(v)@ + magic_bytes().subrange(0, 0));
    }
    while k < 16
        invariant
            k <= 16,
            v@ == old(v)@ + magic_bytes().subrange(0, k as int),
        decreases 16 - k,
    {
        let b = magic_byte(k);
        v.push(b);
        proof {
            assert(old(v)@ + magic_bytes().subrange(0, k + 1) =~= (old(v)@ + magic_bytes().subrange(
                0,
                k as int,
            )).push(magic_bytes()[k as int]));
        }
        k += 1;
    }
    proof {
        assert(magic_bytes().subrange(0, 16) =~= magic_bytes());
    }
}

/// Writes a `u16` at the end of the buffer, big-endian.
fn push_u16_be(v: &mut Vec<u8>, x: u16)
    ensures
        final(v)@ == old(v)@ + u16_be_bytes(x),
{
    v.push((x / 256) as u8);
    v.push((x % 256) as u8);
    proof {
        assert(v@ =~= old(v)@ + u16_be_bytes(x));
    }
}

/// Writes a `u32` at the end of the buffer, big-endian.
fn push_u32_be(v: &mut Vec<u8>, x: u32)
    ensures
        final(v)@ == old(v)@ + u32_be_bytes(x),
{
    v.push((x / 0x1000000) as u8);
    v.push(((x / 0x10000) % 256) as u8);
    v.push(((x / 256) % 256) as u8);
    v.push((x % 256) as u8);
    proof {
        assert(v@ =~= old(v)@ + u32_be_bytes(x));
    }
}

/// Writes `n` zero bytes at the end of the buffer.
fn push_zeros(v: &mut Vec<u8>, n: usize)
    ensures
        final(v)@ == old(v)@ + Seq::new(n as nat, |i: int| 0u8),
{
    let mut k: usize = 0;
    proof {
        assert(v@ =~= old(v)@ + Seq::new(0, |i: int| 0u8));
    }
    while k < n
        invariant
            k <= n,
            v@ == old(v)@ + Seq::new(k as nat, |i: int| 0u8),
        decreases n - k,
    {
        v.push(0);
        proof {
            assert(old(v)@ + Seq::new((k + 1) as nat, |i: int| 0u8) =~= (old(v)@ + Seq::new(
                k as nat,
                |i: int| 0u8,
            )).push(0u8));
        }
        k += 1;
    }
}

impl DatabaseHeader {
    /// Decodes the fixed 100-byte database header, field by field at its
    /// fixed offsets, failing fast on the first malformed field.
    pub fn try_from(value: Vec<u8>) -> (r: Result<DatabaseHeader, DatabaseHeaderError>)
        ensures
            header_bytes_wf(value@) ==> r == Ok::<DatabaseHeader, DatabaseHeaderError>(
                spec_parsed_header(value@),
            ),
            !header_bytes_wf(value@) ==> (r matches Err(e) && spec_header_error_matches(
                e,
                value@,
            )),
    {
        if value.len() != 100 {
            return Err(DatabaseHeaderError::IncorrectLength(value.len()));
        }
        if !check_magic(&value) {
            return Err(DatabaseHeaderError::IncorrectHeaderString(header_string(&value)));
        }
        let page_size = match get_u16_from_bytes(
            slice_subrange(value.as_slice(), 16, 18),
            "page_size",
        ) {
            Ok(v) => v,
            Err(e) => return Err(DatabaseHeaderError::DecodeError(e)),
        };
        let file_format_write_version = match FileFormatVersion::try_from(value[18]) {
            Ok(v) => v,
            Err(FileFormatVersionError::IncorrectVariant(b)) => {
                return Err(
                    DatabaseHeaderError::InvalidFileFormatVersion {
                        field: "file_format_write_version".to_owned(),
                        value: b,
                    },
                );
            },
        };
        let file_format_read_version = match FileFormatVersion::try_from(value[19]) {
            Ok(v) => v,
            Err(FileFormatVersionError::IncorrectVariant(b)) => {
                return Err(
                    DatabaseHeaderError::InvalidFileFormatVersion {
                        field: "file_format_read_version".to_owned(),
                        value: b,
                    },
                );
            },
        };
        let reserved_space = value[20];
        let maximum_embedded_payload_fraction = value[21];
        let minimum_embedded_payload_fraction = value[22];
        let leaf_payload_fraction = value[23];
        let file_change_counter = match get_u32_from_bytes(
            slice_subrange(value.as_slice(), 24, 28),
            "file_change_counter",
        ) {
            Ok(v) => v,
            Err(e) => return Err(DatabaseHeaderError::DecodeError(e)),
        };
        let database_size_in_pages = match get_u32_from_bytes(
            slice_subrange(value.as_slice(), 28, 32),
            "database_size_in_pages",
        ) {
            Ok(v) => v,
            Err(e) => return Err(DatabaseHeaderError::DecodeError(e)),
        };
        let first_freelist = match get_u32_from_bytes(
            slice_subrange(value.as_slice(), 32, 36),
            "first_freelist",
        ) {
            Ok(v) => v,
            Err(e) => return Err(DatabaseHeaderError::DecodeError(e)),
        };
        let num_freelist = match get_u32_from_bytes(
            slice_subrange(value.as_slice(), 36, 40),
            "num_freelist",
        ) {
            Ok(v) => v,
            Err(e) => return Err(DatabaseHeaderError::DecodeError(e)),
        };
        let schema_cookie = match get_u32_from_bytes(
            slice_subrange(value.as_slice(), 40, 44),
            "schema_cookie",
        ) {
            Ok(v) => v,
            Err(e) => return Err(DatabaseHeaderError::DecodeError(e)),
        };
        let schema_format_number = match get_u32_from_bytes(
            slice_subrange(value.as_slice(), 44, 48),
            "schema_format_number",
        ) {
            Ok(v) => v,
            Err(e) => return Err(DatabaseHeaderError::DecodeError(e)),
        };
        let default_page_cache_size = match get_u32_from_bytes(
            slice_subrange(value.as_slice(), 48, 52),
            "default_page_cache_size",
        ) {
            Ok(v) => v,
            Err(e) => return Err(DatabaseHeaderError::DecodeError(e)),
        };
        let largest_root_page = match get_u32_from_bytes(
            slice_subrange(value.as_slice(), 52, 56),
            "largest_root_page",
        ) {
            Ok(v) => v,
            Err(e) => return Err(DatabaseHeaderError::DecodeError(e)),
        };
        let text_encoding_value = match get_u32_from_bytes(
            slice_subrange(value.as_slice(), 56, 60),
            "text_encoding",
        ) {
            Ok(v) => v,
            Err(e) => return Err(DatabaseHeaderError::DecodeError(e)),
        };
        let text_encoding = match TextEncoding::try_from(text_encoding_value) {
            Ok(v) => v,
            Err(_) => {
                return Err(DatabaseHeaderError::MalformedDatabaseHeader("text_encoding".to_owned()));
            },
        };
        let user_version = match get_u32_from_bytes(
            slice_subrange(value.as_slice(), 60, 64),
            "user_version",
        ) {
            Ok(v) => v,
            Err(e) => return Err(DatabaseHeaderError::DecodeError(e)),
        };
        let incremental_raw = match get_u32_from_bytes(
            slice_subrange(value.as_slice(), 64, 68),
            "incremental_vaccuum_mode",
        ) {
            Ok(v) => v,
            Err(e) => return Err(DatabaseHeaderError::DecodeError(e)),
        };
        let incremental_vaccuum_mode = incremental_raw > 0;
        let application_id = match get_u32_from_bytes(
            slice_subrange(value.as_slice(), 68, 72),
            "application_id",
        ) {
            Ok(v) => v,
            Err(e) => return Err(DatabaseHeaderError::DecodeError(e)),
        };
        let version_valid_for = match get_u32_from_bytes(
            slice_subrange(value.as_slice(), 92, 96),
            "version_valid_for",
        ) {
            Ok(v) => v,
            Err(e) => return Err(DatabaseHeaderError::DecodeError(e)),
        };
        let sqlite_version_number = match get_u32_from_bytes(
            slice_subrange(value.as_slice(), 96, 100),
            "sqlite_version_number",
        ) {
            Ok(v) => v,
            Err(e) => return Err(DatabaseHeaderError::DecodeError(e)),
        };
        Ok(
            DatabaseHeader {
                page_size,
                file_format_write_version,
                file_format_read_version,
                reserved_space,
                maximum_embedded_payload_fraction,
                minimum_embedded_payload_fraction,
                leaf_payload_fraction,
                file_change_counter,
                database_size_in_pages,
                first_freelist,
                num_freelist,
                schema_cookie,
                schema_format_number,
                default_page_cache_size,
                largest_root_page,
                text_encoding,
                user_version,
                incremental_vaccuum_mode,
                application_id,
                version_valid_for,
                sqlite_version_number,
            },
        )
    }

    /// Encodes the header back to its 100-byte on-disk form, the exact
    /// inverse of `try_from` (reserved bytes written as zeroes).
    pub fn encode(&self) -> (r: Vec<u8>)
        ensures
            r@ == spec_encoded_header(*self),
    {
        let mut out: Vec<u8> = Vec::new();
        push_magic(&mut out);
        push_u16_be(&mut out, self.page_size);
        let ghost before_single_bytes = out@;
        let wv: u8 = match self.file_format_write_version {
            FileFormatVersion::Legacy => 1,
            FileFormatVersion::Wal => 2,
        };
        let rv: u8 = match self.file_format_read_version {
            FileFormatVersion::Legacy => 1,
            FileFormatVersion::Wal => 2,
        };
        out.push(wv);
        out.push(rv);
        out.push(self.reserved_space);
        out.push(self.maximum_embedded_payload_fraction);
        out.push(self.minimum_embedded_payload_fraction);
        out.push(self.leaf_payload_fraction);
        proof {
            assert(out@ =~= before_single_bytes + seq![
                spec_version_byte(self.file_format_write_version),
                spec_version_byte(self.file_format_read_version),
                self.reserved_space,
                self.maximum_embedded_payload_fraction,
                self.minimum_embedded_payload_fraction,
                self.leaf_payload_fraction,
            ]);
        }
        push_u32_be(&mut out, self.file_change_counter);
        push_u32_be(&mut out, self.database_size_in_pages);
        push_u32_be(&mut out, self.first_freelist);
        push_u32_be(&mut out, self.num_freelist);
        push_u32_be(&mut out, self.schema_cookie);
        push_u32_be(&mut out, self.schema_format_number);
        push_u32_be(&mut out, self.default_page_cache_size);
        push_u32_be(&mut out, self.largest_root_page);
        let ev: u32 = match self.text_encoding {
            TextEncoding::Utf8 => 1,
            TextEncoding::Utf16Le => 2,
            TextEncoding::Utf16Be => 3,
        };
        push_u32_be(&mut out, ev);
        push_u32_be(&mut out, self.user_version);
        let iv: u32 = if self.incremental_vaccuum_mode {
            1
        } else {
            0
        };
        push_u32_be(&mut out, iv);
        push_u32_be(&mut out, self.application_id);
        push_zeros(&mut out, 20);
        push_u32_be(&mut out, self.version_valid_for);
        push_u32_be(&mut out, self.sqlite_version_number);
        proof {
            assert(out@ =~= spec_encoded_header(*self));
        }
        out
    }

    /// The page size used for chunking the file: the stored value, with the
    /// literal 1 standing for 65536.
    pub fn effective_page_size(&self) -> (r: usize)
        ensures
            r == spec_effective_page_size(*self),
    {
        if self.page_size == 1 {
            65536
        } else {
            self.page_size as usize
        }
    }
}

/// The page size that the stored `page_size` field resolves to: the literal
/// value 1 stands for 65536, every other value stands for itself.
pub open spec fn spec_effective_page_size(h: DatabaseHeader) -> int {
    if h.page_size == 1 {
        65536
    } else {
        h.page_size as int
    }
}

/// Layout of the encoded buffer up to offset 24: signature, page size and
/// the six single-byte fields.
#[verifier::rlimit(100)]
#[verifier::spinoff_prover]
proof fn lemma_enc_layout_prefix(h: DatabaseHeader)
    ensures
        spec_encoded_header(h).len() == 100,
        spec_encoded_header(h).subrange(0, 16) == magic_bytes(),
        spec_encoded_header(h).subrange(16, 18) == u16_be_bytes(h.page_size),
        spec_encoded_header(h)[18] == spec_version_byte(h.file_format_write_version),
        spec_encoded_header(h)[19] == spec_version_byte(h.file_format_read_version),
        spec_encoded_header(h)[20] == h.reserved_space,
        spec_encoded_header(h)[21] == h.maximum_embedded_payload_fraction,
        spec_encoded_header(h)[22] == h.minimum_embedded_payload_fraction,
        spec_encoded_header(h)[23] == h.leaf_payload_fraction,
{
    let b = spec_encoded_header(h);
    assert(b.subrange(0, 16) =~= magic_bytes());
    assert(b.subrange(16, 18) =~= u16_be_bytes(h.page_size));
}

/// Layout of the encoded buffer from offset 24 to 56: the first eight
/// 32-bit fields.
#[verifier::rlimit(100)]
#[verifier::spinoff_prover]
proof fn lemma_enc_layout_mid(h: DatabaseHeader)
    ensures
        spec_encoded_header(h).subrange(24, 28) == u32_be_bytes(h.file_change_counter),
        spec_encoded_header(h).subrange(28, 32) == u32_be_bytes(h.database_size_in_pages),
        spec_encoded_header(h).subrange(32, 36) == u32_be_bytes(h.first_freelist),
        spec_encoded_header(h).subrange(36, 40) == u32_be_bytes(h.num_freelist),
        spec_encoded_header(h).subrange(40, 44) == u32_be_bytes(h.schema_cookie),
        spec_encoded_header(h).subrange(44, 48) == u32_be_bytes(h.schema_format_number),
        spec_encoded_header(h).subrange(48, 52) == u32_be_bytes(h.default_page_cache_size),
        spec_encoded_header(h).subrange(52, 56) == u32_be_bytes(h.largest_root_page),
{
    let b = spec_encoded_header(h);
    assert(b.subrange(24, 28) =~= u32_be_bytes(h.file_change_counter));
    assert(b.subrange(28, 32) =~= u32_be_bytes(h.database_size_in_pages));
    assert(b.subrange(32, 36) =~= u32_be_bytes(h.first_freelist));
    assert(b.subrange(36, 40) =~= u32_be_bytes(h.num_freelist));
    assert(b.subrange(40, 44) =~= u32_be_bytes(h.schema_cookie));
    assert(b.subrange(44, 48) =~= u32_be_bytes(h.schema_format_number));
    assert(b.subrange(48, 52) =~= u32_be_bytes(h.default_page_cache_size));
    assert(b.subrange(52, 56) =~= u32_be_bytes(h.largest_root_page));
}

/// Layout of the encoded buffer from offset 56 on: the remaining 32-bit
/// fields around the zeroed reserved range.
#[verifier::rlimit(100)]
#[verifier::spinoff_prover]
proof fn lemma_enc_layout_tail(h: DatabaseHeader)
    ensures
        spec_encoded_header(h).subrange(56, 60) == u32_be_bytes(
            spec_encoding_value(h.text_encoding),
        ),
        spec_encoded_header(h).subrange(60, 64) == u32_be_bytes(h.user_version),
        spec_encoded_header(h).subrange(64, 68) == u32_be_bytes(
            if h.incremental_vaccuum_mode {
                1u32
            } else {
                0u32
            },
        ),
        spec_encoded_header(h).subrange(68, 72) == u32_be_bytes(h.application_id),
        spec_encoded_header(h).subrange(92, 96) == u32_be_bytes(h.version_valid_for),
        spec_encoded_header(h).subrange(96, 100) == u32_be_bytes(h.sqlite_version_number),
{
    let b = spec_encoded_header(h);
    assert(b.subrange(56, 60) =~= u32_be_bytes(spec_encoding_value(h.text_encoding)));
    assert(b.subrange(60, 64) =~= u32_be_bytes(h.user_version));
    assert(b.subrange(64, 68) =~= u32_be_bytes(
        if h.incremental_vaccuum_mode {
            1u32
        } else {
            0u32
        },
    ));
    assert(b.subrange(68, 72) =~= u32_be_bytes(h.application_id));
    assert(b.subrange(92, 96) =~= u32_be_bytes(h.version_valid_for));
    assert(b.subrange(96, 100) =~= u32_be_bytes(h.sqlite_version_number));
}

/// Round trip: every header encodes to a well-formed 100-byte buffer, and
/// decoding that buffer reproduces every field of the header exactly.
#[verifier::rlimit(100)]
#[verifier::spinoff_prover]
pub proof fn lemma_header_round_trip(h: DatabaseHeader)
    ensures
        spec_encoded_header(h).len() == 100,
        header_bytes_wf(spec_encoded_header(h)),
        spec_parsed_header(spec_encoded_header(h)) == h,
{
    let b = spec_encoded_header(h);
    lemma_enc_layout_prefix(h);
    lemma_enc_layout_mid(h);
    lemma_enc_layout_tail(h);
    lemma_u16_be_round_trip(h.page_size);
    lemma_u32_be_round_trip(h.file_change_counter);
    lemma_u32_be_round_trip(h.database_size_in_pages);
    lemma_u32_be_round_trip(h.first_freelist);
    lemma_u32_be_round_trip(h.num_freelist);
    lemma_u32_be_round_trip(h.schema_cookie);
    lemma_u32_be_round_trip(h.schema_format_number);
    lemma_u32_be_round_trip(h.default_page_cache_size);
    lemma_u32_be_round_trip(h.largest_root_page);
    lemma_u32_be_round_trip(spec_encoding_value(h.text_encoding));
    lemma_u32_be_round_trip(h.user_version);
    lemma_u32_be_round_trip(
        if h.incremental_vaccuum_mode {
            1u32
        } else {
            0u32
        },
    );
    lemma_u32_be_round_trip(h.application_id);
    lemma_u32_be_round_trip(h.version_valid_for);
    lemma_u32_be_round_trip(h.sqlite_version_number);
    assert(spec_parsed_header(b) == h);
}

} // verus!
