use sqlite_decoder::database::header::DatabaseHeader;
use sqlite_decoder::database::header::DatabaseHeaderError;
use sqlite_decoder::database::header::FileFormatVersion;
use sqlite_decoder::database::header::FileFormatVersionError;
use sqlite_decoder::database::header::TextEncoding;
use sqlite_decoder::database::header::TextEncodingError;

#[test]
fn header_file_format_version_conversion() {
    assert_eq!(
        FileFormatVersion::try_from(1),
        Ok(FileFormatVersion::Legacy)
    );
    assert_eq!(FileFormatVersion::try_from(2), Ok(FileFormatVersion::Wal));
    assert_eq!(
        FileFormatVersion::try_from(3),
        Err(FileFormatVersionError::IncorrectVariant(3))
    );
}

#[test]
fn header_text_encoding_conversion() {
    assert_eq!(TextEncoding::try_from(1), Ok(TextEncoding::Utf8));
    assert_eq!(TextEncoding::try_from(2), Ok(TextEncoding::Utf16Le));
    assert_eq!(TextEncoding::try_from(3), Ok(TextEncoding::Utf16Be));
    assert_eq!(
        TextEncoding::try_from(4),
        Err(TextEncodingError::IncorrectVariant(4))
    );
}

#[test]
fn database_header_file_format_version_conversion() {
    assert_eq!(
        FileFormatVersion::try_from(1),
        Ok(FileFormatVersion::Legacy)
    );
    assert_eq!(FileFormatVersion::try_from(2), Ok(FileFormatVersion::Wal));
    assert_eq!(
        FileFormatVersion::try_from(3),
        Err(FileFormatVersionError::IncorrectVariant(3))
    );
}

#[test]
fn database_header_text_encoding_conversion() {
    assert_eq!(TextEncoding::try_from(1), Ok(TextEncoding::Utf8));
    assert_eq!(TextEncoding::try_from(2), Ok(TextEncoding::Utf16Le));
    assert_eq!(TextEncoding::try_from(3), Ok(TextEncoding::Utf16Be));
    assert_eq!(
        TextEncoding::try_from(4),
        Err(TextEncodingError::IncorrectVariant(4))
    );
}

fn valid_header_bytes() -> Vec<u8> {
    let mut v = vec![0u8; 100];
    v[..16].copy_from_slice(b"SQLite format 3\0");
    // page_size = 512
    v[16] = 2;
    v[17] = 0;
    // write and read format versions: legacy
    v[18] = 1;
    v[19] = 1;
    // payload fractions as the format expects them
    v[21] = 64;
    v[22] = 32;
    v[23] = 32;
    // text encoding = 1 (UTF-8)
    v[59] = 1;
    v
}

#[test]
fn header_decode_rejects_wrong_length() {
    for len in [0usize, 1, 99, 101, 612] {
        let bytes = vec![0u8; len];
        assert_eq!(
            DatabaseHeader::try_from(bytes),
            Err(DatabaseHeaderError::IncorrectLength(len))
        );
    }
}

#[test]
fn header_decode_rejects_wrong_signature() {
    let mut bytes = valid_header_bytes();
    bytes[..16].copy_from_slice(b"SQLite format 4\0");
    let result = DatabaseHeader::try_from(bytes);
    assert_eq!(
        result,
        Err(DatabaseHeaderError::IncorrectHeaderString(
            "SQLite format 4\0".to_owned()
        ))
    );
}

#[test]
fn header_decode_rejects_bad_read_version() {
    let mut bytes = valid_header_bytes();
    bytes[19] = 3;
    assert_eq!(
        DatabaseHeader::try_from(bytes),
        Err(DatabaseHeaderError::InvalidFileFormatVersion {
            field: "file_format_read_version".to_owned(),
            value: 3,
        })
    );
}

#[test]
fn header_decode_rejects_bad_write_version() {
    let mut bytes = valid_header_bytes();
    bytes[18] = 0;
    assert_eq!(
        DatabaseHeader::try_from(bytes),
        Err(DatabaseHeaderError::InvalidFileFormatVersion {
            field: "file_format_write_version".to_owned(),
            value: 0,
        })
    );
}

#[test]
fn header_decode_rejects_bad_text_encoding() {
    let mut bytes = valid_header_bytes();
    bytes[59] = 4;
    assert_eq!(
        DatabaseHeader::try_from(bytes),
        Err(DatabaseHeaderError::MalformedDatabaseHeader(
            "text_encoding".to_owned()
        ))
    );
}

#[test]
fn header_decode_reads_every_field() {
    let mut bytes = valid_header_bytes();
    bytes[20] = 7; // reserved_space
    bytes[24..28].copy_from_slice(&[0, 0, 0, 9]); // file_change_counter
    bytes[28..32].copy_from_slice(&[0, 0, 0, 2]); // database_size_in_pages
    bytes[32..36].copy_from_slice(&[0, 0, 0, 3]); // first_freelist
    bytes[36..40].copy_from_slice(&[0, 0, 0, 4]); // num_freelist
    bytes[40..44].copy_from_slice(&[0, 0, 0, 5]); // schema_cookie
    bytes[44..48].copy_from_slice(&[0, 0, 0, 1]); // schema_format_number
    bytes[48..52].copy_from_slice(&[0, 0, 0, 100]); // default_page_cache_size
    bytes[52..56].copy_from_slice(&[0, 0, 0, 6]); // largest_root_page
    bytes[60..64].copy_from_slice(&[0, 0, 0, 11]); // user_version
    bytes[64..68].copy_from_slice(&[0, 0, 0, 1]); // incremental vacuum: nonzero
    bytes[68..72].copy_from_slice(&[0, 0, 1, 0]); // application_id
    bytes[92..96].copy_from_slice(&[0, 0, 0, 9]); // version_valid_for
    bytes[96..100].copy_from_slice(&[0, 47, 165, 24]); // sqlite_version_number

    let header = DatabaseHeader::try_from(bytes).unwrap();
    assert_eq!(header.page_size, 512);
    assert_eq!(header.file_format_write_version, FileFormatVersion::Legacy);
    assert_eq!(header.file_format_read_version, FileFormatVersion::Legacy);
    assert_eq!(header.reserved_space, 7);
    assert_eq!(header.maximum_embedded_payload_fraction, 64);
    assert_eq!(header.minimum_embedded_payload_fraction, 32);
    assert_eq!(header.leaf_payload_fraction, 32);
    assert_eq!(header.file_change_counter, 9);
    assert_eq!(header.database_size_in_pages, 2);
    assert_eq!(header.first_freelist, 3);
    assert_eq!(header.num_freelist, 4);
    assert_eq!(header.schema_cookie, 5);
    assert_eq!(header.schema_format_number, 1);
    assert_eq!(header.default_page_cache_size, 100);
    assert_eq!(header.largest_root_page, 6);
    assert_eq!(header.text_encoding, TextEncoding::Utf8);
    assert_eq!(header.user_version, 11);
    assert!(header.incremental_vaccuum_mode);
    assert_eq!(header.application_id, 256);
    assert_eq!(header.version_valid_for, 9);
    assert_eq!(header.sqlite_version_number, 3122456);
}

#[test]
fn header_encode_decode_round_trip() {
    let mut bytes = valid_header_bytes();
    bytes[17] = 0;
    bytes[16] = 128; // page_size 32768
    bytes[18] = 2; // WAL write version
    bytes[56..60].copy_from_slice(&[0, 0, 0, 2]); // UTF-16le
    bytes[96..100].copy_from_slice(&[1, 2, 3, 4]);
    let header = DatabaseHeader::try_from(bytes.clone()).unwrap();
    let encoded = header.encode();
    assert_eq!(encoded.len(), 100);
    assert_eq!(encoded, bytes);
    let again = DatabaseHeader::try_from(encoded).unwrap();
    assert_eq!(again, header);
}

#[test]
fn effective_page_size_resolves_the_literal_one() {
    let mut bytes = valid_header_bytes();
    bytes[16] = 0;
    bytes[17] = 1; // page_size = 1
    let header = DatabaseHeader::try_from(bytes).unwrap();
    assert_eq!(header.page_size, 1);
    assert_eq!(header.effective_page_size(), 65536);

    let header512 = DatabaseHeader::try_from(valid_header_bytes()).unwrap();
    assert_eq!(header512.page_size, 512);
    assert_eq!(header512.effective_page_size(), 512);
}
