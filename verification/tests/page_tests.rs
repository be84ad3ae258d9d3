use sqlite_decoder::database::page::header::PageHeader;
use sqlite_decoder::database::page::header::PageHeaderError;
use sqlite_decoder::database::page::header::PageType;
use sqlite_decoder::database::page::header::PageTypeError;
use sqlite_decoder::database::page::CellOffsetError;
use sqlite_decoder::database::page::CellOffsets;
use sqlite_decoder::database::page::DatabasePage;
use sqlite_decoder::database::page::DatabasePageError;
use sqlite_decoder::util::DecodeError;

#[test]
fn page_type_classification_is_exhaustive() {
    for b in 0u8..=255 {
        let result = PageType::try_from(b);
        match b {
            2 => assert_eq!(result, Ok(PageType::InteriorIndex)),
            5 => assert_eq!(result, Ok(PageType::InteriorTable)),
            10 => assert_eq!(result, Ok(PageType::LeafIndex)),
            13 => assert_eq!(result, Ok(PageType::LeafTable)),
            _ => assert_eq!(result, Err(PageTypeError::InvalidType(b))),
        }
    }
}

#[test]
fn page_header_decodes_leaf_fields() {
    let window = [13u8, 0, 9, 0, 2, 1, 0, 5];
    let header = PageHeader::try_from(&window).unwrap();
    assert_eq!(header.page_type, PageType::LeafTable);
    assert_eq!(header.first_page_offset, 9);
    assert_eq!(header.number_of_cells, 2);
    assert_eq!(header.get_number_of_cells(), 2);
    assert_eq!(header.cell_content_start, 256);
    assert_eq!(header.num_fragmented_free_bytes, 5);
    assert_eq!(header.right_most_pointer, None);
}

#[test]
fn page_header_decodes_interior_right_most_pointer() {
    let window = [2u8, 0, 1, 0, 3, 0, 7, 4, 0, 0, 1, 1];
    let header = PageHeader::try_from(&window).unwrap();
    assert_eq!(header.page_type, PageType::InteriorIndex);
    assert_eq!(header.first_page_offset, 1);
    assert_eq!(header.number_of_cells, 3);
    assert_eq!(header.cell_content_start, 7);
    assert_eq!(header.num_fragmented_free_bytes, 4);
    assert_eq!(header.right_most_pointer, Some(257));
}

#[test]
fn page_header_rejects_empty_window() {
    assert_eq!(
        PageHeader::try_from(&[]),
        Err(PageHeaderError::EmptyHeader)
    );
}

#[test]
fn page_header_rejects_unknown_type_byte() {
    assert_eq!(
        PageHeader::try_from(&[3u8, 0, 0, 0, 0, 0, 0, 0]),
        Err(PageHeaderError::InvalidPageType(3))
    );
}

#[test]
fn page_header_enforces_exact_length() {
    // Leaf kinds need exactly 8 bytes.
    for len in [1usize, 7, 9, 12] {
        let mut window = vec![0u8; len];
        window[0] = 13;
        assert_eq!(
            PageHeader::try_from(&window),
            Err(PageHeaderError::InvalidLength(PageType::LeafTable, len))
        );
    }
    // Interior kinds need exactly 12 bytes.
    for len in [1usize, 8, 11, 13] {
        let mut window = vec![0u8; len];
        window[0] = 5;
        assert_eq!(
            PageHeader::try_from(&window),
            Err(PageHeaderError::InvalidLength(PageType::InteriorTable, len))
        );
    }
}

#[test]
fn cell_offsets_preserve_on_disk_order() {
    let window = [0u8, 16, 0, 8, 1, 0];
    let offsets = CellOffsets::try_from(&window).unwrap();
    assert_eq!(offsets.0, vec![16, 8, 256]);
    assert_eq!(offsets.len(), 3);

    let empty = CellOffsets::try_from(&[]).unwrap();
    assert_eq!(empty.0, Vec::<u16>::new());
}

#[test]
fn cell_offsets_reject_odd_window() {
    let window = [0u8, 16, 0];
    assert_eq!(
        CellOffsets::try_from(&window),
        Err(CellOffsetError::CellOffsetDecodeError(
            DecodeError::IncorrectNumberOfBytes {
                num_bytes_expected: 2,
                num_bytes_recieved: 1,
                item_parsed: "cell_offsets".to_owned(),
            }
        ))
    );
}

#[test]
fn page_decodes_header_offsets_and_raw_bytes() {
    let mut window = vec![0u8; 512];
    window[0] = 13; // leaf table
    window[3] = 0;
    window[4] = 2; // two cells
    window[5] = 1;
    window[6] = 0; // cell content area at 256
    window[8] = 0;
    window[9] = 50; // first cell offset
    window[10] = 0;
    window[11] = 60; // second cell offset
    let page = DatabasePage::try_from(&window).unwrap();
    assert_eq!(page.page_header.page_type, PageType::LeafTable);
    assert_eq!(page.get_page_type(), PageType::LeafTable);
    assert_eq!(page.page_header.number_of_cells, 2);
    assert_eq!(page.cell_offsets.0, vec![50, 60]);
    assert_eq!(page.bytes, window);
}

#[test]
fn page_rejects_empty_window() {
    assert_eq!(
        DatabasePage::try_from(&[]),
        Err(DatabasePageError::PageHeaderError(
            PageHeaderError::EmptyHeader
        ))
    );
}

#[test]
fn page_rejects_unknown_type_byte() {
    let window = [9u8, 0, 0, 0, 0, 0, 0, 0];
    assert_eq!(
        DatabasePage::try_from(&window),
        Err(DatabasePageError::PageTypeError(PageTypeError::InvalidType(
            9
        )))
    );
}

#[test]
fn page_rejects_window_shorter_than_its_header() {
    let window = [2u8, 0, 0, 0, 0, 0, 0, 0, 0, 0];
    assert_eq!(
        DatabasePage::try_from(&window),
        Err(DatabasePageError::PageHeaderError(
            PageHeaderError::InvalidLength(PageType::InteriorIndex, 10)
        ))
    );
}

#[test]
fn page_rejects_truncated_cell_offset_array() {
    // A leaf page declaring three cells but leaving only four bytes after
    // the header.
    let mut window = vec![0u8; 12];
    window[0] = 13;
    window[4] = 3;
    assert_eq!(
        DatabasePage::try_from(&window),
        Err(DatabasePageError::CellOffsetError(
            CellOffsetError::CellOffsetDecodeError(DecodeError::IncorrectNumberOfBytes {
                num_bytes_expected: 6,
                num_bytes_recieved: 4,
                item_parsed: "cell_offsets".to_owned(),
            })
        ))
    );
}
