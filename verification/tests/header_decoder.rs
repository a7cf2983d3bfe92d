use transfer_protocol::decoder::HeaderDecoder;
use transfer_protocol::entry::EntryKind;
use transfer_protocol::entry::TransferEntry;
use transfer_protocol::wire::encode_header;
use transfer_protocol::TYPE_DIR;
use transfer_protocol::TYPE_FILE;

/// Feeds one encoded header to the decoder, field by field as it asks, and
/// returns the entry it emits.
fn run_header(decoder: &mut HeaderDecoder, header: &[u8]) -> TransferEntry {
    let mut offset = 0;
    loop {
        let n = decoder.needed();
        let chunk = &header[offset..offset + n];
        offset += n;
        if let Some(entry) = decoder.feed(chunk) {
            assert_eq!(offset, header.len(), "header fully consumed");
            return entry;
        }
    }
}

#[test]
fn decoder_asks_for_the_fields_in_order() {
    let mut d = HeaderDecoder::new();
    assert!(d.at_frame_boundary());
    assert_eq!(d.needed(), 1);
    assert!(d.feed(&[TYPE_FILE]).is_none());
    assert!(!d.at_frame_boundary());
    assert_eq!(d.needed(), 2);
    assert!(d.feed(&[0, 3]).is_none());
    assert_eq!(d.needed(), 3);
    assert!(d.feed(b"a/b").is_none());
    assert_eq!(d.needed(), 8);
    let entry = d.feed(&[0, 0, 0, 0, 0, 0, 0, 5]).unwrap();
    assert_eq!(entry.kind, EntryKind::File);
    assert_eq!(entry.path, b"a/b".to_vec());
    assert_eq!(entry.size, 5);
    // The decoder stands at the next frame boundary again.
    assert!(d.at_frame_boundary());
    assert_eq!(d.needed(), 1);
}

#[test]
fn directory_header_ends_at_the_path() {
    let mut d = HeaderDecoder::new();
    assert!(d.feed(&[TYPE_DIR]).is_none());
    assert!(d.feed(&[0, 4]).is_none());
    let entry = d.feed(b"docs").unwrap();
    assert_eq!(entry.kind, EntryKind::Directory);
    assert_eq!(entry.path, b"docs".to_vec());
    assert_eq!(entry.size, 0);
    assert!(d.at_frame_boundary());
}

#[test]
fn decoder_round_trips_encoded_headers() {
    let file = TransferEntry::new_file(b"docs/a.txt".to_vec(), 300).unwrap();
    let dir = TransferEntry::new_directory(b"docs/sub".to_vec()).unwrap();
    let mut d = HeaderDecoder::new();
    // One decoder serves a whole connection, frame after frame.
    for original in [&file, &dir] {
        let header = encode_header(original).unwrap();
        let decoded = run_header(&mut d, &header);
        assert_eq!(decoded.kind, original.kind);
        assert_eq!(decoded.path, original.path);
        assert_eq!(decoded.size, original.size);
    }
}

#[test]
fn empty_path_needs_no_path_bytes() {
    let mut d = HeaderDecoder::new();
    assert!(d.feed(&[TYPE_DIR]).is_none());
    assert!(d.feed(&[0, 0]).is_none());
    assert_eq!(d.needed(), 0);
    let entry = d.feed(&[]).unwrap();
    assert_eq!(entry.path, Vec::<u8>::new());
}
