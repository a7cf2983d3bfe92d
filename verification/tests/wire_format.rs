use transfer_protocol::codec::tag_is_file;
use transfer_protocol::codec::u16_from_be_bytes;
use transfer_protocol::codec::u16_to_be_bytes;
use transfer_protocol::codec::u64_from_be_bytes;
use transfer_protocol::codec::u64_to_be_bytes;
use transfer_protocol::entry::EntryKind;
use transfer_protocol::entry::Frame;
use transfer_protocol::entry::TransferEntry;
use transfer_protocol::entry::MAX_PATH_BYTES;
use transfer_protocol::error::TransferError;
use transfer_protocol::session::count_file_frames;
use transfer_protocol::wire::decode_frames;
use transfer_protocol::wire::encode_frame;
use transfer_protocol::wire::encode_frames;
use transfer_protocol::wire::encode_header;
use transfer_protocol::TYPE_DIR;
use transfer_protocol::TYPE_FILE;

fn file_frame(path: &str, payload: &[u8]) -> Frame {
    Frame::new_file(path.as_bytes().to_vec(), payload.to_vec()).unwrap()
}

fn dir_frame(path: &str) -> Frame {
    Frame::new_directory(path.as_bytes().to_vec()).unwrap()
}

#[test]
fn u16_round_trips() {
    for n in [0u16, 1, 255, 256, 0x1234, u16::MAX] {
        let (hi, lo) = u16_to_be_bytes(n);
        assert_eq!(u16_from_be_bytes(hi, lo), n);
    }
    assert_eq!(u16_to_be_bytes(0x0102), (1, 2));
    assert_eq!(u16_to_be_bytes(u16::MAX), (0xff, 0xff));
}

#[test]
fn u64_round_trips() {
    for n in [0u64, 1, 255, 256, 0xdead_beef, u64::MAX] {
        let bytes = u64_to_be_bytes(n);
        assert_eq!(bytes.len(), 8);
        assert_eq!(u64_from_be_bytes(&bytes), n);
    }
    assert_eq!(u64_to_be_bytes(3), vec![0, 0, 0, 0, 0, 0, 0, 3]);
    assert_eq!(
        u64_to_be_bytes(0x0102030405060708),
        vec![1, 2, 3, 4, 5, 6, 7, 8]
    );
}

#[test]
fn tag_semantics() {
    assert!(tag_is_file(TYPE_FILE));
    assert!(!tag_is_file(TYPE_DIR));
    // Every tag other than the file tag is read as a directory.
    assert!(!tag_is_file(7));
}

#[test]
fn file_header_layout() {
    let entry = TransferEntry::new_file(b"ab".to_vec(), 3).unwrap();
    let bytes = encode_header(&entry).unwrap();
    assert_eq!(
        bytes,
        vec![TYPE_FILE, 0, 2, b'a', b'b', 0, 0, 0, 0, 0, 0, 0, 3]
    );
}

#[test]
fn directory_header_layout() {
    let entry = TransferEntry::new_directory(b"docs".to_vec()).unwrap();
    let bytes = encode_header(&entry).unwrap();
    assert_eq!(bytes, vec![TYPE_DIR, 0, 4, b'd', b'o', b'c', b's']);
}

#[test]
fn round_trip_directory_tree() {
    let frames = vec![
        dir_frame("docs"),
        file_frame("docs/a.txt", b"one"),
        dir_frame("docs/sub"),
        file_frame("docs/sub/b.txt", b"three"),
    ];
    let stream = encode_frames(&frames).unwrap();
    let decoded = decode_frames(&stream).unwrap();
    assert_eq!(decoded.len(), frames.len());
    for (got, want) in decoded.iter().zip(frames.iter()) {
        assert_eq!(got.entry.kind, want.entry.kind);
        assert_eq!(got.entry.path, want.entry.path);
        assert_eq!(got.entry.size, want.entry.size);
        assert_eq!(got.payload, want.payload);
    }
}

#[test]
fn round_trip_empty_file_and_empty_directory() {
    let frames = vec![dir_frame("empty"), file_frame("empty/zero.bin", b"")];
    let stream = encode_frames(&frames).unwrap();
    let decoded = decode_frames(&stream).unwrap();
    assert_eq!(decoded.len(), 2);
    assert_eq!(decoded[0].entry.kind, EntryKind::Directory);
    assert_eq!(decoded[1].entry.size, 0);
    assert_eq!(decoded[1].payload, Vec::<u8>::new());
}

#[test]
fn empty_stream_is_a_completed_transfer() {
    // Closing the socket after zero frames is the legitimate end of stream:
    // the receiver ends without error and nothing was materialized.
    let decoded = decode_frames(&Vec::new()).unwrap();
    assert_eq!(decoded.len(), 0);
}

#[test]
fn longest_path_encodes_and_decodes() {
    let path = vec![b'p'; MAX_PATH_BYTES];
    let frame = Frame::new_file(path.clone(), b"xy".to_vec()).unwrap();
    let stream = encode_frame(&frame).unwrap();
    let decoded = decode_frames(&stream).unwrap();
    assert_eq!(decoded.len(), 1);
    assert_eq!(decoded[0].entry.path, path);
    assert_eq!(decoded[0].payload, b"xy".to_vec());
}

#[test]
fn over_long_path_is_rejected_before_any_bytes() {
    let path = vec![b'p'; MAX_PATH_BYTES + 1];
    assert_eq!(
        TransferEntry::new_file(path.clone(), 1).unwrap_err(),
        TransferError::PathTooLong
    );
    assert_eq!(
        TransferEntry::new_directory(path.clone()).unwrap_err(),
        TransferError::PathTooLong
    );
    let entry = TransferEntry {
        kind: EntryKind::File,
        path,
        size: 1,
    };
    // The encoder yields no bytes at all for such an entry, only the error.
    assert_eq!(encode_header(&entry).unwrap_err(), TransferError::PathTooLong);
}

#[test]
fn one_bad_path_fails_the_whole_encoding() {
    let frames = vec![
        dir_frame("fine"),
        Frame {
            entry: TransferEntry {
                kind: EntryKind::Directory,
                path: vec![b'q'; MAX_PATH_BYTES + 1],
                size: 0,
            },
            payload: Vec::new(),
        },
    ];
    assert_eq!(
        encode_frames(&frames).unwrap_err(),
        TransferError::PathTooLong
    );
}

#[test]
fn truncated_streams_are_protocol_violations() {
    // A lone tag byte.
    assert_eq!(
        decode_frames(&vec![TYPE_FILE]).unwrap_err(),
        TransferError::ProtocolViolation
    );
    // A length field promising more path bytes than follow.
    assert_eq!(
        decode_frames(&vec![TYPE_DIR, 0, 5, b'h']).unwrap_err(),
        TransferError::ProtocolViolation
    );
    // A file frame cut off before its size field.
    assert_eq!(
        decode_frames(&vec![TYPE_FILE, 0, 1, b'f', 0, 0]).unwrap_err(),
        TransferError::ProtocolViolation
    );
    // A size field promising more payload than follows.
    let mut stream = vec![TYPE_FILE, 0, 1, b'f'];
    stream.extend_from_slice(&[0, 0, 0, 0, 0, 0, 0, 9]);
    stream.extend_from_slice(b"abc");
    assert_eq!(
        decode_frames(&stream).unwrap_err(),
        TransferError::ProtocolViolation
    );
}

#[test]
fn trailing_garbage_after_a_frame_is_a_violation() {
    let mut stream = encode_frame(&dir_frame("d")).unwrap();
    stream.push(TYPE_FILE);
    assert_eq!(
        decode_frames(&stream).unwrap_err(),
        TransferError::ProtocolViolation
    );
}

#[test]
fn unknown_tag_decodes_as_directory() {
    let decoded = decode_frames(&vec![9, 0, 1, b'x']).unwrap();
    assert_eq!(decoded.len(), 1);
    assert_eq!(decoded[0].entry.kind, EntryKind::Directory);
    assert_eq!(decoded[0].entry.size, 0);
}

#[test]
fn two_file_directory_scenario() {
    // A sender walks docs/{a.txt (3 bytes), sub/b.txt (5 bytes)}; the
    // receiver materializes the same relative paths under its destination
    // root and logs exactly two "received" lines, one per file frame.
    let frames = vec![
        dir_frame("docs"),
        file_frame("docs/a.txt", b"abc"),
        dir_frame("docs/sub"),
        file_frame("docs/sub/b.txt", b"12345"),
    ];
    let stream = encode_frames(&frames).unwrap();
    let decoded = decode_frames(&stream).unwrap();
    let files: Vec<_> = decoded
        .iter()
        .filter(|f| f.entry.kind == EntryKind::File)
        .collect();
    assert_eq!(count_file_frames(&decoded), 2);
    assert_eq!(files.len(), 2);
    assert_eq!(files[0].entry.path, b"docs/a.txt".to_vec());
    assert_eq!(files[0].payload.len(), 3);
    assert_eq!(files[1].entry.path, b"docs/sub/b.txt".to_vec());
    assert_eq!(files[1].payload.len(), 5);
}

#[test]
fn concurrent_connections_decode_independently() {
    // Two sender sessions feed one receiver concurrently; each connection is
    // its own byte stream with its own decoder state, so the transfers
    // cannot corrupt each other.
    let first = encode_frames(&vec![file_frame("a/x.bin", b"first")]).unwrap();
    let second = encode_frames(&vec![file_frame("b/y.bin", b"second")]).unwrap();
    let got_first = decode_frames(&first).unwrap();
    let got_second = decode_frames(&second).unwrap();
    assert_eq!(got_first[0].payload, b"first".to_vec());
    assert_eq!(got_second[0].payload, b"second".to_vec());
    // Decoding one stream again after the other gives the same result: a
    // decoder holds no state outside its own connection's bytes.
    let again = decode_frames(&first).unwrap();
    assert_eq!(again[0].entry.path, got_first[0].entry.path);
    assert_eq!(again[0].payload, got_first[0].payload);
}
