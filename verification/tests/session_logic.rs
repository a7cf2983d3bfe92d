use transfer_protocol::entry::Frame;
use transfer_protocol::error::ErrorCategory;
use transfer_protocol::error::TransferError;
use transfer_protocol::session::accept_step;
use transfer_protocol::session::count_file_frames;
use transfer_protocol::session::sum_file_sizes;
use transfer_protocol::session::AcceptAction;
use transfer_protocol::session::AcceptEvent;
use transfer_protocol::session::ScanEntry;
use transfer_protocol::session::CONNECT_TIMEOUT_MS;
use transfer_protocol::session::POLL_INTERVAL_MS;

#[test]
fn prescan_sums_only_files() {
    let entries = vec![
        ScanEntry { is_file: false, size: 4096 },
        ScanEntry { is_file: true, size: 3 },
        ScanEntry { is_file: false, size: 0 },
        ScanEntry { is_file: true, size: 5 },
    ];
    assert_eq!(sum_file_sizes(&entries), 8);
}

#[test]
fn prescan_of_nothing_is_zero() {
    assert_eq!(sum_file_sizes(&Vec::new()), 0);
}

#[test]
fn prescan_saturates() {
    let entries = vec![
        ScanEntry { is_file: true, size: u64::MAX },
        ScanEntry { is_file: true, size: u64::MAX },
    ];
    assert_eq!(sum_file_sizes(&entries), u64::MAX);
}

#[test]
fn accept_loop_decisions() {
    assert_eq!(
        accept_step(true, AcceptEvent::Connection),
        AcceptAction::Handle
    );
    assert_eq!(accept_step(true, AcceptEvent::WouldBlock), AcceptAction::Wait);
    assert_eq!(accept_step(true, AcceptEvent::Error), AcceptAction::Fail);
    // Once the stop flag is cleared the loop ends, whatever the poll said.
    assert_eq!(accept_step(false, AcceptEvent::Connection), AcceptAction::Stop);
    assert_eq!(accept_step(false, AcceptEvent::WouldBlock), AcceptAction::Stop);
    assert_eq!(accept_step(false, AcceptEvent::Error), AcceptAction::Stop);
}

#[test]
fn timing_constants() {
    assert_eq!(CONNECT_TIMEOUT_MS, 3000);
    assert_eq!(POLL_INTERVAL_MS, 100);
}

#[test]
fn file_frames_count_log_lines() {
    let frames = vec![
        Frame::new_directory(b"d".to_vec()).unwrap(),
        Frame::new_file(b"d/a".to_vec(), b"x".to_vec()).unwrap(),
        Frame::new_directory(b"d/e".to_vec()).unwrap(),
    ];
    assert_eq!(count_file_frames(&frames), 1);
    assert_eq!(count_file_frames(&Vec::new()), 0);
}

#[test]
fn error_categories_follow_the_taxonomy() {
    assert_eq!(TransferError::SourceMissing.category(), ErrorCategory::Path);
    assert_eq!(TransferError::PathTooLong.category(), ErrorCategory::Path);
    assert_eq!(TransferError::BindFailed.category(), ErrorCategory::Network);
    assert_eq!(
        TransferError::ConnectFailed.category(),
        ErrorCategory::Network
    );
    assert_eq!(
        TransferError::ProtocolViolation.category(),
        ErrorCategory::Protocol
    );
    assert_eq!(TransferError::Io.category(), ErrorCategory::Io);
}

#[test]
fn error_messages_name_their_cause() {
    assert!(TransferError::PathTooLong.message().contains("65535"));
    assert!(TransferError::ProtocolViolation
        .message()
        .contains("middle of a frame"));
    assert_ne!(
        TransferError::SourceMissing.message(),
        TransferError::Io.message()
    );
}
