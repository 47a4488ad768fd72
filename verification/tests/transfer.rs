use netseeder::copier::copy_stream;
use netseeder::errors::TransferError;
use netseeder::paths::parent_of;
use netseeder::receiver::receive_all;
use netseeder::receiver::Receiver;
use netseeder::sender::send_all;
use netseeder::sender::Sender;

#[test]
fn copy_stream_appends_whole_source() {
    let src: Vec<u8> = vec![1, 2, 3];
    let mut dst: Vec<u8> = vec![9];
    let n = copy_stream(&src, &mut dst);
    assert_eq!(n, 3);
    assert_eq!(dst, vec![9, 1, 2, 3]);
}

#[test]
fn copy_stream_empty_source_moves_nothing() {
    let src: Vec<u8> = vec![];
    let mut dst: Vec<u8> = vec![4, 5];
    let n = copy_stream(&src, &mut dst);
    assert_eq!(n, 0);
    assert_eq!(dst, vec![4, 5]);
}

#[test]
fn parent_of_nested_path() {
    let path = b"out/sub/a.bin".to_vec();
    assert_eq!(parent_of(&path), Some(b"out/sub".to_vec()));
}

#[test]
fn parent_of_single_directory() {
    let path = b"out/a.bin".to_vec();
    assert_eq!(parent_of(&path), Some(b"out".to_vec()));
}

#[test]
fn parent_of_bare_filename_is_none() {
    let path = b"a.bin".to_vec();
    assert_eq!(parent_of(&path), None);
}

#[test]
fn receiver_empty_target_list_is_usage_error() {
    let r = Receiver::new(vec![], false);
    assert!(matches!(r, Err(TransferError::Usage)));
}

#[test]
fn sender_empty_file_list_is_usage_error() {
    let r = Sender::new(vec![]);
    assert!(matches!(r, Err(TransferError::Usage)));
}

#[test]
fn receive_run_empty_list_is_usage_error() {
    let out = receive_all(vec![], &vec![], vec![], true);
    assert_eq!(out.error, Some(TransferError::Usage));
    assert_eq!(out.transferred, 0);
    assert!(out.finals.is_empty());
}

#[test]
fn send_run_empty_list_is_usage_error() {
    let out = send_all(vec![], &vec![]);
    assert_eq!(out.error, Some(TransferError::Usage));
    assert!(out.sent.is_empty());
}

#[test]
fn receiver_cursor_walks_targets_in_order() {
    let targets = vec![b"x.bin".to_vec(), b"y.bin".to_vec()];
    let mut rx = Receiver::new(targets, false).unwrap();
    assert!(!rx.done());
    assert_eq!(rx.current(), &b"x.bin".to_vec());
    rx.advance();
    assert!(!rx.done());
    assert_eq!(rx.current(), &b"y.bin".to_vec());
    rx.advance();
    assert!(rx.done());
}

#[test]
fn conflict_refused_without_overwrite() {
    let rx = Receiver::new(vec![b"a".to_vec()], false).unwrap();
    assert_eq!(rx.check_conflict(true), Err(TransferError::Conflict));
    assert_eq!(rx.check_conflict(false), Ok(()));
}

#[test]
fn conflict_allowed_with_overwrite() {
    let rx = Receiver::new(vec![b"a".to_vec()], true).unwrap();
    assert_eq!(rx.check_conflict(true), Ok(()));
    assert_eq!(rx.check_conflict(false), Ok(()));
}

#[test]
fn receive_run_assigns_payloads_in_arrival_order() {
    let targets = vec![b"a".to_vec(), b"b".to_vec(), b"c".to_vec()];
    let payloads = vec![vec![1, 2], vec![], vec![255, 0, 7]];
    let existing = vec![None, None, None];
    let out = receive_all(targets, &payloads, existing, false);
    assert_eq!(out.error, None);
    assert_eq!(out.transferred, 3);
    assert_eq!(
        out.finals,
        vec![Some(vec![1, 2]), Some(vec![]), Some(vec![255, 0, 7])]
    );
}

#[test]
fn receive_run_overwrite_truncates_not_appends() {
    let targets = vec![b"a".to_vec()];
    let payloads = vec![vec![1, 2]];
    let existing = vec![Some(vec![8, 8, 8, 8, 8, 8])];
    let out = receive_all(targets, &payloads, existing, true);
    assert_eq!(out.error, None);
    assert_eq!(out.transferred, 1);
    assert_eq!(out.finals, vec![Some(vec![1, 2])]);
}

#[test]
fn receive_run_conflict_stops_before_consuming() {
    let targets = vec![b"out/a.bin".to_vec()];
    let payloads = vec![vec![1, 2, 3]];
    let existing = vec![Some(vec![7, 7])];
    let out = receive_all(targets, &payloads, existing, false);
    assert_eq!(out.error, Some(TransferError::Conflict));
    assert_eq!(out.transferred, 0);
    assert_eq!(out.finals, vec![Some(vec![7, 7])]);
}

#[test]
fn receive_run_conflict_mid_run_keeps_earlier_files() {
    let targets = vec![b"a".to_vec(), b"b".to_vec(), b"c".to_vec()];
    let payloads = vec![vec![1], vec![2], vec![3]];
    let existing = vec![None, Some(vec![9]), None];
    let out = receive_all(targets, &payloads, existing, false);
    assert_eq!(out.error, Some(TransferError::Conflict));
    assert_eq!(out.transferred, 1);
    assert_eq!(out.finals, vec![Some(vec![1]), Some(vec![9]), None]);
}

#[test]
fn send_run_streams_files_in_order() {
    let paths = vec![b"a".to_vec(), b"b".to_vec()];
    let contents = vec![Some(vec![10, 20]), Some(vec![])];
    let out = send_all(paths, &contents);
    assert_eq!(out.error, None);
    assert_eq!(out.sent, vec![vec![10, 20], vec![]]);
}

#[test]
fn send_run_stops_at_unopenable_file() {
    let paths = vec![b"a".to_vec(), b"b".to_vec(), b"c".to_vec()];
    let contents = vec![Some(vec![1]), None, Some(vec![3])];
    let out = send_all(paths, &contents);
    assert_eq!(out.error, Some(TransferError::FileOpen));
    assert_eq!(out.sent, vec![vec![1]]);
}

#[test]
fn round_trip_reproduces_files_byte_for_byte() {
    // A five-byte file and an empty file, sent in order, land in the
    // receiver's two targets unchanged.
    let source_paths = vec![b"in/a.bin".to_vec(), b"in/b.bin".to_vec()];
    let contents = vec![Some(vec![1, 2, 3, 4, 5]), Some(vec![])];
    let sent = send_all(source_paths, &contents);
    assert_eq!(sent.error, None);

    let targets = vec![b"out/a.bin".to_vec(), b"out/b.bin".to_vec()];
    let existing = vec![None, None];
    let out = receive_all(targets, &sent.sent, existing, true);
    assert_eq!(out.error, None);
    assert_eq!(out.transferred, 2);
    assert_eq!(out.finals, vec![Some(vec![1, 2, 3, 4, 5]), Some(vec![])]);
}

#[test]
fn round_trip_arbitrary_binary_contents() {
    let all_bytes: Vec<u8> = (0..=255).collect();
    let contents = vec![Some(all_bytes.clone()), Some(vec![0, 0, 0])];
    let sent = send_all(vec![b"x".to_vec(), b"y".to_vec()], &contents);
    assert_eq!(sent.error, None);
    let out = receive_all(
        vec![b"p".to_vec(), b"q".to_vec()],
        &sent.sent,
        vec![None, None],
        false,
    );
    assert_eq!(out.error, None);
    assert_eq!(out.finals, vec![Some(all_bytes), Some(vec![0, 0, 0])]);
}
