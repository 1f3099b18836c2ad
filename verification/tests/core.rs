use txproc::err::TransactionProcessingError;
use txproc::server::{submit_settle, CapacityImpl};
use txproc::{
    copy_into_buffer, safe_divide_policy, status_from_i32, status_to_i32, ChainReference,
    FinalityStatus,
};

#[test]
fn it_works() {
    assert_eq!(4, 4);
}

#[test]
fn status_ordinal_round_trip() {
    assert_eq!(status_from_i32(0), FinalityStatus::Submitted);
    assert_eq!(status_to_i32(FinalityStatus::Submitted), 0);
    assert_eq!(status_from_i32(1), FinalityStatus::Confirmed);
    assert_eq!(status_to_i32(FinalityStatus::Confirmed), 1);
    assert_eq!(status_from_i32(2), FinalityStatus::Finalized);
    assert_eq!(status_to_i32(FinalityStatus::Finalized), 2);
    assert_eq!(status_from_i32(99), FinalityStatus::Submitted);
    assert_eq!(status_from_i32(-1), FinalityStatus::Submitted);
}

#[test]
fn safe_divide_zero_capacity_is_full() {
    assert_eq!(safe_divide_policy(5, 0), None);
    assert_eq!(safe_divide_policy(0, 0), None);
}

#[test]
fn safe_divide_huge_magnitudes_are_full() {
    assert_eq!(safe_divide_policy(100_000_000, 50), None);
    assert_eq!(safe_divide_policy(50, 100_000_000), None);
    assert_eq!(safe_divide_policy(u64::MAX, u64::MAX), None);
}

#[test]
fn safe_divide_ordinary_ratio() {
    assert_eq!(safe_divide_policy(10, 100), Some((10, 100)));
    let (n, d) = safe_divide_policy(10, 100).unwrap();
    let ratio = (n as f32) / (d as f32);
    assert!((ratio - 0.10).abs() < f32::EPSILON);
    assert_eq!(safe_divide_policy(99_999_999, 99_999_999), Some((99_999_999, 99_999_999)));
}

#[test]
fn chain_reference_wrong_sizes_rejected() {
    for len in [0usize, 1, 31, 33, 64] {
        let r = ChainReference::from_bytes(vec![7u8; len]);
        match r {
            Err(TransactionProcessingError::PayloadWrongSize(s)) => assert_eq!(s, len),
            _ => panic!("a {}-byte payload must be rejected with its length", len),
        }
    }
}

#[test]
fn chain_reference_exact_size_kept_verbatim() {
    let mut bytes = vec![0u8; 32];
    for (i, b) in bytes.iter_mut().enumerate() {
        *b = i as u8;
    }
    let reference = ChainReference::from_bytes(bytes.clone()).unwrap();
    assert_eq!(reference.as_bytes(), &bytes);
    assert_eq!(reference.into_bytes(), bytes);
}

#[test]
fn backend_reference_reaches_caller_unchanged() {
    // The dispatcher validates the backend's bytes, ships them verbatim, and
    // the client stub re-validates the received payload: the caller sees
    // exactly the backend's reference.
    let fixed: Vec<u8> = (0u8..32).map(|i| i.wrapping_mul(3)).collect();
    let server_side = ChainReference::from_bytes(fixed.clone()).unwrap();
    let wire = server_side.into_bytes();
    let client_side = ChainReference::from_bytes(wire).unwrap();
    assert_eq!(client_side.into_bytes(), fixed);
}

#[test]
fn mark_pair_restores_gauge() {
    let mut c = CapacityImpl::default();
    c.total_adjust(1_000);
    c.mark_sending(123);
    let before = c.used;
    let prev = c.mark_sending(77);
    assert_eq!(prev, before);
    let prev = c.mark_sent(77);
    assert_eq!(prev, before.wrapping_add(77));
    assert_eq!(c.used, before);
    assert_eq!(c.total, 1_000);
}

#[test]
fn mark_pair_restores_gauge_across_wrap() {
    let mut c = CapacityImpl::default();
    c.mark_sending(u64::MAX - 1);
    let before = c.used;
    c.mark_sending(10);
    assert_eq!(c.used, before.wrapping_add(10));
    c.mark_sent(10);
    assert_eq!(c.used, before);
}

#[test]
fn balanced_unit_marks_restore_gauge() {
    let n = 100u64;
    let mut c = CapacityImpl::default();
    c.mark_sending(42);
    let before = c.used;
    for _ in 0..n {
        c.mark_sending(1);
    }
    assert_eq!(c.used, before + n);
    for _ in 0..n {
        c.mark_sent(1);
    }
    assert_eq!(c.used, before);
}

#[test]
fn utilization_tick_follows_policy() {
    let mut c = CapacityImpl::default();
    assert_eq!(c.utilization_tick(), None);
    c.total_adjust(100);
    c.mark_sending(25);
    assert_eq!(c.utilization_tick(), Some((25, 100)));
    c.total_adjust(200_000_000);
    assert_eq!(c.utilization_tick(), None);
}

#[test]
fn submission_window_utilization_and_release() {
    let mut c = CapacityImpl::default();
    c.total_adjust(100);
    let before = c.used;
    let payload = vec![9u8; 10];
    c.mark_sending(payload.len() as u64);

    // A reporter sampling during the submission window sees the true ratio.
    let (n, d) = safe_divide_policy(c.used, c.total).unwrap();
    let ratio = (n as f32) / (d as f32);
    assert!((ratio - 0.10).abs() < 1e-6);

    let r = submit_settle(&mut c, payload.len() as u64, Ok((42, FinalityStatus::Confirmed)));
    assert_eq!(r.unwrap(), (42, 1));
    assert_eq!(c.used, before);
}

#[test]
fn failed_submission_still_releases_gauge() {
    let mut c = CapacityImpl::default();
    c.total_adjust(100);
    let before = c.used;
    c.mark_sending(10);
    let outcome: Result<(u64, FinalityStatus), TransactionProcessingError> =
        Err(TransactionProcessingError::NetworkError);
    let r = submit_settle(&mut c, 10, outcome);
    assert!(matches!(r, Err(TransactionProcessingError::NetworkError)));
    assert_eq!(c.used, before);
}

#[test]
fn copy_into_buffer_copies_exactly() {
    let payload = vec![1u8, 2, 3, 4, 5];
    let mut buffer = vec![0u8; 5];
    copy_into_buffer(&payload, &mut buffer);
    assert_eq!(buffer, payload);
}

#[test]
fn error_kind_texts() {
    assert_eq!(
        TransactionProcessingError::NetworkError.kind_text(),
        "network error occurred"
    );
    assert_eq!(
        TransactionProcessingError::InsufficientBuffer.kind_text(),
        "requested buffer is too large"
    );
    assert_eq!(TransactionProcessingError::OutOfRange.kind_text(), "index is out of range");
    assert_eq!(
        TransactionProcessingError::Unknown(String::from("boom")).kind_text(),
        "unknown: "
    );
    assert_eq!(
        TransactionProcessingError::GenericError(String::from("cause")).kind_text(),
        "generic: "
    );
    assert_eq!(
        TransactionProcessingError::PayloadWrongSize(31).kind_text(),
        "payload has the wrong size: "
    );
}

#[test]
fn every_error_kind_flattens_to_one_wire_class() {
    let kinds = vec![
        TransactionProcessingError::NetworkError,
        TransactionProcessingError::InsufficientBuffer,
        TransactionProcessingError::OutOfRange,
        TransactionProcessingError::Unknown(String::from("x")),
        TransactionProcessingError::GenericError(String::from("y")),
        TransactionProcessingError::PayloadWrongSize(31),
    ];
    for kind in kinds {
        assert_eq!(kind.wire_status_code(), 13);
    }
}

#[test]
fn transport_failure_becomes_unknown() {
    let e = txproc::client::transport_failure(String::from("connection reset"));
    match e {
        TransactionProcessingError::Unknown(msg) => assert_eq!(msg, "connection reset"),
        _ => panic!("a transport failure must surface as the Unknown kind"),
    }
}
