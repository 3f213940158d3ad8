use violet::system::hypervisor::mm::to_paddr;
use violet::utils::error::{test_error, RuntimeError, UndefinedError};
use violet::utils::logging::{
    default_timestamp_fn, test_get_record_out_of_bounds, test_log_record_and_retrieve, test_ring_buffer_overwrite,
    test_set_timestamp_fn, LogRecord, LogRingBuffer, LOG_BUFFER_SIZE,
};

#[test]
fn logging_self_checks() {
    assert_eq!(test_log_record_and_retrieve(), Ok(()));
    assert_eq!(test_ring_buffer_overwrite(), Ok(()));
    assert_eq!(test_set_timestamp_fn(), Ok(()));
    assert_eq!(test_get_record_out_of_bounds(), Ok(()));
}

#[test]
fn log_keeps_order_and_drops_oldest() {
    let mut log = LogRingBuffer::new();
    assert_eq!(log.len(), 0);
    for i in 0..(LOG_BUFFER_SIZE as u64 + 10) {
        log.log_record(i, i as usize * 2, 1);
    }
    assert_eq!(log.len(), LOG_BUFFER_SIZE - 1);
    // The oldest kept is the eleventh one logged plus one: 138 - 127 = 11.
    assert_eq!(log.get_record(0), Some(LogRecord { timestamp: 22, core_id: 1, ident: 11 }));
    assert_eq!(
        log.get_record(LOG_BUFFER_SIZE - 2),
        Some(LogRecord { timestamp: 2 * (LOG_BUFFER_SIZE + 9), core_id: 1, ident: LOG_BUFFER_SIZE as u64 + 9 })
    );
    assert_eq!(log.get_record(LOG_BUFFER_SIZE - 1), None);
    assert_eq!(log.get_record(usize::MAX), None);
}

#[test]
fn log_default_timestamp() {
    assert_eq!(default_timestamp_fn(), 0);
}

#[test]
fn error_messages() {
    assert_eq!(test_error(), Ok(()));
    let e = UndefinedError::new("Test error");
    assert_eq!(e.message(), "UndefinedError: Test error");
    assert_eq!(RuntimeError::Undef(UndefinedError::new("x")).message(), "UndefinedError: x");
    assert_eq!(RuntimeError::NotImpl.message(), "Not implemented");
}

#[test]
fn mm_to_paddr() {
    assert_eq!(to_paddr(None, 0x1234), 0);
    assert_eq!(to_paddr(Some(0x80200), 0x1234), 0x8020_0234);
    assert_eq!(to_paddr(Some(0), 0xfff), 0xfff);
    assert_eq!(to_paddr(Some(1), 0x5000), 0x1000);
    // Page numbers of 52 bits or more lose their high bits in the shift.
    assert_eq!(to_paddr(Some(0x10_0000_0000_0001), 0x5007), 0x1007);
}
