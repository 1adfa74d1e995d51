use support_core::error::Error;
use support_core::tickets::TicketSequencer;

#[test]
fn fresh_guild_allocates_one_then_two() {
    let mut seq = TicketSequencer::new();
    assert_eq!(seq.allocate_next_ticket_id(42), Ok(1));
    assert_eq!(seq.allocate_next_ticket_id(42), Ok(2));
}

#[test]
fn guilds_count_independently() {
    let mut seq = TicketSequencer::new();
    assert_eq!(seq.allocate_next_ticket_id(1), Ok(1));
    assert_eq!(seq.allocate_next_ticket_id(2), Ok(1));
    assert_eq!(seq.allocate_next_ticket_id(1), Ok(2));
    assert_eq!(seq.allocate_next_ticket_id(2), Ok(2));
}

#[test]
fn allocation_resumes_from_stored_counter() {
    let mut seq = TicketSequencer::new();
    seq.update_support_thread_id(7, 41).unwrap();
    assert_eq!(seq.allocate_next_ticket_id(7), Ok(42));
    assert_eq!(seq.get_support_thead_id(7), Ok(42));
}

#[test]
fn missing_counter_row_reads_as_not_found() {
    let seq = TicketSequencer::new();
    assert_eq!(seq.get_support_thead_id(7), Err(Error::NotFound));
}

#[test]
fn oversized_guild_id_is_a_conversion_error() {
    let mut seq = TicketSequencer::new();
    assert_eq!(seq.allocate_next_ticket_id(u64::MAX), Err(Error::ConversionError));
    assert_eq!(seq.get_support_thead_id(u64::MAX), Err(Error::ConversionError));
    assert_eq!(seq.update_support_thread_id(u64::MAX, 1), Err(Error::ConversionError));
}

#[test]
fn exhausted_counter_is_a_conversion_error() {
    let mut seq = TicketSequencer::new();
    seq.update_support_thread_id(7, i32::MAX).unwrap();
    assert_eq!(seq.allocate_next_ticket_id(7), Err(Error::ConversionError));
    // the stored counter is untouched by the failed allocation
    assert_eq!(seq.get_support_thead_id(7), Ok(i32::MAX));
}

#[test]
fn allocations_strictly_increase() {
    let mut seq = TicketSequencer::new();
    let mut last = 0;
    for _ in 0..100 {
        let id = seq.allocate_next_ticket_id(9).unwrap();
        assert!(id > last);
        last = id;
    }
}
