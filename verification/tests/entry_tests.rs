use bedrock_vmx::logging::entry::{LogEntry, LOG_BUFFER_PAGES, LOG_BUFFER_SIZE, LOG_ENTRY_SIZE, MAX_LOG_ENTRIES};

#[test]
fn test_log_entry_size() {
    assert_eq!(core::mem::size_of::<LogEntry>(), 512);
}

#[test]
fn test_max_entries() {
    assert_eq!(MAX_LOG_ENTRIES, 2048);
}

#[test]
fn test_buffer_pages() {
    assert_eq!(LOG_BUFFER_PAGES, 256);
}

#[test]
fn log_buffer_layout_is_consistent() {
    assert_eq!(LOG_ENTRY_SIZE * MAX_LOG_ENTRIES, LOG_BUFFER_SIZE);
    assert_eq!(LOG_BUFFER_PAGES * 4096, LOG_BUFFER_SIZE);
}
