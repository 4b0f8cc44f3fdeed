use faff_plugin_matrix_rust::backoff::{Backoff, SyncStep};

#[test]
fn waits_double_up_to_a_minute() {
    let mut backoff = Backoff::new();
    for secs in [2, 4, 8, 16, 32, 60, 60, 60] {
        assert_eq!(backoff.after_sync(false), SyncStep::RetryAfter(secs));
    }
    assert_eq!(backoff.after_sync(true), SyncStep::Finish);
}
