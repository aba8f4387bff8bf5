use granulator::input::InputStreamState;

#[test]
fn start_record_installs_fresh_buffer() {
    let mut s = InputStreamState::default();
    assert!(s.record_buffer.is_none());
    s.start_record();
    assert_eq!(s.record_buffer, Some(vec![]));
    s.process(&vec![1, 2]);
    s.start_record();
    assert_eq!(s.record_buffer, Some(vec![]));
}

#[test]
fn capture_appends_only_while_recording() {
    let mut s = InputStreamState::default();
    s.process(&vec![1, 2, 3]);
    assert!(s.record_buffer.is_none());
    s.start_record();
    s.process(&vec![1, 2, 3]);
    s.process(&vec![]);
    s.process(&vec![4]);
    assert_eq!(s.record_buffer, Some(vec![1, 2, 3, 4]));
    let taken = s.stop_record();
    assert_eq!(taken, Some(vec![1, 2, 3, 4]));
    assert!(s.record_buffer.is_none());
    assert_eq!(s.stop_record(), None);
}
