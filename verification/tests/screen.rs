use rvm::client::screen::DrawState;

#[test]
fn messages_are_shown_oldest_first() {
    let mut s = DrawState::new();
    s.queue_message("first".to_string());
    s.queue_message("second".to_string());
    s.show_oldest();
    assert_eq!(s.shown, "first");
    s.queue_message("third".to_string());
    s.show_oldest();
    assert_eq!(s.shown, "second");
    s.show_oldest();
    assert_eq!(s.shown, "third");
}

#[test]
fn empty_queue_keeps_bottom_line() {
    let mut s = DrawState::new();
    s.show_oldest();
    assert_eq!(s.shown, "");
    s.queue_message("ping: 3".to_string());
    s.show_oldest();
    s.show_oldest();
    assert_eq!(s.shown, "ping: 3");
    assert!(s.queue.is_empty());
}

#[test]
fn frame_rate_is_due_every_256_frames() {
    let mut s = DrawState::new();
    let mut due_at = Vec::new();
    for i in 1..=600u32 {
        if s.next_frame() {
            due_at.push(i);
        }
    }
    assert_eq!(due_at, vec![256, 512]);
    assert_eq!(s.frame_count, (600 % 256) as u8);
}
