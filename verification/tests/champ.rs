use rvm::champ::{display_limit, DisplayLimits, MessageBuffers};
use rvm::shared::message::client_logging::{Level, MessageToLogProcess};

fn msg(level: Level, text: &str) -> MessageToLogProcess {
    MessageToLogProcess { level, formatted_event: text.to_string() }
}

#[test]
fn events_are_filed_by_level() {
    let mut b = MessageBuffers::new();
    b.route(msg(Level::Warn, "w1"));
    b.route(msg(Level::Trace, "t1"));
    b.route(msg(Level::Warn, "w2"));
    assert_eq!(b.buffers[3], vec!["w1".to_string(), "w2".to_string()]);
    assert_eq!(b.buffers[0], vec!["t1".to_string()]);
    assert!(b.buffers[1].is_empty() && b.buffers[2].is_empty() && b.buffers[4].is_empty());
    assert_eq!(Level::Error.index(), 4);
}

#[test]
fn panes_show_the_newest_events() {
    let mut b = MessageBuffers::new();
    for i in 0..5 {
        b.route(msg(Level::Info, &format!("e{}", i)));
    }
    assert_eq!(b.visible(2, 2), vec!["e3".to_string(), "e4".to_string()]);
    assert_eq!(b.visible(2, 9).len(), 5);
    assert!(b.visible(2, 0).is_empty());
    assert!(b.visible(4, 3).is_empty());
}

#[test]
fn display_limit_of_pane_height() {
    assert_eq!(display_limit(0), 0);
    assert_eq!(display_limit(2), 0);
    assert_eq!(display_limit(3), 1);
    assert_eq!(display_limit(20), 18);
    assert_eq!(display_limit(255), 253);
    // the height is narrowed to a byte first
    assert_eq!(display_limit(258), 0);
    assert_eq!(display_limit(259), 1);
}

#[test]
fn limits_follow_the_last_layout() {
    let mut d = DisplayLimits::new();
    assert_eq!(d.limits, [0; 5]);
    d.update(&vec![10, 10, 10, 10, 12]);
    assert_eq!(d.limits, [8, 8, 8, 8, 10]);
    d.update(&vec![4, 5]);
    assert_eq!(d.limits, [2, 3, 8, 8, 10]);
}
