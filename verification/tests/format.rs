use rvm::shared::message::client_logging::Level as ViewerLevel;
use rvm::client::log::format::{
    format_full_ctx, format_timestamp, CtxSpan, EventParts, FmtThreadName, FormattedFields,
    HolySpirit, WidthStep,
};
use rvm::client::log::protocol::{Level, LevelInner, MessageToLogProcess};

fn span(name: &str, fields: &str) -> CtxSpan {
    CtxSpan { name: name.to_string(), fields: fields.to_string() }
}

#[test]
fn context_without_spans_is_empty() {
    assert_eq!(format_full_ctx(&vec![]), "");
}

#[test]
fn context_paints_names_and_fields_bold() {
    let s = format_full_ctx(&vec![span("outer", "a=1"), span("inner", "")]);
    assert_eq!(
        s,
        "\x1b[1mouter\x1b[0m\x1b[1m{\x1b[0ma=1\x1b[1m}\x1b[0m:\x1b[1minner\x1b[0m: "
    );
}

#[test]
fn timestamp_is_dimmed_and_followed_by_space() {
    assert_eq!(format_timestamp("12:00"), "\x1b[2m12:00\x1b[0m ");
}

#[test]
fn thread_name_width_steps() {
    let t = FmtThreadName::new("main");
    assert_eq!(t.width_step(2), WidthStep::Raise { expected: 2, new: 4 });
    assert_eq!(t.width_step(4), WidthStep::Pad(4));
    assert_eq!(t.width_step(9), WidthStep::Pad(9));
    assert_eq!(t.padded(9), "     main");
    assert_eq!(t.padded(2), "main");
    // width counts characters, the record counts bytes
    let u = FmtThreadName::new("é");
    assert_eq!(u.width_step(1), WidthStep::Raise { expected: 1, new: 2 });
    assert_eq!(u.padded(2), " é");
}

#[test]
fn event_line_layout() {
    let parts = EventParts {
        level: Level::new(LevelInner::Warn),
        time: "T".to_string(),
        thread: Some(("main".to_string(), 6)),
        spans: vec![span("s", "x=1")],
        target: "game".to_string(),
        fields: "hello".to_string(),
    };
    let m: MessageToLogProcess = HolySpirit.format_event(&parts);
    assert_eq!(m.level, Level::new(LevelInner::Warn));
    assert_eq!(
        m.formatted_event,
        "\x1b[2mT\x1b[0m   main \x1b[1ms\x1b[0m\x1b[1m{\x1b[0mx=1\x1b[1m}\x1b[0m: game: hello\n"
    );
}

#[test]
fn event_line_without_thread_or_spans() {
    let parts = EventParts {
        level: Level::new(LevelInner::Trace),
        time: "T".to_string(),
        thread: None,
        spans: vec![],
        target: "t".to_string(),
        fields: "".to_string(),
    };
    let m = HolySpirit.format_event(&parts);
    assert_eq!(m.formatted_event, "\x1b[2mT\x1b[0m t: \n");
}

#[test]
fn formatted_fields() {
    let f: FormattedFields<()> = FormattedFields::new("a=1".to_string());
    assert_eq!(f.fields, "a=1");
    assert_eq!(f.to_string(), "a=1");
    assert_eq!(f.as_str(), "a=1");
    assert_eq!(*f, "a=1");
    assert!(!f.is_empty());
    let g: FormattedFields<()> = FormattedFields::new(String::new());
    assert!(g.is_empty());
}

#[test]
fn level_labels_and_indices() {
    let all = [LevelInner::Trace, LevelInner::Debug, LevelInner::Info, LevelInner::Warn, LevelInner::Error];
    let labels: Vec<&str> = all.iter().map(|l| Level::new(*l).label()).collect();
    assert_eq!(labels, vec!["TRACE", "DEBUG", " INFO", " WARN", "ERROR"]);
    let idx: Vec<usize> = all.iter().map(|l| Level::new(*l).index()).collect();
    assert_eq!(idx, vec![0, 1, 2, 3, 4]);
    let m = MessageToLogProcess::new(Level::new(LevelInner::Info), "x".to_string());
    assert_eq!(m.formatted_event, "x");
}

#[test]
fn level_labels_line_up() {
    for l in [LevelInner::Trace, LevelInner::Debug, LevelInner::Info, LevelInner::Warn, LevelInner::Error] {
        assert_eq!(Level::new(l).label().chars().count(), 5);
    }
}

#[test]
fn levels_of_tracing_events() {
    assert_eq!(Level::from_tracing(&tracing_core::Level::TRACE), Level::new(LevelInner::Trace));
    assert_eq!(Level::from_tracing(&tracing_core::Level::DEBUG), Level::new(LevelInner::Debug));
    assert_eq!(Level::from_tracing(&tracing_core::Level::INFO), Level::new(LevelInner::Info));
    assert_eq!(Level::from_tracing(&tracing_core::Level::WARN), Level::new(LevelInner::Warn));
    assert_eq!(Level::from_tracing(&tracing_core::Level::ERROR), Level::new(LevelInner::Error));
    assert_eq!(ViewerLevel::from_tracing(&tracing_core::Level::WARN), ViewerLevel::Warn);
    assert_eq!(ViewerLevel::from_tracing(&tracing_core::Level::TRACE).index(), 0);
}
