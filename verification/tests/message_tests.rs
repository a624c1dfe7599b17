use game_relay::message::{dispatch_all, handle_game_log, LogEvent, LogLine, Severity, Sink};

fn event(name: Option<&str>, kind: Option<&str>, severity: Severity, message: &str) -> LogEvent {
    LogEvent::new(
        name.map(|s| s.to_string()),
        kind.map(|s| s.to_string()),
        severity,
        message.to_string(),
    )
}

#[test]
fn render_shows_sender_severity_and_message() {
    let e = event(Some("Game"), Some("Mod"), Severity::Warning, "Low memory");
    assert_eq!(e.render(), "[Game::Mod][Warning] Low memory");
}

#[test]
fn render_falls_back_to_unknown_for_both_fields() {
    let e = event(None, None, Severity::Info, "Loaded");
    assert_eq!(e.render(), "[Unknown::Unknown][Info] Loaded");
}

#[test]
fn render_falls_back_for_each_field_on_its_own() {
    let only_name = event(Some("Game"), None, Severity::Message, "hi");
    assert_eq!(only_name.render(), "[Game::Unknown][Message] hi");
    let only_type = event(None, Some("ModHelper"), Severity::Message, "hi");
    assert_eq!(only_type.render(), "[Unknown::ModHelper][Message] hi");
}

#[test]
fn render_keeps_an_empty_message() {
    let e = event(Some("A"), Some("B"), Severity::Quit, "");
    assert_eq!(e.render(), "[A::B][Quit] ");
}

#[test]
fn render_keeps_text_outside_ascii() {
    let e = event(Some("Mód"), Some("Týpe"), Severity::Success, "très bien ✓");
    assert_eq!(e.render(), "[Mód::Týpe][Success] très bien ✓");
}

#[test]
fn tag_is_the_variant_name() {
    assert_eq!(Severity::Message.tag(), "Message");
    assert_eq!(Severity::Info.tag(), "Info");
    assert_eq!(Severity::Success.tag(), "Success");
    assert_eq!(Severity::Warning.tag(), "Warning");
    assert_eq!(Severity::Error.tag(), "Error");
    assert_eq!(Severity::Fatal.tag(), "Fatal");
    assert_eq!(Severity::Debug.tag(), "Debug");
    assert_eq!(Severity::Quit.tag(), "Quit");
}

#[test]
fn tag_matches_the_debug_form() {
    let all = [
        Severity::Message,
        Severity::Info,
        Severity::Success,
        Severity::Warning,
        Severity::Error,
        Severity::Fatal,
        Severity::Debug,
        Severity::Quit,
    ];
    for severity in all {
        assert_eq!(severity.tag(), format!("{:?}", severity));
    }
}

#[test]
fn routing_follows_the_table() {
    assert_eq!(Severity::Message.sink(), Sink::Info);
    assert_eq!(Severity::Info.sink(), Sink::Info);
    assert_eq!(Severity::Success.sink(), Sink::Info);
    assert_eq!(Severity::Quit.sink(), Sink::Info);
    assert_eq!(Severity::Error.sink(), Sink::Error);
    assert_eq!(Severity::Fatal.sink(), Sink::Error);
    assert_eq!(Severity::Warning.sink(), Sink::Warning);
    assert_eq!(Severity::Debug.sink(), Sink::Debug);
}

#[test]
fn warning_never_goes_to_info_or_error() {
    let sink = Severity::Warning.sink();
    assert_ne!(sink, Sink::Info);
    assert_ne!(sink, Sink::Error);
    assert_ne!(sink, Sink::Debug);
}

#[test]
fn quit_is_an_ordinary_info_line() {
    let line = handle_game_log(&event(Some("Game"), Some("Mod"), Severity::Quit, "bye"));
    assert_eq!(line, LogLine { sink: Sink::Info, text: "[Game::Mod][Quit] bye".to_string() });
}

#[test]
fn handle_game_log_renders_and_routes() {
    let line = handle_game_log(&event(Some("Game"), Some("Mod"), Severity::Fatal, "crash"));
    assert_eq!(line.sink, Sink::Error);
    assert_eq!(line.text, "[Game::Mod][Fatal] crash");
}

#[test]
fn two_frames_give_two_lines_in_order() {
    let events = vec![
        event(Some("Game"), Some("Mod"), Severity::Warning, "Low memory"),
        event(None, None, Severity::Info, "Loaded"),
    ];
    let lines = dispatch_all(&events);
    assert_eq!(
        lines,
        vec![
            LogLine { sink: Sink::Warning, text: "[Game::Mod][Warning] Low memory".to_string() },
            LogLine { sink: Sink::Info, text: "[Unknown::Unknown][Info] Loaded".to_string() },
        ]
    );
}

#[test]
fn dispatch_all_keeps_count_and_order() {
    let mut events = Vec::new();
    for i in 0..40 {
        events.push(event(Some("Game"), None, Severity::Debug, &format!("line {}", i)));
    }
    let lines = dispatch_all(&events);
    assert_eq!(lines.len(), 40);
    for i in 0..40 {
        assert_eq!(lines[i], handle_game_log(&events[i]));
        assert_eq!(lines[i].text, format!("[Game::Unknown][Debug] line {}", i));
        assert_eq!(lines[i].sink, Sink::Debug);
    }
}

#[test]
fn dispatch_all_of_nothing_is_nothing() {
    assert_eq!(dispatch_all(&Vec::new()), Vec::new());
}

#[test]
fn equal_events_are_not_coalesced() {
    let e = event(Some("Game"), Some("Mod"), Severity::Error, "again");
    let lines = dispatch_all(&vec![e.clone(), e.clone(), e]);
    assert_eq!(lines.len(), 3);
    assert_eq!(lines[0], lines[1]);
    assert_eq!(lines[1], lines[2]);
    assert_eq!(lines[0].text, "[Game::Mod][Error] again");
}
