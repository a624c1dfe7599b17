use game_relay::session::{
    start_game, start_just_logs, Action, Event, Mode, Phase, RunError, Session, QUEUE_CAPACITY,
};
use game_relay::warning::{ActiveMod, ModWarning};

fn with_warning(name: &str, title: &str, body: &str) -> ActiveMod {
    ActiveMod {
        unique_name: name.to_string(),
        warning: Some(ModWarning { title: title.to_string(), body: body.to_string() }),
    }
}

fn names(list: &[&str]) -> Vec<String> {
    list.iter().map(|s| s.to_string()).collect()
}

fn err(text: &str) -> String {
    text.to_string()
}

fn running_passive() -> Session {
    let (mut session, first): (Session, Action<String>) = start_just_logs(0);
    assert_eq!(first, Action::Bind(0));
    let run: Action<String> = session.step(Event::Bound(4242));
    assert_eq!(run, Action::Run { port: 4242, accept_multiple: false, launch: false });
    session
}

fn running_active() -> Session {
    let (mut session, first): (Session, Action<String>) = start_game(&vec![], &vec![], 0);
    assert_eq!(first, Action::Save(vec![]));
    assert_eq!(session.step::<String>(Event::Saved), Action::Bind(0));
    let run: Action<String> = session.step(Event::Bound(5151));
    assert_eq!(run, Action::Run { port: 5151, accept_multiple: true, launch: true });
    session
}

#[test]
fn queue_holds_thirty_two_events() {
    assert_eq!(QUEUE_CAPACITY, 32);
}

#[test]
fn passive_session_starts_by_binding() {
    let (session, first): (Session, Action<String>) = start_just_logs(8080);
    assert_eq!(first, Action::Bind(8080));
    assert_eq!(session.mode(), Mode::Passive);
    assert_eq!(session.phase(), Phase::Binding);
    assert_eq!(session.port(), 8080);
    assert_eq!(session.running_units(), 0);
    assert!(!session.is_finished());
}

#[test]
fn passive_session_runs_listener_and_dispatch_only() {
    let session = running_passive();
    assert_eq!(session.phase(), Phase::Running);
    assert_eq!(session.port(), 4242);
    assert_eq!(session.running_units(), 2);
}

#[test]
fn passive_session_succeeds_when_both_units_end() {
    let mut session = running_passive();
    assert_eq!(session.step::<String>(Event::ListenerEnded), Action::Wait);
    assert_eq!(session.running_units(), 1);
    assert_eq!(session.step::<String>(Event::DispatchEnded), Action::Finish(Ok(())));
    assert!(session.is_finished());
    assert_eq!(session.running_units(), 0);
}

#[test]
fn passive_session_has_no_launch_unit() {
    let mut session = running_passive();
    assert_eq!(session.step::<String>(Event::LaunchEnded), Action::Ignored);
    assert_eq!(session.step(Event::LaunchFailed(err("no game"))), Action::Ignored);
    assert_eq!(session.phase(), Phase::Running);
    assert_eq!(session.running_units(), 2);
}

#[test]
fn bind_failure_is_the_result_and_nothing_runs() {
    let (mut session, _first): (Session, Action<String>) = start_just_logs(80);
    let answer = session.step(Event::BindFailed(err("port in use")));
    assert_eq!(answer, Action::Finish(Err(RunError::BindError(err("port in use")))));
    assert!(session.is_finished());
    assert_eq!(session.running_units(), 0);
    assert_eq!(session.step::<String>(Event::Bound(80)), Action::Ignored);
    assert_eq!(session.step::<String>(Event::DispatchEnded), Action::Ignored);
    assert_eq!(session.running_units(), 0);
}

#[test]
fn bind_failure_in_active_mode_comes_after_the_save() {
    let (mut session, first): (Session, Action<String>) = start_game(&vec![], &names(&["A"]), 9);
    assert_eq!(first, Action::Save(names(&["A"])));
    assert_eq!(session.step::<String>(Event::Saved), Action::Bind(9));
    let answer = session.step(Event::BindFailed(err("denied")));
    assert_eq!(answer, Action::Finish(Err(RunError::BindError(err("denied")))));
    assert!(session.is_finished());
}

#[test]
fn launch_failure_wins_over_running_units() {
    let mut session = running_active();
    assert_eq!(session.running_units(), 3);
    let answer = session.step(Event::LaunchFailed(err("no executable")));
    assert_eq!(answer, Action::Finish(Err(RunError::LaunchError(err("no executable")))));
    assert!(session.is_finished());
    assert_eq!(session.running_units(), 0);
    assert_eq!(session.step::<String>(Event::ListenerEnded), Action::Ignored);
    assert_eq!(session.step::<String>(Event::DispatchEnded), Action::Ignored);
}

#[test]
fn listener_failure_is_an_io_error() {
    let mut session = running_active();
    assert_eq!(session.step::<String>(Event::LaunchEnded), Action::Wait);
    let answer = session.step(Event::ListenerFailed(err("reset")));
    assert_eq!(answer, Action::Finish(Err(RunError::IOError(err("reset")))));
    assert!(session.is_finished());
}

#[test]
fn only_the_first_failure_is_reported() {
    let mut session = running_active();
    let first = session.step(Event::ListenerFailed(err("first")));
    assert_eq!(first, Action::Finish(Err(RunError::IOError(err("first")))));
    let second = session.step(Event::LaunchFailed(err("second")));
    assert_eq!(second, Action::Ignored);
}

#[test]
fn active_session_succeeds_when_all_three_units_end() {
    let mut session = running_active();
    assert_eq!(session.step::<String>(Event::DispatchEnded), Action::Wait);
    assert_eq!(session.step::<String>(Event::LaunchEnded), Action::Wait);
    assert_eq!(session.running_units(), 1);
    assert_eq!(session.step::<String>(Event::ListenerEnded), Action::Finish(Ok(())));
    assert!(session.is_finished());
}

#[test]
fn a_unit_ends_only_once() {
    let mut session = running_active();
    assert_eq!(session.step::<String>(Event::ListenerEnded), Action::Wait);
    assert_eq!(session.step::<String>(Event::ListenerEnded), Action::Ignored);
    assert_eq!(session.step(Event::ListenerFailed(err("late"))), Action::Ignored);
    assert_eq!(session.running_units(), 2);
}

#[test]
fn active_session_resolves_the_port_before_launch() {
    let (mut session, _first): (Session, Action<String>) = start_game(&vec![], &vec![], 0);
    session.step::<String>(Event::Saved);
    assert_eq!(session.port(), 0);
    let run = session.step::<String>(Event::Bound(61234));
    assert_eq!(run, Action::Run { port: 61234, accept_multiple: true, launch: true });
    assert_eq!(session.port(), 61234);
}

#[test]
fn one_of_two_warnings_is_shown_before_one_save() {
    let mods = vec![with_warning("Old.Mod", "Seen", "before"), with_warning("New.Mod", "Fresh", "read me")];
    let (mut session, first): (Session, Action<String>) =
        start_game(&mods, &names(&["Old.Mod"]), 0);
    let banner = "====== Warning For New.Mod ======\nFresh\n\nread me\n\
                  =================================\nPress Enter To Continue...";
    assert_eq!(first, Action::Prompt(banner.to_string()));
    assert_eq!(session.phase(), Phase::Prompting);
    assert_eq!(session.pending().len(), 1);
    let save = session.step::<String>(Event::Acknowledged);
    assert_eq!(save, Action::Save(names(&["Old.Mod", "New.Mod"])));
    assert_eq!(session.phase(), Phase::Saving);
    assert_eq!(session.pending().len(), 0);
    assert_eq!(session.viewed_alerts(), &names(&["Old.Mod", "New.Mod"]));
    assert_eq!(session.step::<String>(Event::Acknowledged), Action::Ignored);
    assert_eq!(session.step::<String>(Event::Saved), Action::Bind(0));
}

#[test]
fn every_pending_warning_is_prompted_in_order() {
    let mods = vec![with_warning("A", "ta", "ba"), with_warning("B", "tb", "bb"), with_warning("C", "tc", "bc")];
    let (mut session, first): (Session, Action<String>) = start_game(&mods, &vec![], 1);
    let shown = session.pending().clone();
    assert_eq!(shown.len(), 3);
    assert_eq!(first, Action::Prompt(shown[0].banner()));
    assert_eq!(session.step::<String>(Event::Acknowledged), Action::Prompt(shown[1].banner()));
    assert_eq!(session.viewed_alerts(), &names(&["A"]));
    assert_eq!(session.step::<String>(Event::Acknowledged), Action::Prompt(shown[2].banner()));
    assert_eq!(session.step::<String>(Event::Acknowledged), Action::Save(names(&["A", "B", "C"])));
}

#[test]
fn an_acknowledged_warning_is_not_shown_again() {
    let mods = vec![with_warning("A", "ta", "ba"), with_warning("B", "tb", "bb")];
    let (mut session, _first): (Session, Action<String>) = start_game(&mods, &vec![], 1);
    session.step::<String>(Event::Acknowledged);
    let saved = match session.step::<String>(Event::Acknowledged) {
        Action::Save(viewed) => viewed,
        other => panic!("expected a save, got {:?}", other),
    };
    let (again, first): (Session, Action<String>) = start_game(&mods, &saved, 1);
    assert_eq!(first, Action::Save(names(&["A", "B"])));
    assert_eq!(again.phase(), Phase::Saving);
    assert_eq!(again.pending().len(), 0);
}

#[test]
fn a_session_without_warnings_still_saves() {
    let (session, first): (Session, Action<String>) = start_game(&vec![], &names(&["X"]), 7);
    assert_eq!(first, Action::Save(names(&["X"])));
    assert_eq!(session.mode(), Mode::Active);
    assert_eq!(session.phase(), Phase::Saving);
}

#[test]
fn a_failed_prompt_ends_the_session_before_the_save() {
    let mods = vec![with_warning("A", "ta", "ba")];
    let (mut session, _first): (Session, Action<String>) = start_game(&mods, &vec![], 1);
    let answer = session.step(Event::PromptFailed(err("stdin closed")));
    assert_eq!(answer, Action::Finish(Err(RunError::IOError(err("stdin closed")))));
    assert!(session.is_finished());
    assert_eq!(session.step::<String>(Event::Saved), Action::Ignored);
}

#[test]
fn a_failed_save_ends_the_session_before_the_bind() {
    let (mut session, _first): (Session, Action<String>) = start_game(&vec![], &vec![], 1);
    let answer = session.step(Event::SaveFailed(err("disk full")));
    assert_eq!(answer, Action::Finish(Err(RunError::PersistError(err("disk full")))));
    assert!(session.is_finished());
    assert_eq!(session.step::<String>(Event::Bound(1)), Action::Ignored);
}

#[test]
fn events_of_another_phase_change_nothing() {
    let (mut session, _first): (Session, Action<String>) = start_just_logs(3);
    assert_eq!(session.step::<String>(Event::Acknowledged), Action::Ignored);
    assert_eq!(session.step::<String>(Event::Saved), Action::Ignored);
    assert_eq!(session.step::<String>(Event::ListenerEnded), Action::Ignored);
    assert_eq!(session.step(Event::LaunchFailed(err("x"))), Action::Ignored);
    assert_eq!(session.phase(), Phase::Binding);
    assert_eq!(session.port(), 3);
    assert_eq!(session.step::<String>(Event::Bound(3)), Action::Run {
        port: 3,
        accept_multiple: false,
        launch: false
    });
}
