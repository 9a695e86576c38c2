use app_bootstrap::bootstrap::{Action, Bootstrap, Event, Phase};
use app_bootstrap::plugin::Plugin;

const MESSAGE: &str = "error while running tauri application";

fn with_opener() -> Bootstrap {
    let mut boot = Bootstrap::new();
    boot.advance(Event::PluginRegistered(Plugin::Opener));
    boot
}

#[test]
fn opener_is_named_opener() {
    assert_eq!(Plugin::Opener.name(), "opener");
}

#[test]
fn new_start_up_has_nothing_attached() {
    let boot = Bootstrap::new();
    assert_eq!(boot.phase(), Phase::NotStarted);
    assert_eq!(boot.plugins(), Vec::<Plugin>::new());
    assert!(!boot.is_registered(Plugin::Opener));
    assert_eq!(boot.diagnostic(), None);
}

#[test]
fn first_action_attaches_the_opener() {
    let boot = Bootstrap::new();
    assert_eq!(boot.next_action(), Action::Register(Plugin::Opener));
}

#[test]
fn run_is_asked_once_the_opener_is_attached() {
    let mut boot = Bootstrap::new();
    let action = boot.advance(Event::PluginRegistered(Plugin::Opener));
    assert_eq!(action, Action::Run);
    assert_eq!(boot.next_action(), Action::Run);
    assert_eq!(boot.phase(), Phase::NotStarted);
    assert!(boot.is_registered(Plugin::Opener));
    assert_eq!(boot.plugins(), vec![Plugin::Opener]);
}

#[test]
fn successful_run_leads_to_running() {
    let mut boot = with_opener();
    let action = boot.advance(Event::RunSucceeded);
    assert_eq!(action, Action::Done);
    assert_eq!(boot.phase(), Phase::Running);
    assert_eq!(boot.diagnostic(), None);
    assert_eq!(boot.plugins(), vec![Plugin::Opener]);
}

#[test]
fn failed_run_aborts_with_the_diagnostic() {
    let mut boot = with_opener();
    let action = boot.advance(Event::RunFailed);
    assert_eq!(action, Action::Abort);
    assert_eq!(boot.phase(), Phase::Aborted);
    assert_eq!(boot.diagnostic(), Some(MESSAGE));
    assert_eq!(boot.plugins(), vec![Plugin::Opener]);
}

#[test]
fn diagnostic_is_the_fixed_text() {
    let mut boot = with_opener();
    boot.advance(Event::RunFailed);
    let text = boot.diagnostic().unwrap();
    assert_eq!(text.len(), 37);
    assert_eq!(text, "error while running tauri application");
}

#[test]
fn run_report_without_the_opener_changes_nothing() {
    let mut boot = Bootstrap::new();
    assert_eq!(boot.advance(Event::RunSucceeded), Action::Register(Plugin::Opener));
    assert_eq!(boot.phase(), Phase::NotStarted);
    assert_eq!(boot.advance(Event::RunFailed), Action::Register(Plugin::Opener));
    assert_eq!(boot.phase(), Phase::NotStarted);
    assert_eq!(boot.plugins(), Vec::<Plugin>::new());
    assert_eq!(boot.diagnostic(), None);
}

#[test]
fn opener_is_attached_once() {
    let mut boot = with_opener();
    let action = boot.advance(Event::PluginRegistered(Plugin::Opener));
    assert_eq!(action, Action::Run);
    assert_eq!(boot.plugins(), vec![Plugin::Opener]);
}

#[test]
fn running_is_final() {
    let mut boot = with_opener();
    boot.advance(Event::RunSucceeded);
    for event in [Event::RunFailed, Event::RunSucceeded, Event::PluginRegistered(Plugin::Opener)] {
        assert_eq!(boot.advance(event), Action::Done);
        assert_eq!(boot.phase(), Phase::Running);
        assert_eq!(boot.plugins(), vec![Plugin::Opener]);
        assert_eq!(boot.diagnostic(), None);
    }
}

#[test]
fn aborted_is_final() {
    let mut boot = with_opener();
    boot.advance(Event::RunFailed);
    for event in [Event::RunSucceeded, Event::RunFailed, Event::PluginRegistered(Plugin::Opener)] {
        assert_eq!(boot.advance(event), Action::Abort);
        assert_eq!(boot.phase(), Phase::Aborted);
        assert_eq!(boot.plugins(), vec![Plugin::Opener]);
        assert_eq!(boot.diagnostic(), Some(MESSAGE));
    }
}

#[test]
fn no_custom_command_is_exposed() {
    let mut boot = Bootstrap::new();
    assert!(!boot.is_command_exposed("greet"));
    boot.advance(Event::PluginRegistered(Plugin::Opener));
    assert!(!boot.is_command_exposed("greet"));
    assert!(!boot.is_command_exposed("opener"));
    boot.advance(Event::RunSucceeded);
    assert!(!boot.is_command_exposed("greet"));
    assert!(!boot.is_command_exposed(""));
}

fn event_of(digit: usize) -> Event {
    match digit {
        0 => Event::PluginRegistered(Plugin::Opener),
        1 => Event::RunSucceeded,
        _ => Event::RunFailed,
    }
}

#[test]
fn every_course_of_events_attaches_the_opener_before_the_run() {
    let length: u32 = 6;
    for code in 0..3usize.pow(length) {
        let mut boot = Bootstrap::new();
        let mut rest = code;
        let mut opener_reported = false;
        let mut run_reported_after = false;
        for _ in 0..length {
            let event = event_of(rest % 3);
            rest /= 3;
            match event {
                Event::PluginRegistered(_) => opener_reported = true,
                _ => run_reported_after = run_reported_after || opener_reported,
            }
            let action = boot.advance(event);
            assert_eq!(action, boot.next_action());
            if action == Action::Run || boot.phase() != Phase::NotStarted {
                assert!(boot.is_registered(Plugin::Opener));
                assert!(opener_reported);
            }
            if boot.phase() != Phase::NotStarted {
                assert!(run_reported_after);
            }
            assert_eq!(boot.phase() == Phase::Aborted, boot.diagnostic().is_some());
            assert!(boot.plugins().len() <= 1);
        }
    }
}

#[test]
fn driver_following_the_actions_reaches_running() {
    let mut boot = Bootstrap::new();
    let mut performed = Vec::new();
    let mut action = boot.next_action();
    while action != Action::Done && action != Action::Abort {
        performed.push(action);
        let event = match action {
            Action::Register(plugin) => Event::PluginRegistered(plugin),
            _ => Event::RunSucceeded,
        };
        action = boot.advance(event);
    }
    assert_eq!(performed, vec![Action::Register(Plugin::Opener), Action::Run]);
    assert_eq!(action, Action::Done);
    assert_eq!(boot.phase(), Phase::Running);
}

#[test]
fn driver_following_the_actions_aborts_on_failure() {
    let mut boot = Bootstrap::new();
    let mut performed = Vec::new();
    let mut action = boot.next_action();
    while action != Action::Done && action != Action::Abort {
        performed.push(action);
        let event = match action {
            Action::Register(plugin) => Event::PluginRegistered(plugin),
            _ => Event::RunFailed,
        };
        action = boot.advance(event);
    }
    assert_eq!(performed, vec![Action::Register(Plugin::Opener), Action::Run]);
    assert_eq!(action, Action::Abort);
    assert_eq!(boot.phase(), Phase::Aborted);
    assert_eq!(boot.diagnostic(), Some(MESSAGE));
}
