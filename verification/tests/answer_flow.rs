use urtask::error::AppError;
use urtask::handlers::answer::{answer, before_report_time, Answer, AnswerAction, AnswerEvent, AnswerStage, HELP_MESSAGE, WELCOME_MESSAGE};
use urtask::handlers::command::Command;
use urtask::models::trello::TrelloConfig;

fn sent(a: &AnswerAction) -> &str {
    match a {
        AnswerAction::SendMessage(m) => m.as_str(),
        _ => panic!("expected a message"),
    }
}

fn logged(command: Command) -> (Answer, AnswerAction) {
    let (a, act) = answer(command, 100, Some((7, "Ann Lee".to_string())));
    match act {
        AnswerAction::LogInteraction { user_id, user_name, .. } => {
            assert_eq!(user_id, 7);
            assert_eq!(user_name, "Ann Lee");
        }
        _ => panic!("expected the log"),
    }
    a.step(AnswerEvent::InteractionLogged)
}

fn config() -> TrelloConfig {
    TrelloConfig { board: "B".into(), key: "K".into(), token: "T".into(), user_id: 100 }
}

#[test]
fn unknown_sender_is_logged_as_such() {
    let (_, act) = answer(Command::Help, 1, None);
    match act {
        AnswerAction::LogInteraction { user_id, user_name, command } => {
            assert_eq!(user_id, 0);
            assert_eq!(user_name, "Unknown User");
            assert_eq!(command, "help");
        }
        _ => panic!(),
    }
}

#[test]
fn start_and_help_reply_with_their_texts() {
    let (a, act) = logged(Command::Start);
    assert_eq!(sent(&act), WELCOME_MESSAGE);
    let (a, act) = a.step(AnswerEvent::MessageSent);
    assert!(matches!(act, AnswerAction::Done));
    assert_eq!(a.stage, AnswerStage::Finished);
    let (_, act) = logged(Command::Help);
    assert_eq!(sent(&act), HELP_MESSAGE);
    assert!(HELP_MESSAGE.contains("Daily reports at 9:35 AM (GMT+7)"));
}

#[test]
fn setconfig_saves_announces_and_tests() {
    let (a, act) = logged(Command::SetConfig(" b1 - k1 - t1 ".to_string()));
    match &act {
        AnswerAction::SaveConfig(c) => {
            assert_eq!((c.board.as_str(), c.key.as_str(), c.token.as_str(), c.user_id), ("b1", "k1", "t1", 100));
        }
        _ => panic!("expected a save"),
    }
    let (a, act) = a.step(AnswerEvent::ConfigSaved(Ok(())));
    assert_eq!(sent(&act), "✅ Trello configuration saved. Testing configuration...");
    let (a, act) = a.step(AnswerEvent::MessageSent);
    assert!(matches!(act, AnswerAction::CheckLists(ref c) if c.board == "b1"));
    let (a, act) = a.step(AnswerEvent::ListsChecked(Ok(("1".into(), "2".into(), "3".into()))));
    assert_eq!(
        sent(&act),
        "✅ Trello configuration is valid!\n\nBoard ID: b1\nToDo List ID: 1\nDoing List ID: 2\nDone List ID: 3"
    );
    let (_, act) = a.step(AnswerEvent::MessageSent);
    assert!(matches!(act, AnswerAction::Done));
}

#[test]
fn setconfig_with_bad_argument_saves_nothing() {
    let (a, act) = logged(Command::SetConfig("only-two".to_string()));
    assert_eq!(
        sent(&act),
        "❌ Error setting config: Invalid format. Expected 'board-key-token'. Please use the format: /setconfig board_id-api_key-api_token"
    );
    assert_eq!(a.stage, AnswerStage::Replying);
}

#[test]
fn setconfig_store_failure() {
    let (a, _) = logged(Command::SetConfig("a-b-c".to_string()));
    let (_, act) = a.step(AnswerEvent::ConfigSaved(Err(AppError::from("down".to_string()))));
    assert_eq!(sent(&act), "❌ Error setting Trello configuration. Please try again later.");
}

#[test]
fn testconfig_paths() {
    let (a, act) = logged(Command::TestConfig);
    assert!(matches!(act, AnswerAction::LoadConfig(100)));
    let (b, act) = a.step(AnswerEvent::ConfigLoaded(Ok(None)));
    assert_eq!(sent(&act), "❌ No Trello configuration found. Please set up your configuration using /setconfig");
    assert_eq!(b.stage, AnswerStage::Replying);

    let (a, _) = logged(Command::TestConfig);
    let (_, act) = a.step(AnswerEvent::ConfigLoaded(Err(AppError::from("x".to_string()))));
    assert_eq!(sent(&act), "❌ Error retrieving Trello configuration. Please try again later.");

    let (a, _) = logged(Command::TestConfig);
    let (a, act) = a.step(AnswerEvent::ConfigLoaded(Ok(Some(config()))));
    assert!(matches!(act, AnswerAction::CheckLists(_)));
    let (_, act) = a.step(AnswerEvent::ListsChecked(Err(AppError::from("Trello API error: Status 401".to_string()))));
    assert_eq!(sent(&act), "❌ Error testing Trello configuration: Trello API error: Status 401");
}

#[test]
fn reportnow_before_the_daily_report_is_logged() {
    let (a, _) = logged(Command::ReportNow);
    let (a, act) = a.step(AnswerEvent::ConfigLoaded(Ok(Some(config()))));
    assert!(matches!(act, AnswerAction::ReadClock));
    let (a, act) = a.step(AnswerEvent::ClockRead { hour: 9, minute: 34, second: 59 });
    assert!(matches!(act, AnswerAction::LogManualReport(100)));
    let (a, act) = a.step(AnswerEvent::ManualReportLogged);
    assert!(matches!(act, AnswerAction::RunReport(ref c) if c.board == "B"));
    let (a, act) = a.step(AnswerEvent::ReportFinished(Ok(())));
    assert!(matches!(act, AnswerAction::Done));
    assert_eq!(a.stage, AnswerStage::Finished);
}

#[test]
fn reportnow_after_the_daily_report_runs_directly() {
    let (a, _) = logged(Command::ReportNow);
    let (a, _) = a.step(AnswerEvent::ConfigLoaded(Ok(Some(config()))));
    let (a, act) = a.step(AnswerEvent::ClockRead { hour: 9, minute: 35, second: 0 });
    assert!(matches!(act, AnswerAction::RunReport(_)));
    let (_, act) = a.step(AnswerEvent::ReportFinished(Err(AppError::from("boom".to_string()))));
    assert_eq!(sent(&act), "Error generating report: boom");
}

#[test]
fn reportnow_without_configuration() {
    let (a, _) = logged(Command::ReportNow);
    let (_, act) = a.step(AnswerEvent::ConfigLoaded(Ok(None)));
    assert_eq!(sent(&act), "No Trello configuration found. Please set up using /setconfig");
    let (a, _) = logged(Command::ReportNow);
    let (_, act) = a.step(AnswerEvent::ConfigLoaded(Err(AppError::from("timeout".to_string()))));
    assert_eq!(sent(&act), "Error retrieving configuration: timeout");
}

#[test]
fn report_time_boundary() {
    assert!(before_report_time(0, 0, 0));
    assert!(before_report_time(9, 34, 59));
    assert!(!before_report_time(9, 35, 0));
    assert!(!before_report_time(23, 59, 59));
}
