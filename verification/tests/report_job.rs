use urtask::error::AppError;
use urtask::models::trello::TrelloCard;
use urtask::utils::report::{generate_report_message, JobAction, JobEvent, JobStage, ReportJob};

fn card(id: &str, name: &str, list: &str) -> TrelloCard {
    TrelloCard { id: id.to_string(), name: name.to_string(), id_list: list.to_string() }
}

fn ids() -> (String, String, String) {
    ("T".to_string(), "G".to_string(), "D".to_string())
}

#[test]
fn report_message_text() {
    let done = vec![card("1", "Fix login", "D"), card("2", "Write docs", "D")];
    let doing = vec![card("3", "Review PR", "G")];
    let todo = vec![card("4", "Plan sprint", "T")];
    let m = generate_report_message("14/03", &todo, &doing, &done);
    assert_eq!(
        m,
        "Hôm trước (14/03):\n* Fix login\n* Write docs\n\nHôm nay:\n* Review PR\n\nSắp tới:\n* Plan sprint\n"
    );
}

#[test]
fn report_message_with_nothing() {
    assert_eq!(generate_report_message("01/01", &[], &[], &[]), "Hôm trước (01/01):\n\nHôm nay:\n\nSắp tới:\n");
}

#[test]
fn job_reports_only_cards_not_reported_before() {
    let (job, a) = ReportJob::new(77);
    assert!(matches!(a, JobAction::CheckLists));
    let (job, a) = job.step(JobEvent::ListsChecked(Ok(ids())));
    assert!(matches!(a, JobAction::FetchCards));
    let cards = vec![
        card("d1", "Old task", "D"),
        card("g1", "Current", "G"),
        card("d2", "New task", "D"),
        card("x", "Elsewhere", "Z"),
    ];
    let (job, a) = job.step(JobEvent::CardsFetched(Ok(cards)));
    match a { JobAction::IsReported(id) => assert_eq!(id, "d1"), _ => panic!("expected a check") }
    let (job, a) = job.step(JobEvent::ReportedChecked(Ok(true)));
    match a { JobAction::IsReported(id) => assert_eq!(id, "d2"), _ => panic!("expected a check") }
    let (job, a) = job.step(JobEvent::ReportedChecked(Ok(false)));
    match a { JobAction::SaveReported(id) => assert_eq!(id, "d2"), _ => panic!("expected a save") }
    let (job, a) = job.step(JobEvent::ReportedSaved(Ok(())));
    assert!(matches!(a, JobAction::ReadDate));
    let (job, a) = job.step(JobEvent::DateRead("09/05".to_string()));
    match a {
        JobAction::SendMessage { chat_id, text } => {
            assert_eq!(chat_id, 77);
            assert_eq!(text, "Hôm trước (09/05):\n* New task\n\nHôm nay:\n* Current\n\nSắp tới:\n");
        }
        _ => panic!("expected the report"),
    }
    let (job, a) = job.step(JobEvent::MessageSent(Ok(())));
    assert!(matches!(a, JobAction::Finish(Ok(()))));
    assert_eq!(job.stage, JobStage::Finished);
}

#[test]
fn job_sends_nothing_when_nothing_to_report() {
    let (job, _) = ReportJob::new(1);
    let (job, _) = job.step(JobEvent::ListsChecked(Ok(ids())));
    let (job, a) = job.step(JobEvent::CardsFetched(Ok(vec![card("d1", "x", "D")])));
    assert!(matches!(a, JobAction::IsReported(_)));
    let (job, a) = job.step(JobEvent::ReportedChecked(Ok(true)));
    assert!(matches!(a, JobAction::Finish(Ok(()))));
    assert_eq!(job.stage, JobStage::Finished);
}

#[test]
fn job_with_no_cards_at_all_finishes() {
    let (job, _) = ReportJob::new(1);
    let (job, _) = job.step(JobEvent::ListsChecked(Ok(ids())));
    let (_, a) = job.step(JobEvent::CardsFetched(Ok(Vec::new())));
    assert!(matches!(a, JobAction::Finish(Ok(()))));
}

#[test]
fn job_reports_todo_only_board() {
    let (job, _) = ReportJob::new(1);
    let (job, _) = job.step(JobEvent::ListsChecked(Ok(ids())));
    let (job, a) = job.step(JobEvent::CardsFetched(Ok(vec![card("t1", "Later", "T")])));
    assert!(matches!(a, JobAction::ReadDate));
    let (_, a) = job.step(JobEvent::DateRead("02/02".to_string()));
    match a {
        JobAction::SendMessage { text, .. } => assert_eq!(text, "Hôm trước (02/02):\n\nHôm nay:\n\nSắp tới:\n* Later\n"),
        _ => panic!("expected the report"),
    }
}

#[test]
fn job_errors_end_it() {
    let (job, _) = ReportJob::new(1);
    let (job, a) = job.step(JobEvent::ListsChecked(Err(AppError::from("no lists".to_string()))));
    match a { JobAction::Finish(Err(e)) => assert_eq!(e.message(), "no lists"), _ => panic!() }
    assert_eq!(job.stage, JobStage::Finished);

    let (job, _) = ReportJob::new(1);
    let (job, _) = job.step(JobEvent::ListsChecked(Ok(ids())));
    let (job, _) = job.step(JobEvent::CardsFetched(Ok(vec![card("d", "x", "D")])));
    let (job, _) = job.step(JobEvent::ReportedChecked(Ok(false)));
    let (_, a) = job.step(JobEvent::ReportedSaved(Err(AppError::from("db down".to_string()))));
    match a { JobAction::Finish(Err(e)) => assert_eq!(e.message(), "db down"), _ => panic!() }
}

#[test]
fn job_accepts_only_awaited_answers() {
    let (job, _) = ReportJob::new(1);
    assert!(job.is_awaited(&JobEvent::ListsChecked(Ok(ids()))));
    assert!(!job.is_awaited(&JobEvent::DateRead("x".into())));
}

#[test]
fn job_reports_when_last_done_card_was_already_reported() {
    let (job, _) = ReportJob::new(3);
    let (job, _) = job.step(JobEvent::ListsChecked(Ok(ids())));
    let cards = vec![card("d1", "Old", "D"), card("g1", "Current", "G")];
    let (job, _) = job.step(JobEvent::CardsFetched(Ok(cards)));
    let (job, a) = job.step(JobEvent::ReportedChecked(Ok(true)));
    assert!(matches!(a, JobAction::ReadDate));
    assert_eq!(job.stage, JobStage::ReadingDate);
}

fn run_with_store(store: &mut std::collections::HashSet<String>, cards: Vec<TrelloCard>) -> Option<String> {
    let (mut job, mut action) = ReportJob::new(1);
    let mut sent = None;
    loop {
        let event = match action {
            JobAction::CheckLists => JobEvent::ListsChecked(Ok(ids())),
            JobAction::FetchCards => JobEvent::CardsFetched(Ok(cards.clone())),
            JobAction::IsReported(id) => JobEvent::ReportedChecked(Ok(store.contains(&id))),
            JobAction::SaveReported(id) => {
                store.insert(id);
                JobEvent::ReportedSaved(Ok(()))
            }
            JobAction::ReadDate => JobEvent::DateRead("10/10".to_string()),
            JobAction::SendMessage { text, .. } => {
                sent = Some(text);
                JobEvent::MessageSent(Ok(()))
            }
            JobAction::Finish(outcome) => {
                assert!(outcome.is_ok());
                return sent;
            }
        };
        let (j, a) = job.step(event);
        job = j;
        action = a;
    }
}

#[test]
fn no_done_card_is_reported_twice() {
    let mut store = std::collections::HashSet::new();
    store.insert("d0".to_string());
    let cards = vec![card("d0", "Older", "D"), card("d1", "First", "D"), card("d2", "Second", "D")];
    let first = run_with_store(&mut store, cards.clone()).unwrap();
    assert_eq!(first, "Hôm trước (10/10):\n* First\n* Second\n\nHôm nay:\n\nSắp tới:\n");
    let second = run_with_store(&mut store, cards);
    assert_eq!(second, None);
}
