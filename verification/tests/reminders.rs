use urtask::utils::clock::{local_time_of_day, yesterday_label, Weekday};
use urtask::utils::random::choose_one;
use urtask::utils::scheduler::{compose_reminder, generate_reminder_message, get_emoji, reminder_message, scheduled_jobs, JobKind, EMOJIS, EVENING_ACTIONS, EVENING_GREETINGS, FRIDAY_EVENING_GREETINGS, FRIDAY_MORNING_GREETINGS, MONDAY_MORNING_GREETINGS, MORNING_ACTIONS, MORNING_GREETINGS};

fn split(m: &str) -> (String, String, String) {
    let (first, action) = m.split_once('\n').unwrap();
    let (greeting, emoji) = first.rsplit_once(' ').unwrap();
    (greeting.to_string(), emoji.to_string(), action.to_string())
}

#[test]
fn monday_morning_reminder() {
    for _ in 0..20 {
        let m = reminder_message("morning", Weekday::Mon);
        let (g, e, a) = split(&m);
        assert!(MONDAY_MORNING_GREETINGS.contains(&g.as_str()));
        assert!(EMOJIS.contains(&e.as_str()));
        assert!(MORNING_ACTIONS.contains(&a.as_str()));
    }
}

#[test]
fn friday_and_other_greetings() {
    let (g, _, _) = split(&reminder_message("morning", Weekday::Fri));
    assert!(FRIDAY_MORNING_GREETINGS.contains(&g.as_str()));
    let (g, _, _) = split(&reminder_message("morning", Weekday::Wed));
    assert!(MORNING_GREETINGS.contains(&g.as_str()));
    let (g, _, a) = split(&reminder_message("evening", Weekday::Fri));
    assert!(FRIDAY_EVENING_GREETINGS.contains(&g.as_str()));
    assert!(EVENING_ACTIONS.contains(&a.as_str()));
    let (g, _, _) = split(&reminder_message("evening", Weekday::Mon));
    assert!(EVENING_GREETINGS.contains(&g.as_str()));
}

#[test]
fn other_time_of_day_has_fixed_words() {
    let (g, e, a) = split(&reminder_message("noon", Weekday::Tue));
    assert_eq!(g, "Hello");
    assert!(EMOJIS.contains(&e.as_str()));
    assert_eq!(a, "It's time to update your Trello board!");
}

#[test]
fn todays_reminder_has_the_shape() {
    let (g, e, a) = split(&generate_reminder_message("evening"));
    assert!(FRIDAY_EVENING_GREETINGS.contains(&g.as_str()) || EVENING_GREETINGS.contains(&g.as_str()));
    assert!(EMOJIS.contains(&e.as_str()));
    assert!(EVENING_ACTIONS.contains(&a.as_str()));
}

#[test]
fn compose_joins_the_parts() {
    assert_eq!(compose_reminder("Hi!", "🚀", "Go."), "Hi! 🚀\nGo.");
}

#[test]
fn random_choice_stays_in_the_slice() {
    let items = ["a", "b", "c"];
    for _ in 0..20 {
        let c = choose_one(&items).unwrap();
        assert!(items.contains(&c));
    }
    assert_eq!(choose_one(&[]), None);
}

#[test]
fn pools_have_fifteen_or_twenty_five_entries() {
    assert_eq!(MONDAY_MORNING_GREETINGS.len(), 15);
    assert_eq!(EVENING_GREETINGS.len(), 15);
    assert_eq!(MORNING_ACTIONS.len(), 25);
    assert_eq!(EMOJIS.len(), 25);
    assert!(EMOJIS.contains(&get_emoji()));
}

#[test]
fn clock_wrappers_give_well_formed_values() {
    let label = yesterday_label();
    let b = label.as_bytes();
    assert_eq!(b.len(), 5);
    assert_eq!(b[2], b'/');
    let day: u32 = label[0..2].parse().unwrap();
    let month: u32 = label[3..5].parse().unwrap();
    assert!((1..=31).contains(&day) && (1..=12).contains(&month));
    let (h, m, s) = local_time_of_day();
    assert!(h < 24 && m < 60 && s < 60);
}

#[test]
fn schedules_run_on_weekdays() {
    let jobs = scheduled_jobs();
    assert_eq!(jobs, vec![JobKind::DailyReport, JobKind::MorningReminder, JobKind::EveningReminder]);
    for job in jobs {
        assert!(job.schedule().ends_with(" 1-5"));
        assert_eq!(job.schedule().split(' ').count(), 6);
    }
    assert_eq!(JobKind::DailyReport.schedule(), "0 35 2 * * 1-5");
    assert_eq!(JobKind::MorningReminder.time_of_day(), "morning");
    assert_eq!(JobKind::EveningReminder.time_of_day(), "evening");
}
