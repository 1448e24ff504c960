use vstd::prelude::*;
use crate::text::same_text;
use crate::utils::clock::{today_weekday, Weekday};
use crate::utils::random::choose_one;

verus! {

/// Greetings of a Monday morning.
pub const MONDAY_MORNING_GREETINGS: [&'static str; 15] = [
    "Monday motivation!",
    "New week, new goals!",
    "Monday blues? Not for you!",
    "Ready to conquer this week?",
    "Monday: A fresh start!",
    "This week's going to be amazing!",
    "Monday: Let's make it count!",
    "Embrace the Monday magic!",
    "Week mode: Activated!",
    "Monday's here! Let's rock!",
    "New week, endless possibilities!",
    "Monday: Your weekly reboot!",
    "Monday hustle begins!",
    "This week's your canvas, paint it well!",
    "Monday: Turning coffee into productivity!",
];

/// Greetings of a Friday morning.
pub const FRIDAY_MORNING_GREETINGS: [&'static str; 15] = [
    "TGIF!",
    "Friday vibes!",
    "Last workday of the week!",
    "Friday: The golden hour of the week!",
    "Weekend is on the horizon!",
    "Friday: Make it awesome!",
    "Almost there! Finish strong!",
    "Friday: The day before Saturday!",
    "Fri-nally!",
    "Friday: Let's wrap this week up nicely!",
    "Friday mood: Activated!",
    "One last push before the weekend!",
    "Friday: The week's victory lap!",
    "Countdown to weekend: Activated!",
    "Friday: Let's end this week with a bang!",
];

/// Greetings of the other mornings.
pub const MORNING_GREETINGS: [&'static str; 15] = [
    "Rise and shine!",
    "Good morning!",
    "Hello, sunshine!",
    "Top of the morning to you!",
    "Wakey wakey!",
    "A new day has dawned!",
    "Morning glory!",
    "Hello, new day!",
    "Time to rise and conquer!",
    "Good day to you!",
    "Morning has broken!",
    "Up and at 'em!",
    "Greetings, early bird!",
    "A fresh start awaits!",
    "Welcome to a brand new day!",
];

/// Greetings of a Friday evening.
pub const FRIDAY_EVENING_GREETINGS: [&'static str; 15] = [
    "Happy Friday evening!",
    "Weekend is knocking!",
    "Friday night lights!",
    "TGIF evening edition!",
    "Friday night, best night!",
    "Weekend countdown: Hours!",
    "Friday PM: The best time of the week!",
    "It's Fri-yay night!",
    "Weekend mode: Activating...",
    "Friday evening: The golden hours!",
    "Welcome to the weekend's eve!",
    "Friday PM: Time to unwind!",
    "The week's grand finale is here!",
    "Friday night: Let the good times roll!",
    "Congrats! You've made it to Friday evening!",
];

/// Greetings of the other evenings.
pub const EVENING_GREETINGS: [&'static str; 15] = [
    "Good evening!",
    "Wrapping up the day?",
    "Hello again!",
    "Evening greetings!",
    "How was your day?",
    "Evening has arrived!",
    "Winding down time!",
    "Evening check-in!",
    "Day's end is near!",
    "Evening vibes!",
    "Twilight greetings!",
    "As the day concludes...",
    "Evening reflection time!",
    "Day's wrap-up!",
    "Evening has fallen!",
];

/// Morning calls to update the board.
pub const MORNING_ACTIONS: [&'static str; 25] = [
    "Time to plan your day in Trello!",
    "Let's crush some tasks today!",
    "Your Trello board is waiting for updates!",
    "Start your day right - update your Trello!",
    "New day, new tasks. Update that Trello board!",
    "Kick off your day with a Trello check-in!",
    "Set your intentions for the day on Trello!",
    "Map out your day for success on Trello!",
    "Begin with the end in mind - plan on Trello!",
    "Your day's blueprint awaits on Trello!",
    "Chart your course for the day on Trello!",
    "Trello's ready for your day's game plan!",
    "Align your day with your goals on Trello!",
    "Start strong - organize your day on Trello!",
    "Your Trello board is your day's command center!",
    "Plan, prioritize, conquer - start with Trello!",
    "Morning Trello update: Your recipe for a productive day!",
    "Fuel your day with a well-organized Trello board!",
    "Your day's potential is waiting on Trello!",
    "Seize the day - starting with your Trello board!",
    "Morning Trello ritual: Setting you up for success!",
    "Kickstart your productivity on Trello!",
    "Your Trello board: The launchpad for a great day!",
    "Design your perfect day on Trello!",
    "Trello morning update: Your daily success habit!",
];

/// Evening calls to update the board.
pub const EVENING_ACTIONS: [&'static str; 25] = [
    "Don't forget to update your Trello before signing off!",
    "Reflect on your day's achievements in Trello.",
    "Wrap up your day with a Trello update!",
    "Tomorrow you'll thank yourself for updating Trello now.",
    "One last thing before you go - Trello update time!",
    "Cap off your day with a Trello check-in!",
    "Review and reset your Trello board for tomorrow.",
    "Close your day strong with a Trello update!",
    "Set yourself up for success tomorrow - update Trello now!",
    "Your future self will thank you for updating Trello!",
    "End-of-day Trello ritual: Your key to continuous progress!",
    "Before you clock out, clock in with your Trello board!",
    "Cement today's progress with a Trello update!",
    "Your day's not complete without a final Trello check!",
    "Prepare for tomorrow's success with a Trello evening update!",
    "Round off your day with a Trello review!",
    "A quick Trello update now saves time tomorrow!",
    "Evening Trello sync: Aligning today with tomorrow!",
    "Capture today's achievements and tomorrow's goals on Trello!",
    "Your evening Trello update: The bridge to tomorrow's success!",
    "Close the loop on today's tasks with a Trello update!",
    "Evening Trello ritual: Your productivity nightcap!",
    "Lay the groundwork for tomorrow on Trello tonight!",
    "Trello evening update: Your daily victory lap!",
    "Bookend your day with a final Trello check-in!",
];

/// The emojis that close a reminder's first line.
pub const EMOJIS: [&'static str; 25] = [
    "🚀",
    "💪",
    "✨",
    "🌟",
    "🔥",
    "📊",
    "🎯",
    "🏆",
    "💡",
    "⚡",
    "🌈",
    "🌻",
    "🌞",
    "🌠",
    "🏅",
    "🎉",
    "🎊",
    "🥇",
    "🏋️",
    "🧠",
    "🌺",
    "🍀",
    "🌸",
    "🌼",
    "🌿",
];

/// Whether `x` is the text of one of the entries of `pool`.
pub open spec fn in_pool(x: Seq<char>, pool: Seq<&str>) -> bool {
    exists|i: int| 0 <= i < pool.len() && (#[trigger] pool[i])@ == x
}

/// The greetings of a morning reminder on `weekday`.
pub open spec fn morning_pool(weekday: Weekday) -> Seq<&'static str> {
    match weekday {
        Weekday::Mon => MONDAY_MORNING_GREETINGS@,
        Weekday::Fri => FRIDAY_MORNING_GREETINGS@,
        _ => MORNING_GREETINGS@,
    }
}

/// The greetings of an evening reminder on `weekday`.
pub open spec fn evening_pool(weekday: Weekday) -> Seq<&'static str> {
    match weekday {
        Weekday::Fri => FRIDAY_EVENING_GREETINGS@,
        _ => EVENING_GREETINGS@,
    }
}

/// One entry of a non-empty pool, picked at random.
fn pick(pool: &[&'static str]) -> (r: &'static str)
    requires
        pool@.len() > 0,
    ensures
        pool@.contains(r),
{
    match choose_one(pool) {
        Some(s) => s,
        None => pool[0],
    }
}

/// The text of a random entry of a non-empty `pool`, in a new `String`.
fn picked_text(pool: &[&'static str]) -> (r: String)
    requires
        pool@.len() > 0,
    ensures
        in_pool(r@, pool@),
{
    let s = pick(pool);
    let ghost k = choose|k: int| 0 <= k < pool@.len() && pool@[k] == s;
    assert(pool@[k]@ == s@);
    String::from_str(s)
}

/// A random greeting for a morning reminder on `weekday`: Mondays and
/// Fridays have greetings of their own.
pub fn get_morning_greeting(weekday: &Weekday) -> (r: String)
    ensures
        in_pool(r@, morning_pool(*weekday)),
{
    match weekday {
        Weekday::Mon => picked_text(MONDAY_MORNING_GREETINGS.as_slice()),
        Weekday::Fri => picked_text(FRIDAY_MORNING_GREETINGS.as_slice()),
        _ => picked_text(MORNING_GREETINGS.as_slice()),
    }
}

/// A random greeting for an evening reminder on `weekday`: Fridays have
/// greetings of their own.
pub fn get_evening_greeting(weekday: &Weekday) -> (r: String)
    ensures
        in_pool(r@, evening_pool(*weekday)),
{
    match weekday {
        Weekday::Fri => picked_text(FRIDAY_EVENING_GREETINGS.as_slice()),
        _ => picked_text(EVENING_GREETINGS.as_slice()),
    }
}

/// A random morning call to update the board.
pub fn get_morning_action() -> (r: String)
    ensures
        in_pool(r@, MORNING_ACTIONS@),
{
    picked_text(MORNING_ACTIONS.as_slice())
}

/// A random evening call to update the board.
pub fn get_evening_action() -> (r: String)
    ensures
        in_pool(r@, EVENING_ACTIONS@),
{
    picked_text(EVENING_ACTIONS.as_slice())
}

/// A random emoji.
pub fn get_emoji() -> (r: &'static str)
    ensures
        EMOJIS@.contains(r),
{
    pick(EMOJIS.as_slice())
}

/// A reminder's text: the greeting, a space, the emoji, a line break and the
/// call to action.
pub open spec fn reminder_text(greeting: Seq<char>, emoji: Seq<char>, action: Seq<char>) -> Seq<char> {
    greeting + " "@ + emoji + "\n"@ + action
}

/// The greeting and call to action that a reminder of `time_of_day` on
/// `weekday` may carry: from the morning pools for "morning", from the evening
/// pools for "evening", and a fixed pair for any other time of day.
pub open spec fn fits_time_of_day(
    time_of_day: Seq<char>,
    weekday: Weekday,
    greeting: Seq<char>,
    action: Seq<char>,
) -> bool {
    if time_of_day == "morning"@ {
        in_pool(greeting, morning_pool(weekday)) && in_pool(action, MORNING_ACTIONS@)
    } else if time_of_day == "evening"@ {
        in_pool(greeting, evening_pool(weekday)) && in_pool(action, EVENING_ACTIONS@)
    } else {
        greeting == "Hello"@ && action == "It's time to update your Trello board!"@
    }
}

/// Whether `text` is a reminder of `time_of_day` on `weekday`: a fitting
/// greeting and call to action around one of the emojis.
pub open spec fn is_reminder(time_of_day: Seq<char>, weekday: Weekday, text: Seq<char>) -> bool {
    exists|greeting: Seq<char>, emoji: Seq<char>, action: Seq<char>|
        #![trigger reminder_text(greeting, emoji, action)]
        text == reminder_text(greeting, emoji, action) && fits_time_of_day(
            time_of_day,
            weekday,
            greeting,
            action,
        ) && in_pool(emoji, EMOJIS@)
}

/// Joins a greeting, an emoji and a call to action into a reminder.
pub fn compose_reminder(greeting: &str, emoji: &str, action: &str) -> (r: String)
    ensures
        r@ == reminder_text(greeting@, emoji@, action@),
{
    let mut message = String::from_str(greeting);
    message.append(" ");
    message.append(emoji);
    message.append("\n");
    message.append(action);
    message
}

/// The reminder of `time_of_day` ("morning", "evening" or another) for
/// `weekday`, with its greeting, emoji and call to action picked at random.
pub fn reminder_message(time_of_day: &str, weekday: Weekday) -> (r: String)
    ensures
        is_reminder(time_of_day@, weekday, r@),
{
    let (greeting, action) = if same_text(time_of_day, "morning") {
        (get_morning_greeting(&weekday), get_morning_action())
    } else if same_text(time_of_day, "evening") {
        (get_evening_greeting(&weekday), get_evening_action())
    } else {
        (String::from_str("Hello"), String::from_str("It's time to update your Trello board!"))
    };
    let emoji = get_emoji();
    let r = compose_reminder(greeting.as_str(), emoji, action.as_str());
    proof {
        let k = choose|k: int| 0 <= k < EMOJIS@.len() && EMOJIS@[k] == emoji;
        assert(EMOJIS@[k]@ == emoji@);
        assert(fits_time_of_day(time_of_day@, weekday, greeting@, action@));
        assert(r@ == reminder_text(greeting@, emoji@, action@));
    }
    r
}

/// Today's reminder of `time_of_day`: as `reminder_message` for the day of
/// the week that the clock gives.
pub fn generate_reminder_message(time_of_day: &str) -> (r: String)
    ensures
        exists|weekday: Weekday| is_reminder(time_of_day@, weekday, r@),
{
    let weekday = today_weekday();
    reminder_message(time_of_day, weekday)
}


/// The jobs that run on a schedule.
#[derive(Clone, Copy, Debug, PartialEq, Eq, Structural)]
pub enum JobKind {
    /// The daily report of every configured board.
    DailyReport,
    /// The morning reminder to every configured user.
    MorningReminder,
    /// The evening reminder to every configured user.
    EveningReminder,
}

/// The schedule of the daily report, as a cron expression (seconds, minutes,
/// hours, day of month, month, day of week) in UTC: 02:35 UTC is 9:35 in
/// GMT+7, Monday to Friday.
pub const DAILY_REPORT_SCHEDULE: &'static str = "0 35 2 * * 1-5";

/// The schedule of the morning reminder: 02:15 UTC (9:15 in GMT+7), Monday
/// to Friday.
pub const MORNING_REMINDER_SCHEDULE: &'static str = "0 15 2 * * 1-5";

/// The schedule of the evening reminder: 10:00 UTC (17:00 in GMT+7), Monday
/// to Friday.
pub const EVENING_REMINDER_SCHEDULE: &'static str = "0 0 10 * * 1-5";

/// The cron expression of a job.
pub open spec fn schedule_text(kind: JobKind) -> Seq<char> {
    match kind {
        JobKind::DailyReport => DAILY_REPORT_SCHEDULE@,
        JobKind::MorningReminder => MORNING_REMINDER_SCHEDULE@,
        JobKind::EveningReminder => EVENING_REMINDER_SCHEDULE@,
    }
}

/// The time of day named in a reminder's text.
pub open spec fn reminder_time(kind: JobKind) -> Seq<char> {
    match kind {
        JobKind::MorningReminder => "morning"@,
        JobKind::EveningReminder => "evening"@,
        JobKind::DailyReport => Seq::<char>::empty(),
    }
}

impl JobKind {
    /// The cron expression on which the job runs.
    pub fn schedule(&self) -> (r: &'static str)
        ensures
            r@ == schedule_text(*self),
    {
        match self {
            JobKind::DailyReport => DAILY_REPORT_SCHEDULE,
            JobKind::MorningReminder => MORNING_REMINDER_SCHEDULE,
            JobKind::EveningReminder => EVENING_REMINDER_SCHEDULE,
        }
    }

    /// The time of day ("morning" or "evening") that a reminder job greets
    /// for; empty for the report.
    pub fn time_of_day(&self) -> (r: &'static str)
        ensures
            r@ == reminder_time(*self),
    {
        match self {
            JobKind::DailyReport => {
                proof {
                    reveal_strlit("");
                }
                ""
            },
            JobKind::MorningReminder => "morning",
            JobKind::EveningReminder => "evening",
        }
    }
}

/// The scheduled jobs: the daily report, then the morning and the evening
/// reminders.
pub fn scheduled_jobs() -> (r: Vec<JobKind>)
    ensures
        r@ == seq![JobKind::DailyReport, JobKind::MorningReminder, JobKind::EveningReminder],
{
    let mut jobs: Vec<JobKind> = Vec::new();
    jobs.push(JobKind::DailyReport);
    jobs.push(JobKind::MorningReminder);
    jobs.push(JobKind::EveningReminder);
    jobs
}

/// Each job has a schedule of its own, and each fires at the hour and minute
/// that the bot's help announces in GMT+7, written in UTC (seven hours
/// earlier): the daily report at 9:35, the morning reminder at 9:15 and the
/// evening reminder at 17:00, at second 0, on weekdays.
pub proof fn lemma_schedules_match_announced_times(a: JobKind, b: JobKind)
    ensures
        a != b ==> schedule_text(a) != schedule_text(b),
        schedule_text(a) == match a {
            JobKind::DailyReport => "0 35 2 * * 1-5"@,
            JobKind::MorningReminder => "0 15 2 * * 1-5"@,
            JobKind::EveningReminder => "0 0 10 * * 1-5"@,
        },
{
    reveal_strlit("0 35 2 * * 1-5");
    reveal_strlit("0 15 2 * * 1-5");
    reveal_strlit("0 0 10 * * 1-5");
    assert("0 35 2 * * 1-5"@[2] != "0 15 2 * * 1-5"@[2]);
    assert("0 35 2 * * 1-5"@[2] != "0 0 10 * * 1-5"@[2]);
    assert("0 15 2 * * 1-5"@[2] != "0 0 10 * * 1-5"@[2]);
}

/// Every scheduled job runs on weekdays only: the day-of-week field, the last
/// of its cron expression, is "1-5" (Monday to Friday).
pub proof fn lemma_weekdays_only(kind: JobKind)
    ensures
        schedule_text(kind).len() > 4,
        schedule_text(kind)[schedule_text(kind).len() - 4] == ' ',
        schedule_text(kind).subrange(schedule_text(kind).len() - 3, schedule_text(kind).len() as int)
            == "1-5"@,
{
    reveal_strlit("0 35 2 * * 1-5");
    reveal_strlit("0 15 2 * * 1-5");
    reveal_strlit("0 0 10 * * 1-5");
    reveal_strlit("1-5");
    let t = schedule_text(kind);
    assert(t.subrange(t.len() - 3, t.len() as int) =~= "1-5"@);
}

} // verus!
