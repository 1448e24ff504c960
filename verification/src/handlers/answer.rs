use vstd::prelude::*;
use crate::error::AppError;
use crate::handlers::command::{config_fields, parse_trello_config, Command};
use crate::models::trello::TrelloConfig;

verus! {

/// The answer to `/start`.
pub const WELCOME_MESSAGE: &'static str = "👋 Welcome to UrTask Bot!\n\n\
            🚀 UrTask is an automated tool that bridges Trello and Telegram, providing daily summaries of your Trello activities.\n\n\
            🔧 To get started, you need to set up your Trello configuration using the /setconfig command.\n\n\
            📌 Use the following format:\n\
            /setconfig your_board_id-your_api_key-your_api_token\n\n\
            🔑 You can find your Trello API key and token at: https://trello.com/app-key\n\n\
            📋 Important: Your Trello board must have three lists named exactly:\n\
            • ToDo\n\
            • Doing\n\
            • Done\n\
            UrTask will use these lists to generate your daily reports.\n\n\
            ❓ Use /help to see all available commands.";

/// The answer to `/help`.
pub const HELP_MESSAGE: &'static str = "🤖 UrTask Bot helps you manage your Trello tasks and send daily reports. Available commands:\n\n\
              🚀 /start - Get started with UrTask Bot\n\n\
              ❓ /help - Show this help message\n\n\
              ⚙️ /setconfig - Set up your Trello configuration.\n Usage: /setconfig board_id-api_key-api_token\n\n\
              🧪 /testconfig - Test your current Trello configuration\n\n\
              📊 /reportnow - Get an immediate report of your tasks\n\n\n\
              📅 After setting up, you'll receive:\n\
              • Daily reports at 9:35 AM (GMT+7)\n\
              • Morning reminders at 9:15 AM (GMT+7)\n\
              • Evening reminders at 5:00 PM (GMT+7)\n\n\
              All scheduled messages are sent on weekdays (Monday to Friday) only.";

/// The announcement that a configuration was stored and is being tested.
pub const CONFIG_SAVED_MESSAGE: &'static str = "✅ Trello configuration saved. Testing configuration...";

/// The answer when a configuration could not be stored.
pub const SAVE_FAILED_MESSAGE: &'static str = "❌ Error setting Trello configuration. Please try again later.";

/// The answer to `/testconfig` when the chat has no configuration.
pub const NO_CONFIG_TO_TEST_MESSAGE: &'static str = "❌ No Trello configuration found. Please set up your configuration using /setconfig";

/// The answer to `/testconfig` when the configuration could not be read.
pub const LOAD_FAILED_MESSAGE: &'static str = "❌ Error retrieving Trello configuration. Please try again later.";

/// The answer to `/reportnow` when the chat has no configuration.
pub const NO_CONFIG_TO_REPORT_MESSAGE: &'static str = "No Trello configuration found. Please set up using /setconfig";

/// The answer to a `/setconfig` whose argument does not parse.
pub open spec fn setconfig_error_text(error: Seq<char>) -> Seq<char> {
    "❌ Error setting config: "@ + error + ". Please use the format: /setconfig board_id-api_key-api_token"@
}

/// The answer when a configuration's board has the three lists.
pub open spec fn config_valid_text(
    board: Seq<char>,
    todo_id: Seq<char>,
    doing_id: Seq<char>,
    done_id: Seq<char>,
) -> Seq<char> {
    "✅ Trello configuration is valid!\n\nBoard ID: "@ + board + "\nToDo List ID: "@ + todo_id
        + "\nDoing List ID: "@ + doing_id + "\nDone List ID: "@ + done_id
}

/// The opening of the reply to a valid configuration, before the board id.
pub open spec fn valid_reply_opening() -> Seq<char> {
    "✅ Trello configuration is valid!\n\nBoard ID: "@
}

/// The reply to a valid configuration prints the board id right after its
/// opening, and what follows does not depend on the board: it gives the
/// ToDo list's id, then the Doing list's id, then, last, the Done list's id,
/// each on its own labelled line.
pub proof fn lemma_valid_reply_lines(
    board: Seq<char>,
    other_board: Seq<char>,
    todo_id: Seq<char>,
    doing_id: Seq<char>,
    done_id: Seq<char>,
)
    ensures
        config_valid_text(board, todo_id, doing_id, done_id).take(
            (valid_reply_opening().len() + board.len()) as int,
        ) == valid_reply_opening() + board,
        config_valid_text(board, todo_id, doing_id, done_id).skip(
            (valid_reply_opening().len() + board.len()) as int,
        ) == config_valid_text(other_board, todo_id, doing_id, done_id).skip(
            (valid_reply_opening().len() + other_board.len()) as int,
        ),
        config_valid_text(board, todo_id, doing_id, done_id).skip(
            (valid_reply_opening().len() + board.len()) as int,
        ) == "\nToDo List ID: "@ + todo_id + "\nDoing List ID: "@ + doing_id + "\nDone List ID: "@
            + done_id,
{
    let tail = "\nToDo List ID: "@ + todo_id + "\nDoing List ID: "@ + doing_id + "\nDone List ID: "@
        + done_id;
    assert(config_valid_text(board, todo_id, doing_id, done_id) =~= valid_reply_opening() + board
        + tail);
    assert(config_valid_text(other_board, todo_id, doing_id, done_id) =~= valid_reply_opening()
        + other_board + tail);
    assert((valid_reply_opening() + board + tail).take((valid_reply_opening().len() + board.len()) as int)
        =~= valid_reply_opening() + board);
    assert((valid_reply_opening() + board + tail).skip((valid_reply_opening().len() + board.len()) as int)
        =~= tail);
    assert((valid_reply_opening() + other_board + tail).skip(
        (valid_reply_opening().len() + other_board.len()) as int,
    ) =~= tail);
}

/// `prefix` followed by `error`'s message.
pub open spec fn with_error(prefix: Seq<char>, error: Seq<char>) -> Seq<char> {
    prefix + error
}

/// Whether the local time of day `hour:minute:second` is before 9:35, the
/// time of the daily report.
pub open spec fn is_before_report_time(hour: u32, minute: u32, second: u32) -> bool {
    hour * 3600 + minute * 60 + second < 9 * 3600 + 35 * 60
}

/// Whether the local time of day `hour:minute:second` (as a clock gives it:
/// hour below 24, minute and second below 60) is before 9:35.
pub fn before_report_time(hour: u32, minute: u32, second: u32) -> (r: bool)
    requires
        hour < 24,
        minute < 60,
        second < 60,
    ensures
        r == is_before_report_time(hour, minute, second),
{
    hour * 3600 + minute * 60 + second < 9 * 3600 + 35 * 60
}

/// The answer to a `/setconfig` whose argument does not parse.
fn setconfig_error_message(error: &str) -> (r: String)
    ensures
        r@ == setconfig_error_text(error@),
{
    let mut m = String::from_str("❌ Error setting config: ");
    m.append(error);
    m.append(". Please use the format: /setconfig board_id-api_key-api_token");
    m
}

/// The answer when the configuration's board has the three lists.
pub fn config_valid_message(board: &str, todo_id: &str, doing_id: &str, done_id: &str) -> (r: String)
    ensures
        r@ == config_valid_text(board@, todo_id@, doing_id@, done_id@),
{
    let mut m = String::from_str("✅ Trello configuration is valid!\n\nBoard ID: ");
    m.append(board);
    m.append("\nToDo List ID: ");
    m.append(todo_id);
    m.append("\nDoing List ID: ");
    m.append(doing_id);
    m.append("\nDone List ID: ");
    m.append(done_id);
    m
}

/// `prefix` followed by the message of `error`.
fn error_message(prefix: &str, error: &AppError) -> (r: String)
    ensures
        r@ == with_error(prefix@, error@),
{
    let mut m = String::from_str(prefix);
    let detail = error.message();
    m.append(detail.as_str());
    m
}


/// Where the handling of a command stands, that is, which answer it waits for.
#[derive(Clone, Copy, Debug, PartialEq, Eq, Structural)]
pub enum AnswerStage {
    /// Waits for the interaction to be logged.
    LoggingInteraction,
    /// Waits for the new configuration to be stored.
    SavingConfig,
    /// Waits for the announcement that the configuration was stored.
    AnnouncingSave,
    /// Waits for the chat's stored configuration.
    LoadingConfig,
    /// Waits for the local time of day.
    ReadingClock,
    /// Waits for the early manual report to be logged.
    LoggingManualReport,
    /// Waits for the check of the configuration's board.
    TestingConfig,
    /// Waits for the report job to end.
    Reporting,
    /// Waits for the last reply to be sent.
    Replying,
    /// Done; waits for nothing.
    Finished,
}

/// What the outside world answers to the handler's request.
pub enum AnswerEvent {
    /// The interaction was logged (a failure to log is only printed).
    InteractionLogged,
    /// The message was sent.
    MessageSent,
    /// Whether the configuration was stored.
    ConfigSaved(Result<(), AppError>),
    /// The ids of the board's ToDo, Doing and Done lists, or why not.
    ListsChecked(Result<(String, String, String), AppError>),
    /// The chat's stored configuration, if any, or why it could not be read.
    ConfigLoaded(Result<Option<TrelloConfig>, AppError>),
    /// The local time of day: hour below 24, minute and second below 60.
    ClockRead { hour: u32, minute: u32, second: u32 },
    /// The early manual report was logged (a failure is only printed).
    ManualReportLogged,
    /// The outcome of the report job.
    ReportFinished(Result<(), AppError>),
}

/// What the handler asks the outside world to do next.
pub enum AnswerAction {
    /// Log that `user_name` (id `user_id`) used the command `command`.
    LogInteraction { user_id: i64, user_name: String, command: String },
    /// Send this text to the chat.
    SendMessage(String),
    /// Store this configuration, replacing the chat's former one.
    SaveConfig(TrelloConfig),
    /// Check that this configuration's board has the three lists.
    CheckLists(TrelloConfig),
    /// Read the stored configuration of this chat.
    LoadConfig(i64),
    /// Read the local time of day.
    ReadClock,
    /// Log that this chat asked for a report before the daily one.
    LogManualReport(i64),
    /// Run the report job for this configuration.
    RunReport(TrelloConfig),
    /// The command is handled.
    Done,
}

/// The handling of one command sent in a chat.
pub struct Answer {
    pub chat_id: i64,
    pub command: Command,
    pub stage: AnswerStage,
    /// The configuration being stored, tested or reported on.
    pub config: Option<TrelloConfig>,
}

/// Whether `event` answers what a handler at `stage` waits for.
pub open spec fn answers_stage(stage: AnswerStage, event: AnswerEvent) -> bool {
    match (stage, event) {
        (AnswerStage::LoggingInteraction, AnswerEvent::InteractionLogged) => true,
        (AnswerStage::SavingConfig, AnswerEvent::ConfigSaved(_)) => true,
        (AnswerStage::AnnouncingSave, AnswerEvent::MessageSent) => true,
        (AnswerStage::LoadingConfig, AnswerEvent::ConfigLoaded(_)) => true,
        (AnswerStage::ReadingClock, AnswerEvent::ClockRead { hour, minute, second }) => hour < 24
            && minute < 60 && second < 60,
        (AnswerStage::LoggingManualReport, AnswerEvent::ManualReportLogged) => true,
        (AnswerStage::TestingConfig, AnswerEvent::ListsChecked(_)) => true,
        (AnswerStage::Reporting, AnswerEvent::ReportFinished(_)) => true,
        (AnswerStage::Replying, AnswerEvent::MessageSent) => true,
        _ => false,
    }
}

/// How many steps, at most, separate a stage from the end.
pub open spec fn stage_rank(stage: AnswerStage) -> nat {
    match stage {
        AnswerStage::LoggingInteraction => 9,
        AnswerStage::SavingConfig => 8,
        AnswerStage::AnnouncingSave => 7,
        AnswerStage::LoadingConfig => 7,
        AnswerStage::ReadingClock => 6,
        AnswerStage::LoggingManualReport => 5,
        AnswerStage::TestingConfig => 4,
        AnswerStage::Reporting => 4,
        AnswerStage::Replying => 1,
        AnswerStage::Finished => 0,
    }
}

/// Whether `config` is the configuration that `/setconfig s` in chat
/// `chat_id` parses to.
pub open spec fn parsed_from(config: TrelloConfig, s: Seq<char>, chat_id: i64) -> bool {
    &&& config_fields(s).len() == 3
    &&& config.board@ == config_fields(s)[0]
    &&& config.key@ == config_fields(s)[1]
    &&& config.token@ == config_fields(s)[2]
    &&& config.user_id == chat_id
}

impl Answer {
    /// The handler's state is consistent: a configuration is held exactly in
    /// the stages that use one.
    pub open spec fn wf(&self) -> bool {
        match self.stage {
            AnswerStage::SavingConfig | AnswerStage::AnnouncingSave | AnswerStage::ReadingClock
            | AnswerStage::LoggingManualReport | AnswerStage::TestingConfig => self.config is Some,
            AnswerStage::LoadingConfig => self.command is TestConfig || self.command is ReportNow,
            _ => true,
        }
    }

    /// Whether `event` answers what the handler waits for.
    pub open spec fn awaits(&self, event: AnswerEvent) -> bool {
        answers_stage(self.stage, event)
    }

    /// Whether `event` answers what the handler waits for.
    pub fn is_awaited(&self, event: &AnswerEvent) -> (r: bool)
        ensures
            r == self.awaits(*event),
    {
        match (self.stage, event) {
            (AnswerStage::LoggingInteraction, AnswerEvent::InteractionLogged) => true,
            (AnswerStage::SavingConfig, AnswerEvent::ConfigSaved(_)) => true,
            (AnswerStage::AnnouncingSave, AnswerEvent::MessageSent) => true,
            (AnswerStage::LoadingConfig, AnswerEvent::ConfigLoaded(_)) => true,
            (AnswerStage::ReadingClock, AnswerEvent::ClockRead { hour, minute, second }) => *hour
                < 24 && *minute < 60 && *second < 60,
            (AnswerStage::LoggingManualReport, AnswerEvent::ManualReportLogged) => true,
            (AnswerStage::TestingConfig, AnswerEvent::ListsChecked(_)) => true,
            (AnswerStage::Reporting, AnswerEvent::ReportFinished(_)) => true,
            (AnswerStage::Replying, AnswerEvent::MessageSent) => true,
            _ => false,
        }
    }

    /// Ends with a reply: sends `text`, then is done.
    fn reply(self, text: String) -> (r: (Answer, AnswerAction))
        ensures
            r.0.stage == AnswerStage::Replying,
            r.0.chat_id == self.chat_id,
            r.0.command == self.command,
            r.0.wf(),
            r.1 == AnswerAction::SendMessage(text),
    {
        let mut a = self;
        a.stage = AnswerStage::Replying;
        (a, AnswerAction::SendMessage(text))
    }
}

impl Answer {
    /// Takes the answer `event` to the handler's pending request and returns
    /// the handler's new state and its next request.
    ///
    /// `/start` and `/help` reply with their fixed texts. `/setconfig` parses
    /// its argument for this chat: a good one is stored, announced and then
    /// tested; a bad one gets the usage reminder and nothing is stored.
    /// `/testconfig` tests the stored configuration. `/reportnow` runs the
    /// report job for the stored configuration, logging first when it is
    /// before 9:35. Every failure of the outside world gets the reply that
    /// says so, and each handling ends after finitely many steps.
    pub fn step(self, event: AnswerEvent) -> (r: (Answer, AnswerAction))
        requires
            self.wf(),
            self.awaits(event),
        ensures
            r.0.wf(),
            r.0.chat_id == self.chat_id,
            r.0.command == self.command,
            stage_rank(r.0.stage) < stage_rank(self.stage),
            self.stage == AnswerStage::LoggingInteraction ==> match self.command {
                Command::Start => r.0.stage == AnswerStage::Replying && (r.1 matches AnswerAction::SendMessage(m)
                    && m@ == WELCOME_MESSAGE@),
                Command::Help => r.0.stage == AnswerStage::Replying && (r.1 matches AnswerAction::SendMessage(m)
                    && m@ == HELP_MESSAGE@),
                Command::SetConfig(arg) => if config_fields(arg@).len() == 3 {
                    &&& r.0.stage == AnswerStage::SavingConfig
                    &&& r.1 matches AnswerAction::SaveConfig(c) && parsed_from(c, arg@, self.chat_id)
                        && r.0.config == Some(c)
                } else {
                    &&& r.0.stage == AnswerStage::Replying
                    &&& r.1 matches AnswerAction::SendMessage(m) && m@ == setconfig_error_text(
                        "Invalid format. Expected 'board-key-token'"@,
                    )
                },
                Command::TestConfig | Command::ReportNow => r.0.stage == AnswerStage::LoadingConfig
                    && r.1 == AnswerAction::LoadConfig(self.chat_id),
            },
            self.stage == AnswerStage::SavingConfig ==> match event {
                AnswerEvent::ConfigSaved(Ok(_)) => r.0.stage == AnswerStage::AnnouncingSave
                    && r.0.config == self.config && (r.1 matches AnswerAction::SendMessage(m) && m@
                    == CONFIG_SAVED_MESSAGE@),
                _ => r.0.stage == AnswerStage::Replying && (r.1 matches AnswerAction::SendMessage(m)
                    && m@ == SAVE_FAILED_MESSAGE@),
            },
            self.stage == AnswerStage::AnnouncingSave ==> r.0.stage == AnswerStage::TestingConfig
                && r.0.config == self.config && r.1 == AnswerAction::CheckLists(self.config->0),
            self.stage == AnswerStage::TestingConfig ==> r.0.stage == AnswerStage::Replying && match event {
                AnswerEvent::ListsChecked(Ok(ids)) => r.1 matches AnswerAction::SendMessage(m) && m@
                    == config_valid_text(self.config->0.board@, ids.0@, ids.1@, ids.2@),
                AnswerEvent::ListsChecked(Err(e)) => r.1 matches AnswerAction::SendMessage(m) && m@
                    == with_error("❌ Error testing Trello configuration: "@, e@),
                _ => true,
            },
            self.stage == AnswerStage::LoadingConfig && self.command is TestConfig ==> match event {
                AnswerEvent::ConfigLoaded(Ok(Some(c))) => r.0.stage == AnswerStage::TestingConfig
                    && r.0.config == Some(c) && r.1 == AnswerAction::CheckLists(c),
                AnswerEvent::ConfigLoaded(Ok(None)) => r.0.stage == AnswerStage::Replying
                    && (r.1 matches AnswerAction::SendMessage(m) && m@ == NO_CONFIG_TO_TEST_MESSAGE@),
                _ => r.0.stage == AnswerStage::Replying && (r.1 matches AnswerAction::SendMessage(m)
                    && m@ == LOAD_FAILED_MESSAGE@),
            },
            self.stage == AnswerStage::LoadingConfig && self.command is ReportNow ==> match event {
                AnswerEvent::ConfigLoaded(Ok(Some(c))) => r.0.stage == AnswerStage::ReadingClock
                    && r.0.config == Some(c) && r.1 is ReadClock,
                AnswerEvent::ConfigLoaded(Ok(None)) => r.0.stage == AnswerStage::Replying
                    && (r.1 matches AnswerAction::SendMessage(m) && m@ == NO_CONFIG_TO_REPORT_MESSAGE@),
                AnswerEvent::ConfigLoaded(Err(e)) => r.0.stage == AnswerStage::Replying
                    && (r.1 matches AnswerAction::SendMessage(m) && m@ == with_error(
                    "Error retrieving configuration: "@,
                    e@,
                )),
                _ => true,
            },
            self.stage == AnswerStage::ReadingClock ==> match event {
                AnswerEvent::ClockRead { hour, minute, second } => if is_before_report_time(
                    hour,
                    minute,
                    second,
                ) {
                    r.0.stage == AnswerStage::LoggingManualReport && r.0.config == self.config && r.1
                        == AnswerAction::LogManualReport(self.chat_id)
                } else {
                    r.0.stage == AnswerStage::Reporting && r.1 == AnswerAction::RunReport(
                        self.config->0,
                    )
                },
                _ => true,
            },
            self.stage == AnswerStage::LoggingManualReport ==> r.0.stage == AnswerStage::Reporting
                && r.1 == AnswerAction::RunReport(self.config->0),
            self.stage == AnswerStage::Reporting ==> match event {
                AnswerEvent::ReportFinished(Err(e)) => r.0.stage == AnswerStage::Replying && (r.1 matches AnswerAction::SendMessage(
                    m,
                ) && m@ == with_error("Error generating report: "@, e@)),
                _ => r.0.stage == AnswerStage::Finished && r.1 is Done,
            },
            self.stage == AnswerStage::Replying ==> r.0.stage == AnswerStage::Finished && r.1 is Done,
    {
        let mut a = self;
        match a.stage {
            AnswerStage::LoggingInteraction => {
                let action = match &a.command {
                    Command::Start => AnswerAction::SendMessage(String::from_str(WELCOME_MESSAGE)),
                    Command::Help => AnswerAction::SendMessage(String::from_str(HELP_MESSAGE)),
                    Command::SetConfig(arg) => match parse_trello_config(arg.as_str(), a.chat_id) {
                        Ok(config) => {
                            a.config = Some(config.clone());
                            a.stage = AnswerStage::SavingConfig;
                            return (a, AnswerAction::SaveConfig(config));
                        },
                        Err(e) => AnswerAction::SendMessage(setconfig_error_message(e.as_str())),
                    },
                    Command::TestConfig | Command::ReportNow => {
                        a.stage = AnswerStage::LoadingConfig;
                        let chat_id = a.chat_id;
                        return (a, AnswerAction::LoadConfig(chat_id));
                    },
                };
                a.stage = AnswerStage::Replying;
                (a, action)
            },
            AnswerStage::SavingConfig => match event {
                AnswerEvent::ConfigSaved(Ok(_)) => {
                    a.stage = AnswerStage::AnnouncingSave;
                    (a, AnswerAction::SendMessage(String::from_str(CONFIG_SAVED_MESSAGE)))
                },
                _ => a.reply(String::from_str(SAVE_FAILED_MESSAGE)),
            },
            AnswerStage::AnnouncingSave => {
                let config = a.config.as_ref().unwrap().clone();
                a.stage = AnswerStage::TestingConfig;
                (a, AnswerAction::CheckLists(config))
            },
            AnswerStage::TestingConfig => {
                let text = match (&a.config, &event) {
                    (Some(c), AnswerEvent::ListsChecked(Ok(ids))) => config_valid_message(
                        c.board.as_str(),
                        ids.0.as_str(),
                        ids.1.as_str(),
                        ids.2.as_str(),
                    ),
                    (_, AnswerEvent::ListsChecked(Err(e))) => error_message(
                        "❌ Error testing Trello configuration: ",
                        e,
                    ),
                    _ => String::new(),
                };
                a.reply(text)
            },
            AnswerStage::LoadingConfig => {
                let testing = match a.command {
                    Command::TestConfig => true,
                    _ => false,
                };
                match event {
                    AnswerEvent::ConfigLoaded(Ok(Some(c))) => {
                        if testing {
                            a.config = Some(c.clone());
                            a.stage = AnswerStage::TestingConfig;
                            (a, AnswerAction::CheckLists(c))
                        } else {
                            a.config = Some(c);
                            a.stage = AnswerStage::ReadingClock;
                            (a, AnswerAction::ReadClock)
                        }
                    },
                    AnswerEvent::ConfigLoaded(Ok(None)) => {
                        if testing {
                            a.reply(String::from_str(NO_CONFIG_TO_TEST_MESSAGE))
                        } else {
                            a.reply(String::from_str(NO_CONFIG_TO_REPORT_MESSAGE))
                        }
                    },
                    AnswerEvent::ConfigLoaded(Err(e)) => {
                        if testing {
                            a.reply(String::from_str(LOAD_FAILED_MESSAGE))
                        } else {
                            let text = error_message("Error retrieving configuration: ", &e);
                            a.reply(text)
                        }
                    },
                    _ => a.reply(String::new()),
                }
            },
            AnswerStage::ReadingClock => {
                let early = match event {
                    AnswerEvent::ClockRead { hour, minute, second } => before_report_time(
                        hour,
                        minute,
                        second,
                    ),
                    _ => false,
                };
                if early {
                    a.stage = AnswerStage::LoggingManualReport;
                    let chat_id = a.chat_id;
                    (a, AnswerAction::LogManualReport(chat_id))
                } else {
                    a.to_report()
                }
            },
            AnswerStage::LoggingManualReport => a.to_report(),
            AnswerStage::Reporting => match event {
                AnswerEvent::ReportFinished(Err(e)) => {
                    let text = error_message("Error generating report: ", &e);
                    a.reply(text)
                },
                _ => {
                    a.stage = AnswerStage::Finished;
                    (a, AnswerAction::Done)
                },
            },
            AnswerStage::Replying | AnswerStage::Finished => {
                a.stage = AnswerStage::Finished;
                (a, AnswerAction::Done)
            },
        }
    }

    /// Runs the report job for the held configuration.
    fn to_report(self) -> (r: (Answer, AnswerAction))
        requires
            self.config is Some,
        ensures
            r.0.stage == AnswerStage::Reporting,
            r.0.wf(),
            r.0.chat_id == self.chat_id,
            r.0.command == self.command,
            r.1 == AnswerAction::RunReport(self.config->0),
    {
        let mut a = self;
        let config = a.config.as_ref().unwrap().clone();
        a.stage = AnswerStage::Reporting;
        (a, AnswerAction::RunReport(config))
    }
}

/// Starts handling `command`, sent in chat `chat_id` by `sender` (its user
/// id and full name, when Telegram tells them): the first request logs the
/// interaction, with id 0 and name "Unknown User" for an unknown sender.
pub fn answer(command: Command, chat_id: i64, sender: Option<(u64, String)>) -> (r: (
    Answer,
    AnswerAction,
))
    ensures
        r.0.wf(),
        r.0.chat_id == chat_id,
        r.0.command == command,
        r.0.stage == AnswerStage::LoggingInteraction,
        r.1 matches AnswerAction::LogInteraction { user_id, user_name, command: name } && name@
            == command.spec_name() && match sender {
            Some((id, full_name)) => user_id == id as i64 && user_name@ == full_name@,
            None => user_id == 0 && user_name@ == "Unknown User"@,
        },
{
    let (user_id, user_name) = match sender {
        Some((id, full_name)) => (id as i64, full_name),
        None => (0i64, String::from_str("Unknown User")),
    };
    let name = command.name();
    let state = Answer { chat_id, command, stage: AnswerStage::LoggingInteraction, config: None };
    (state, AnswerAction::LogInteraction { user_id, user_name, command: name })
}

} // verus!
