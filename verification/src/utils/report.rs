use vstd::prelude::*;
use crate::error::AppError;
use crate::models::trello::TrelloCard;
use crate::services::trello::{doing_cards, done_cards, map_cards_to_lists, todo_cards};

verus! {

/// One line "* name" per card, in order.
pub open spec fn bullet_lines(cards: Seq<TrelloCard>) -> Seq<char>
    decreases cards.len(),
{
    if cards.len() == 0 {
        Seq::<char>::empty()
    } else {
        bullet_lines(cards.drop_last()) + "* "@ + cards.last().name@ + "\n"@
    }
}

/// The daily report: under the date of the day before, the tasks done since
/// the last report; then today's tasks in progress; then the tasks to do.
pub open spec fn report_text(
    label: Seq<char>,
    done: Seq<TrelloCard>,
    doing: Seq<TrelloCard>,
    todo: Seq<TrelloCard>,
) -> Seq<char> {
    "Hôm trước ("@ + label + "):\n"@ + bullet_lines(done) + "\nHôm nay:\n"@ + bullet_lines(doing)
        + "\nSắp tới:\n"@ + bullet_lines(todo)
}

/// The report's line for one card: "* ", its name, a line break.
pub open spec fn card_line(c: TrelloCard) -> Seq<char> {
    "* "@ + c.name@ + "\n"@
}

proof fn lemma_bullet_lines_flatten_alt(cards: Seq<TrelloCard>)
    ensures
        bullet_lines(cards) == cards.map_values(|c: TrelloCard| card_line(c)).flatten_alt(),
    decreases cards.len(),
{
    let m = cards.map_values(|c: TrelloCard| card_line(c));
    if cards.len() > 0 {
        lemma_bullet_lines_flatten_alt(cards.drop_last());
        assert(m.drop_last() =~= cards.drop_last().map_values(|c: TrelloCard| card_line(c)));
        assert(m.last() == card_line(cards.last()));
        assert(bullet_lines(cards) =~= bullet_lines(cards.drop_last()) + card_line(cards.last()));
    } else {
        assert(m =~= Seq::<Seq<char>>::empty());
    }
}

/// A card section of the report is, in order, one line "* name" per card
/// and nothing else: the lines of the cards, one after the other.
pub proof fn lemma_bullet_lines_are_card_lines(cards: Seq<TrelloCard>)
    ensures
        bullet_lines(cards) == cards.map_values(|c: TrelloCard| card_line(c)).flatten(),
        cards.len() > 0 ==> bullet_lines(cards) == card_line(cards[0]) + bullet_lines(
            cards.drop_first(),
        ),
{
    lemma_bullet_lines_flatten_alt(cards);
    cards.map_values(|c: TrelloCard| card_line(c)).lemma_flatten_and_flatten_alt_are_equivalent();
    if cards.len() > 0 {
        let m = cards.map_values(|c: TrelloCard| card_line(c));
        lemma_bullet_lines_flatten_alt(cards.drop_first());
        cards.drop_first().map_values(|c: TrelloCard| card_line(c)).lemma_flatten_and_flatten_alt_are_equivalent();
        assert(m.drop_first() =~= cards.drop_first().map_values(|c: TrelloCard| card_line(c)));
        assert(m.first() == card_line(cards[0]));
    }
}

/// The daily report lists, under the date of the day before, one line
/// "* name" for every newly done card; then, under "Hôm nay:", one line for
/// every card in progress; then, under "Sắp tới:", one line for every card to
/// do; each in the order given and nothing else.
pub proof fn lemma_report_lists_every_card(
    label: Seq<char>,
    done: Seq<TrelloCard>,
    doing: Seq<TrelloCard>,
    todo: Seq<TrelloCard>,
)
    ensures
        report_text(label, done, doing, todo) == "Hôm trước ("@ + label + "):\n"@ + done.map_values(
            |c: TrelloCard| card_line(c),
        ).flatten() + "\nHôm nay:\n"@ + doing.map_values(|c: TrelloCard| card_line(c)).flatten()
            + "\nSắp tới:\n"@ + todo.map_values(|c: TrelloCard| card_line(c)).flatten(),
{
    lemma_bullet_lines_are_card_lines(done);
    lemma_bullet_lines_are_card_lines(doing);
    lemma_bullet_lines_are_card_lines(todo);
}

/// Appends one line "* name" per card to `message`.
fn push_bullets(message: &mut String, cards: &[TrelloCard])
    ensures
        final(message)@ == old(message)@ + bullet_lines(cards@),
{
    let ghost start = message@;
    let mut i: usize = 0;
    assert(cards@.take(0) =~= Seq::<TrelloCard>::empty());
    assert(start + bullet_lines(Seq::<TrelloCard>::empty()) =~= start);
    while i < cards.len()
        invariant
            i <= cards@.len(),
            message@ == start + bullet_lines(cards@.take(i as int)),
        decreases cards.len() - i,
    {
        proof {
            assert(cards@.take(i + 1).drop_last() =~= cards@.take(i as int));
            assert(cards@.take(i + 1).last() == cards@[i as int]);
        }
        message.append("* ");
        message.append(cards[i].name.as_str());
        message.append("\n");
        i = i + 1;
    }
    assert(cards@.take(cards@.len() as int) =~= cards@);
}

/// The report message for `label` (the date of the day before, "dd/mm"): the
/// newly done cards, the cards in progress and the cards to do.
pub fn generate_report_message(
    label: &str,
    todo: &[TrelloCard],
    doing: &[TrelloCard],
    done: &[TrelloCard],
) -> (r: String)
    ensures
        r@ == report_text(label@, done@, doing@, todo@),
{
    let mut message = String::from_str("Hôm trước (");
    message.append(label);
    message.append("):\n");
    push_bullets(&mut message, done);
    message.append("\nHôm nay:\n");
    push_bullets(&mut message, doing);
    message.append("\nSắp tới:\n");
    push_bullets(&mut message, todo);
    message
}


/// The done cards whose store answer says they were not reported yet
/// (`answers[i]` is the answer for `cards[i]`), in order.
pub open spec fn unreported(cards: Seq<TrelloCard>, answers: Seq<bool>) -> Seq<TrelloCard>
    decreases answers.len(),
{
    if answers.len() == 0 || cards.len() == 0 {
        Seq::<TrelloCard>::empty()
    } else {
        let prev = unreported(cards.drop_last(), answers.drop_last());
        if !answers.last() {
            prev.push(cards.last())
        } else {
            prev
        }
    }
}

/// The card ids that a store holds after being asked about `cards` in turn
/// and recording each card it did not hold: those of `reported` and those
/// of every card.
pub open spec fn remembered(cards: Seq<TrelloCard>, reported: Set<Seq<char>>) -> Set<Seq<char>>
    decreases cards.len(),
{
    if cards.len() == 0 {
        reported
    } else {
        remembered(cards.drop_last(), reported).insert(cards.last().id@)
    }
}

/// The answers, one per card in turn, of a store that starts with the ids
/// `reported` and remembers every card recorded: a card counts as reported
/// when its id is in `reported` or belongs to an earlier card.
pub open spec fn store_answers(cards: Seq<TrelloCard>, reported: Set<Seq<char>>) -> Seq<bool>
    decreases cards.len(),
{
    if cards.len() == 0 {
        Seq::<bool>::empty()
    } else {
        store_answers(cards.drop_last(), reported).push(
            remembered(cards.drop_last(), reported).contains(cards.last().id@),
        )
    }
}

proof fn lemma_remembered_grows(cards: Seq<TrelloCard>, reported: Set<Seq<char>>)
    ensures
        reported.subset_of(remembered(cards, reported)),
        forall|i: int| 0 <= i < cards.len() ==> remembered(cards, reported).contains(#[trigger] cards[i].id@),
    decreases cards.len(),
{
    if cards.len() > 0 {
        let p = cards.drop_last();
        lemma_remembered_grows(p, reported);
        assert forall|i: int| 0 <= i < cards.len() implies remembered(cards, reported).contains(
            #[trigger] cards[i].id@,
        ) by {
            if i < p.len() {
                assert(cards[i] == p[i]);
            }
        }
    }
}

proof fn lemma_first_run(cards: Seq<TrelloCard>, reported: Set<Seq<char>>)
    ensures
        store_answers(cards, reported).len() == cards.len(),
        forall|i: int|
            0 <= i < unreported(cards, store_answers(cards, reported)).len() ==> !reported.contains(
                (#[trigger] unreported(cards, store_answers(cards, reported))[i]).id@,
            ),
    decreases cards.len(),
{
    if cards.len() > 0 {
        let p = cards.drop_last();
        lemma_first_run(p, reported);
        lemma_remembered_grows(p, reported);
        let answers = store_answers(cards, reported);
        assert(answers.drop_last() =~= store_answers(p, reported));
        let prev = unreported(p, store_answers(p, reported));
        let now = unreported(cards, answers);
        assert forall|i: int| 0 <= i < now.len() implies !reported.contains((#[trigger] now[i]).id@) by {
            if i < prev.len() {
                assert(now[i] == prev[i]);
            }
        }
    }
}

proof fn lemma_second_run(cards: Seq<TrelloCard>, held: Set<Seq<char>>, later: Set<Seq<char>>)
    requires
        forall|i: int| 0 <= i < cards.len() ==> held.contains(#[trigger] cards[i].id@),
        held.subset_of(later),
    ensures
        unreported(cards, store_answers(cards, later)).len() == 0,
    decreases cards.len(),
{
    if cards.len() > 0 {
        let p = cards.drop_last();
        assert forall|i: int| 0 <= i < p.len() implies held.contains(#[trigger] p[i].id@) by {
            assert(p[i] == cards[i]);
        }
        lemma_second_run(p, held, later);
        lemma_remembered_grows(p, later);
        assert(held.contains(cards[cards.len() - 1].id@));
        assert(store_answers(cards, later).drop_last() =~= store_answers(p, later));
    }
}

/// No done card is reported twice, given a store that remembers what it
/// records. Against a store that starts with the ids `reported` and answers
/// as `store_answers` says, the report's done section holds no card whose
/// id the store already held; and a second run over the same done cards,
/// against the store as the first run left it (`remembered`), reports none
/// of them.
pub proof fn lemma_no_card_reported_twice(done: Seq<TrelloCard>, reported: Set<Seq<char>>)
    ensures
        forall|i: int|
            0 <= i < unreported(done, store_answers(done, reported)).len() ==> !reported.contains(
                (#[trigger] unreported(done, store_answers(done, reported))[i]).id@,
            ),
        unreported(done, store_answers(done, remembered(done, reported))).len() == 0,
{
    lemma_first_run(done, reported);
    lemma_remembered_grows(done, reported);
    let after = remembered(done, reported);
    assert(after.subset_of(after));
    lemma_second_run(done, after, after);
}

/// Whether a report is due: a done card not reported before, a card in
/// progress or a card to do.
pub open spec fn has_news(
    done: Seq<TrelloCard>,
    answers: Seq<bool>,
    doing: Seq<TrelloCard>,
    todo: Seq<TrelloCard>,
) -> bool {
    unreported(done, answers).len() > 0 || doing.len() > 0 || todo.len() > 0
}

/// Where a report job stands, that is, which answer it waits for.
#[derive(Clone, Copy, Debug, PartialEq, Eq, Structural)]
pub enum JobStage {
    /// Waits for the ids of the board's ToDo, Doing and Done lists.
    CheckingLists,
    /// Waits for the board's cards.
    FetchingCards,
    /// Waits for whether the done card `next` was already reported.
    CheckingReported,
    /// Waits for the record that the done card `next` is now reported.
    SavingReported,
    /// Waits for the date of the day before.
    ReadingDate,
    /// Waits for the outcome of sending the report.
    Sending,
    /// Done; waits for nothing.
    Finished,
}

/// What the outside world answers to a job's request.
pub enum JobEvent {
    /// The ids of the ToDo, Doing and Done lists, or why they were not found.
    ListsChecked(Result<(String, String, String), AppError>),
    /// The board's cards, or why they could not be read.
    CardsFetched(Result<Vec<TrelloCard>, AppError>),
    /// Whether the card was reported before, or why the store could not say.
    ReportedChecked(Result<bool, AppError>),
    /// Whether the card was recorded as reported.
    ReportedSaved(Result<(), AppError>),
    /// The date of the day before, "dd/mm".
    DateRead(String),
    /// Whether the report was sent.
    MessageSent(Result<(), AppError>),
}

/// What a job asks the outside world to do next.
pub enum JobAction {
    /// Read the board's lists and find the three list ids.
    CheckLists,
    /// Read the board's cards.
    FetchCards,
    /// Ask the store whether the card with this id was reported before.
    IsReported(String),
    /// Record in the store that the card with this id is reported.
    SaveReported(String),
    /// Read the date of the day before.
    ReadDate,
    /// Send `text` to chat `chat_id`.
    SendMessage { chat_id: i64, text: String },
    /// The job is over, with this outcome.
    Finish(Result<(), AppError>),
}

/// The daily report of one user's board, as a sequence of requests to the
/// outside world (Trello, the store of reported cards, the clock, Telegram)
/// and the decisions taken on their answers.
pub struct ReportJob {
    /// The chat that receives the report.
    pub user_id: i64,
    pub stage: JobStage,
    pub todo_id: String,
    pub doing_id: String,
    pub done_id: String,
    pub todo: Vec<TrelloCard>,
    pub doing: Vec<TrelloCard>,
    pub done: Vec<TrelloCard>,
    /// The index of the done card being checked.
    pub next: usize,
    /// The done cards found not reported so far.
    pub fresh: Vec<TrelloCard>,
    /// The store's answers so far, one per done card checked.
    pub answers: Ghost<Seq<bool>>,
}

impl ReportJob {
    /// The job's state is consistent: the answers cover the done cards
    /// checked so far, and the fresh cards are those answered "not reported".
    pub open spec fn wf(&self) -> bool {
        &&& self.next <= self.done@.len()
        &&& self.answers@.len() <= self.done@.len()
        &&& self.fresh@ == unreported(self.done@.take(self.answers@.len() as int), self.answers@)
        &&& match self.stage {
            JobStage::CheckingReported => self.answers@.len() == self.next && self.next
                < self.done@.len(),
            JobStage::SavingReported => self.answers@.len() == self.next + 1 && self.next
                < self.done@.len() && !self.answers@.last(),
            JobStage::ReadingDate | JobStage::Sending => self.answers@.len() == self.done@.len(),
            _ => true,
        }
    }

    /// Whether `event` answers the request the job waits for.
    pub open spec fn awaits(&self, event: JobEvent) -> bool {
        match (self.stage, event) {
            (JobStage::CheckingLists, JobEvent::ListsChecked(_)) => true,
            (JobStage::FetchingCards, JobEvent::CardsFetched(_)) => true,
            (JobStage::CheckingReported, JobEvent::ReportedChecked(_)) => true,
            (JobStage::SavingReported, JobEvent::ReportedSaved(_)) => true,
            (JobStage::ReadingDate, JobEvent::DateRead(_)) => true,
            (JobStage::Sending, JobEvent::MessageSent(_)) => true,
            _ => false,
        }
    }

    /// How far the job is from its end: the stage, then the done cards left.
    pub open spec fn remaining(&self) -> (nat, nat) {
        match self.stage {
            JobStage::CheckingLists => (5, 0),
            JobStage::FetchingCards => (4, 0),
            JobStage::CheckingReported => (3, (2 * (self.done@.len() - self.next) + 1) as nat),
            JobStage::SavingReported => (3, (2 * (self.done@.len() - self.next)) as nat),
            JobStage::ReadingDate => (2, 0),
            JobStage::Sending => (1, 0),
            JobStage::Finished => (0, 0),
        }
    }

    /// A new job for the chat `user_id`, and its first request: the lists.
    pub fn new(user_id: i64) -> (r: (ReportJob, JobAction))
        ensures
            r.0.wf(),
            r.0.user_id == user_id,
            r.0.stage == JobStage::CheckingLists,
            r.1 is CheckLists,
    {
        let job = ReportJob {
            user_id,
            stage: JobStage::CheckingLists,
            todo_id: String::new(),
            doing_id: String::new(),
            done_id: String::new(),
            todo: Vec::new(),
            doing: Vec::new(),
            done: Vec::new(),
            next: 0,
            fresh: Vec::new(),
            answers: Ghost(Seq::empty()),
        };
        proof {
            assert(job.done@.take(0) =~= Seq::<TrelloCard>::empty());
        }
        (job, JobAction::CheckLists)
    }

    /// Whether `event` answers the request the job waits for.
    pub fn is_awaited(&self, event: &JobEvent) -> (r: bool)
        ensures
            r == self.awaits(*event),
    {
        match (self.stage, event) {
            (JobStage::CheckingLists, JobEvent::ListsChecked(_)) => true,
            (JobStage::FetchingCards, JobEvent::CardsFetched(_)) => true,
            (JobStage::CheckingReported, JobEvent::ReportedChecked(_)) => true,
            (JobStage::SavingReported, JobEvent::ReportedSaved(_)) => true,
            (JobStage::ReadingDate, JobEvent::DateRead(_)) => true,
            (JobStage::Sending, JobEvent::MessageSent(_)) => true,
            _ => false,
        }
    }

    /// After the last done card: a report is due when something is new,
    /// in progress or to do; otherwise the job ends without a message.
    fn after_checks(self) -> (r: (ReportJob, JobAction))
        requires
            self.wf(),
            self.answers@.len() == self.done@.len(),
        ensures
            r.0.wf(),
            r.0.user_id == self.user_id,
            r.0.todo == self.todo && r.0.doing == self.doing && r.0.done == self.done,
            r.0.todo_id == self.todo_id && r.0.doing_id == self.doing_id && r.0.done_id
                == self.done_id,
            r.0.answers == self.answers,
            r.0.fresh == self.fresh,
            r.0.next == self.next,
            (self.fresh@.len() > 0 || self.doing@.len() > 0 || self.todo@.len() > 0) ==> {
                &&& r.0.stage == JobStage::ReadingDate
                &&& r.1 is ReadDate
            },
            !(self.fresh@.len() > 0 || self.doing@.len() > 0 || self.todo@.len() > 0) ==> {
                &&& r.0.stage == JobStage::Finished
                &&& r.1 matches JobAction::Finish(Ok(_))
            },
    {
        let mut job = self;
        if job.fresh.len() > 0 || job.doing.len() > 0 || job.todo.len() > 0 {
            job.stage = JobStage::ReadingDate;
            (job, JobAction::ReadDate)
        } else {
            job.stage = JobStage::Finished;
            (job, JobAction::Finish(Ok(())))
        }
    }

    /// Moves on to the done card after `next`, or to the report when there is
    /// none left.
    fn next_card(self) -> (r: (ReportJob, JobAction))
        requires
            self.fresh@ == unreported(self.done@.take(self.answers@.len() as int), self.answers@),
            self.next < self.done@.len(),
            self.answers@.len() == self.next + 1,
        ensures
            r.0.wf(),
            r.0.user_id == self.user_id,
            r.0.todo == self.todo && r.0.doing == self.doing && r.0.done == self.done,
            r.0.todo_id == self.todo_id && r.0.doing_id == self.doing_id && r.0.done_id
                == self.done_id,
            r.0.answers == self.answers,
            r.0.fresh == self.fresh,
            r.0.next == self.next + 1,
            self.next + 1 < self.done@.len() ==> {
                &&& r.0.stage == JobStage::CheckingReported
                &&& r.1 matches JobAction::IsReported(id) && id@ == self.done@[self.next + 1].id@
            },
            self.next + 1 == self.done@.len() ==> (self.fresh@.len() > 0 || self.doing@.len() > 0
                || self.todo@.len() > 0) ==> r.0.stage == JobStage::ReadingDate && r.1 is ReadDate,
            self.next + 1 == self.done@.len() ==> !(self.fresh@.len() > 0 || self.doing@.len() > 0
                || self.todo@.len() > 0) ==> r.0.stage == JobStage::Finished && (r.1 matches JobAction::Finish(Ok(_))),
    {
        let mut job = self;
        let len = job.done.len();
        job.next = job.next + 1;
        if job.next < job.done.len() {
            job.stage = JobStage::CheckingReported;
            let id = job.done[job.next].id.clone();
            (job, JobAction::IsReported(id))
        } else {
            job.stage = JobStage::ReadingDate;
            job.after_checks()
        }
    }

    /// Takes the answer `event` to the job's pending request and returns the
    /// job's new state and its next request.
    ///
    /// Any failure ends the job with that failure. The three list ids lead to
    /// reading the cards; the cards are split by list; each done card is then
    /// checked against the store, and one not reported before joins the
    /// report and is recorded as reported before the next card is checked.
    /// A report is composed, for the date of the day before, only when there
    /// is a new done card, a card in progress or a card to do; it lists the
    /// done cards that the store answered "not reported" for, in order.
    pub fn step(self, event: JobEvent) -> (r: (ReportJob, JobAction))
        requires
            self.wf(),
            self.awaits(event),
        ensures
            r.0.wf(),
            r.0.user_id == self.user_id,
            lex_before(r.0.remaining(), self.remaining()),
            (event is CardsFetched) || (r.0.todo == self.todo && r.0.doing == self.doing
                && r.0.done == self.done),
            (event is ListsChecked) || (r.0.todo_id == self.todo_id && r.0.doing_id
                == self.doing_id && r.0.done_id == self.done_id),
            event matches JobEvent::ListsChecked(Err(e)) ==> r.0.stage == JobStage::Finished
                && r.1 == JobAction::Finish(Err(e)),
            event matches JobEvent::ListsChecked(Ok(ids)) ==> {
                &&& r.0.stage == JobStage::FetchingCards
                &&& r.1 is FetchCards
                &&& r.0.todo_id@ == ids.0@ && r.0.doing_id@ == ids.1@ && r.0.done_id@ == ids.2@
            },
            event matches JobEvent::CardsFetched(Err(e)) ==> r.0.stage == JobStage::Finished
                && r.1 == JobAction::Finish(Err(e)),
            event matches JobEvent::CardsFetched(Ok(cards)) ==> {
                &&& r.0.todo@ == todo_cards(cards@, self.todo_id@)
                &&& r.0.doing@ == doing_cards(cards@, self.todo_id@, self.doing_id@)
                &&& r.0.done@ == done_cards(cards@, self.todo_id@, self.doing_id@, self.done_id@)
                &&& r.0.done@.len() > 0 ==> r.0.stage == JobStage::CheckingReported && r.0.next == 0
                    && (r.1 matches JobAction::IsReported(id) && id@ == r.0.done@[0].id@)
                &&& r.0.done@.len() == 0 && (r.0.doing@.len() > 0 || r.0.todo@.len() > 0)
                    ==> r.0.stage == JobStage::ReadingDate && r.1 is ReadDate
                &&& r.0.done@.len() == 0 && r.0.doing@.len() == 0 && r.0.todo@.len() == 0
                    ==> r.0.stage == JobStage::Finished && (r.1 matches JobAction::Finish(Ok(_)))
            },
            event matches JobEvent::ReportedChecked(Err(e)) ==> r.0.stage == JobStage::Finished
                && r.1 == JobAction::Finish(Err(e)),
            event matches JobEvent::ReportedChecked(Ok(false)) ==> {
                &&& r.0.stage == JobStage::SavingReported
                &&& r.0.next == self.next
                &&& r.0.answers@ == self.answers@.push(false)
                &&& r.1 matches JobAction::SaveReported(id) && id@ == self.done@[self.next as int].id@
            },
            event matches JobEvent::ReportedChecked(Ok(true)) ==> {
                &&& r.0.answers@ == self.answers@.push(true)
                &&& r.0.next == self.next + 1
                &&& self.next + 1 < self.done@.len() ==> r.0.stage == JobStage::CheckingReported
                    && (r.1 matches JobAction::IsReported(id) && id@ == self.done@[self.next + 1].id@)
                &&& self.next + 1 == self.done@.len() && has_news(
                    self.done@,
                    r.0.answers@,
                    self.doing@,
                    self.todo@,
                ) ==> r.0.stage == JobStage::ReadingDate && r.1 is ReadDate
                &&& self.next + 1 == self.done@.len() && !has_news(
                    self.done@,
                    r.0.answers@,
                    self.doing@,
                    self.todo@,
                ) ==> r.0.stage == JobStage::Finished && (r.1 matches JobAction::Finish(Ok(_)))
            },
            event matches JobEvent::ReportedSaved(Err(e)) ==> r.0.stage == JobStage::Finished
                && r.1 == JobAction::Finish(Err(e)),
            event matches JobEvent::ReportedSaved(Ok(())) ==> {
                &&& r.0.answers@ == self.answers@
                &&& r.0.next == self.next + 1
                &&& self.next + 1 < self.done@.len() ==> r.0.stage == JobStage::CheckingReported
                    && (r.1 matches JobAction::IsReported(id) && id@ == self.done@[self.next + 1].id@)
                &&& self.next + 1 == self.done@.len() && has_news(
                    self.done@,
                    r.0.answers@,
                    self.doing@,
                    self.todo@,
                ) ==> r.0.stage == JobStage::ReadingDate && r.1 is ReadDate
                &&& self.next + 1 == self.done@.len() && !has_news(
                    self.done@,
                    r.0.answers@,
                    self.doing@,
                    self.todo@,
                ) ==> r.0.stage == JobStage::Finished && (r.1 matches JobAction::Finish(Ok(_)))
            },
            (r.0.stage == JobStage::ReadingDate && self.stage != JobStage::ReadingDate) ==> {
                &&& r.1 is ReadDate
                &&& unreported(r.0.done@, r.0.answers@).len() > 0 || r.0.doing@.len() > 0
                    || r.0.todo@.len() > 0
            },
            (r.0.stage == JobStage::Finished && self.stage != JobStage::Finished && (r.1 matches JobAction::Finish(Ok(_)))
                && self.stage != JobStage::Sending) ==> {
                &&& unreported(r.0.done@, r.0.answers@).len() == 0
                &&& r.0.doing@.len() == 0
                &&& r.0.todo@.len() == 0
            },
            event matches JobEvent::DateRead(label) ==> {
                &&& r.0.stage == JobStage::Sending
                &&& r.1 matches JobAction::SendMessage { chat_id, text } && chat_id == self.user_id
                    && text@ == report_text(
                    label@,
                    unreported(self.done@, self.answers@),
                    self.doing@,
                    self.todo@,
                )
            },
            event matches JobEvent::MessageSent(outcome) ==> r.0.stage == JobStage::Finished
                && r.1 == JobAction::Finish(outcome),
    {
        let mut job = self;
        match event {
            JobEvent::ListsChecked(Ok((todo_id, doing_id, done_id))) => {
                job.todo_id = todo_id;
                job.doing_id = doing_id;
                job.done_id = done_id;
                job.stage = JobStage::FetchingCards;
                (job, JobAction::FetchCards)
            },
            JobEvent::CardsFetched(Ok(cards)) => {
                let (todo, doing, done) = map_cards_to_lists(
                    cards,
                    job.todo_id.as_str(),
                    job.doing_id.as_str(),
                    job.done_id.as_str(),
                );
                job.todo = todo;
                job.doing = doing;
                job.done = done;
                job.next = 0;
                job.fresh = Vec::new();
                job.answers = Ghost(Seq::empty());
                proof {
                    assert(job.done@.take(0) =~= Seq::<TrelloCard>::empty());
                }
                if job.done.len() > 0 {
                    job.stage = JobStage::CheckingReported;
                    let id = job.done[0].id.clone();
                    (job, JobAction::IsReported(id))
                } else {
                    job.stage = JobStage::ReadingDate;
                    job.after_checks()
                }
            },
            JobEvent::ReportedChecked(Ok(already)) => {
                let ghost before = job.answers@;
                job.answers = Ghost(before.push(already));
                proof {
                    let n = job.next as int;
                    assert(job.done@.take(n + 1).drop_last() =~= job.done@.take(n));
                    assert(job.answers@.drop_last() =~= before);
                    assert(job.done@.take(n + 1).last() == job.done@[n]);
                }
                if already {
                    proof {
                        assert(job.done@.take(job.done@.len() as int) =~= job.done@);
                    }
                    job.next_card()
                } else {
                    let card = job.done[job.next].clone();
                    let id = card.id.clone();
                    job.fresh.push(card);
                    job.stage = JobStage::SavingReported;
                    (job, JobAction::SaveReported(id))
                }
            },
            JobEvent::ReportedSaved(Ok(())) => {
                proof {
                    assert(job.done@.take(job.done@.len() as int) =~= job.done@);
                }
                job.next_card()
            },
            JobEvent::DateRead(label) => {
                proof {
                    assert(job.done@.take(job.done@.len() as int) =~= job.done@);
                }
                let text = generate_report_message(
                    label.as_str(),
                    job.todo.as_slice(),
                    job.doing.as_slice(),
                    job.fresh.as_slice(),
                );
                job.stage = JobStage::Sending;
                let chat_id = job.user_id;
                (job, JobAction::SendMessage { chat_id, text })
            },
            JobEvent::MessageSent(outcome) => {
                job.stage = JobStage::Finished;
                (job, JobAction::Finish(outcome))
            },
            JobEvent::ListsChecked(Err(e)) | JobEvent::CardsFetched(Err(e)) | JobEvent::ReportedChecked(
                Err(e),
            ) | JobEvent::ReportedSaved(Err(e)) => {
                job.stage = JobStage::Finished;
                (job, JobAction::Finish(Err(e)))
            },
        }
    }
}

/// Whether the pair `a` comes strictly before `b` in lexicographic order.
pub open spec fn lex_before(a: (nat, nat), b: (nat, nat)) -> bool {
    a.0 < b.0 || (a.0 == b.0 && a.1 < b.1)
}

} // verus!
