//! Fetching the statistics of a list of names, one request after another.
//!
//! The batch is a state machine. Its driver performs what a step asks for (a
//! request, a look at the interrupt channel) and hands back what came of it.
//! A batch ends in one of two ways: it reports `Done` after the last name, or
//! it is interrupted and then reports nothing more.

use crate::player::{agrees, body_record, player_of_body, Player, PlayerView, Skip};
use crate::stats::StatsType;
use vstd::prelude::*;
use vstd::string::*;

verus! {

/// The usual delay between two requests of a batch, in milliseconds.
pub const RATE_LIMIT_MILLIS: u64 = 50;

/// The address under which the service answers about a name, up to the name.
pub open spec fn endpoint() -> Seq<char> {
    "https://mush.com.br/api/player/"@
}

/// The address under which the service answers about `username`.
pub open spec fn url_of(username: Seq<char>) -> Seq<char> {
    endpoint() + username
}

/// The address under which the service answers about `username`.
pub fn request_url(username: &str) -> (url: String)
    ensures
        url@ == url_of(username@),
{
    String::from_str("https://mush.com.br/api/player/").concat(username)
}

/// What came of one request.
#[derive(Debug, Clone)]
pub enum Reply {
    /// No answer: the request failed, or the answer's text could not be read.
    Failed,
    /// The text of the answer.
    Body(String),
}

/// A `Reply` as plain values: each string as its characters.
pub enum ReplyView {
    Failed,
    Body(Seq<char>),
}

impl View for Reply {
    type V = ReplyView;

    open spec fn view(&self) -> ReplyView {
        match self {
            Reply::Failed => ReplyView::Failed,
            Reply::Body(text) => ReplyView::Body(text@),
        }
    }
}

/// The record that a reply gives for `username`, or why it gives none.
pub open spec fn reply_record(username: Seq<char>, reply: ReplyView, stats_type: StatsType)
    -> Result<PlayerView, Skip> {
    match reply {
        ReplyView::Failed => Err(Skip::NoAnswer),
        ReplyView::Body(text) => body_record(username, text, stats_type),
    }
}

/// The record that a reply gives for `username`, or why it gives none.
pub fn get_player(username: &str, reply: &Reply, stats_type: StatsType) -> (outcome: Result<
    Player,
    Skip,
>)
    ensures
        agrees(outcome, reply_record(username@, reply@, stats_type)),
{
    match reply {
        Reply::Failed => Err(Skip::NoAnswer),
        Reply::Body(text) => player_of_body(username, text.as_str(), stats_type),
    }
}

/// What a batch hands to its consumer.
#[derive(Debug, Clone)]
pub enum FetchEvent {
    /// The record of one name.
    Record(Player),
    /// The end of a batch that was not interrupted.
    Done,
}

/// A `FetchEvent` as plain values: each string as its characters.
pub enum FetchEventView {
    Record(PlayerView),
    Done,
}

impl View for FetchEvent {
    type V = FetchEventView;

    open spec fn view(&self) -> FetchEventView {
        match self {
            FetchEvent::Record(player) => FetchEventView::Record(player@),
            FetchEvent::Done => FetchEventView::Done,
        }
    }
}

/// What the driver tells a batch.
#[derive(Debug, Clone)]
pub enum FetchInput {
    /// What came of the request that the batch asked for.
    Reply(Reply),
    /// The interrupt channel was looked at; `interrupted` says whether a
    /// signal was waiting in it.
    Checked { interrupted: bool },
}

/// A `FetchInput` as plain values: each string as its characters.
pub enum FetchInputView {
    Reply(ReplyView),
    Checked { interrupted: bool },
}

impl View for FetchInput {
    type V = FetchInputView;

    open spec fn view(&self) -> FetchInputView {
        match self {
            FetchInput::Reply(reply) => FetchInputView::Reply(reply@),
            FetchInput::Checked { interrupted } => FetchInputView::Checked {
                interrupted: *interrupted,
            },
        }
    }
}

/// What the driver is to do next.
#[derive(Debug, Clone)]
pub enum FetchAction {
    /// Wait `delay_millis`, request `url`, and hand in the reply.
    Request { url: String, delay_millis: u64 },
    /// Look at the interrupt channel without waiting, and hand in what was
    /// found.
    CheckInterrupt,
    /// The batch is over.
    Stop,
}

/// A `FetchAction` as plain values: each string as its characters.
pub enum FetchActionView {
    Request { url: Seq<char>, delay_millis: int },
    CheckInterrupt,
    Stop,
}

impl View for FetchAction {
    type V = FetchActionView;

    open spec fn view(&self) -> FetchActionView {
        match self {
            FetchAction::Request { url, delay_millis } => FetchActionView::Request {
                url: url@,
                delay_millis: *delay_millis as int,
            },
            FetchAction::CheckInterrupt => FetchActionView::CheckInterrupt,
            FetchAction::Stop => FetchActionView::Stop,
        }
    }
}

/// The outcome of one step: at most one event for the consumer, the reason
/// if the step passed a name over, and what the driver is to do next.
#[derive(Debug, Clone)]
pub struct FetchStep {
    pub event: Option<FetchEvent>,
    pub skipped: Option<Skip>,
    pub action: FetchAction,
}

/// The outcome of one step as plain values.
pub struct FetchStepView {
    pub event: Option<FetchEventView>,
    pub skipped: Option<Skip>,
    pub action: FetchActionView,
}

impl View for FetchStep {
    type V = FetchStepView;

    open spec fn view(&self) -> FetchStepView {
        FetchStepView {
            event: match self.event {
                Some(event) => Some(event@),
                None => None,
            },
            skipped: self.skipped,
            action: self.action@,
        }
    }
}

/// Where a batch stands.
#[derive(Debug, Clone, Copy, PartialEq, Eq, Structural)]
pub enum Phase {
    /// A request for the current name is under way.
    AwaitingReply,
    /// The current name is dealt with; the interrupt channel is to be looked at.
    AwaitingCheck,
    /// Every name was dealt with, and `Done` was reported.
    Finished,
    /// An interrupt ended the batch.
    Interrupted,
}

/// A batch as plain values: the names, the mode, the delay between two
/// requests in milliseconds, the index of the current name, and the phase.
pub struct BatchView {
    pub usernames: Seq<Seq<char>>,
    pub stats_type: StatsType,
    pub rate_limit: int,
    pub position: int,
    pub phase: Phase,
}

impl BatchView {
    /// While a batch is under way its current name is one of the list.
    pub open spec fn wf(self) -> bool {
        &&& 0 <= self.position <= self.usernames.len()
        &&& (self.phase == Phase::AwaitingReply || self.phase == Phase::AwaitingCheck)
            ==> self.position < self.usernames.len()
    }

    /// What the batch waits for its driver to do.
    pub open spec fn pending(self) -> FetchActionView {
        match self.phase {
            Phase::AwaitingReply => FetchActionView::Request {
                url: url_of(self.usernames[self.position]),
                delay_millis: self.rate_limit,
            },
            Phase::AwaitingCheck => FetchActionView::CheckInterrupt,
            Phase::Finished | Phase::Interrupted => FetchActionView::Stop,
        }
    }
}

/// The batch for a list of names, and its first step: with no name the batch
/// is done at once; else the first name is requested without delay.
pub open spec fn start_model(usernames: Seq<Seq<char>>, stats_type: StatsType, rate_limit: int)
    -> (BatchView, FetchStepView) {
    if usernames.len() == 0 {
        (
            BatchView { usernames, stats_type, rate_limit, position: 0, phase: Phase::Finished },
            FetchStepView {
                event: Some(FetchEventView::Done),
                skipped: None,
                action: FetchActionView::Stop,
            },
        )
    } else {
        (
            BatchView {
                usernames,
                stats_type,
                rate_limit,
                position: 0,
                phase: Phase::AwaitingReply,
            },
            FetchStepView {
                event: None,
                skipped: None,
                action: FetchActionView::Request { url: url_of(usernames[0]), delay_millis: 0 },
            },
        )
    }
}

/// One step of a batch.
///
/// A reply to the request under way gives the record of the current name, if
/// it gives one, and has the interrupt channel looked at. If a signal was
/// waiting there the batch ends without a word. If none was, the next name is
/// requested after the rate-limit delay, or, after the last name, `Done` is
/// reported. An input that the batch does not wait for changes nothing: the
/// batch asks again for what it waits for.
pub open spec fn step_model(batch: BatchView, input: FetchInputView) -> (BatchView, FetchStepView) {
    match (batch.phase, input) {
        (Phase::AwaitingReply, FetchInputView::Reply(reply)) => (
            BatchView { phase: Phase::AwaitingCheck, ..batch },
            FetchStepView {
                event: match reply_record(
                    batch.usernames[batch.position],
                    reply,
                    batch.stats_type,
                ) {
                    Ok(player) => Some(FetchEventView::Record(player)),
                    Err(_) => None,
                },
                skipped: match reply_record(
                    batch.usernames[batch.position],
                    reply,
                    batch.stats_type,
                ) {
                    Ok(_) => None,
                    Err(reason) => Some(reason),
                },
                action: FetchActionView::CheckInterrupt,
            },
        ),
        (Phase::AwaitingCheck, FetchInputView::Checked { interrupted }) => if interrupted {
            (
                BatchView { phase: Phase::Interrupted, ..batch },
                FetchStepView { event: None, skipped: None, action: FetchActionView::Stop },
            )
        } else if batch.position + 1 < batch.usernames.len() {
            (
                BatchView { position: batch.position + 1, phase: Phase::AwaitingReply, ..batch },
                FetchStepView {
                    event: None,
                    skipped: None,
                    action: FetchActionView::Request {
                        url: url_of(batch.usernames[batch.position + 1]),
                        delay_millis: batch.rate_limit,
                    },
                },
            )
        } else {
            (
                BatchView { position: batch.position + 1, phase: Phase::Finished, ..batch },
                FetchStepView {
                    event: Some(FetchEventView::Done),
                    skipped: None,
                    action: FetchActionView::Stop,
                },
            )
        },
        _ => (batch, FetchStepView { event: None, skipped: None, action: batch.pending() }),
    }
}

/// The batch after a sequence of inputs, and the events that it handed out
/// on the way, in order.
pub open spec fn run(batch: BatchView, inputs: Seq<FetchInputView>) -> (
    BatchView,
    Seq<FetchEventView>,
)
    decreases inputs.len(),
{
    if inputs.len() == 0 {
        (batch, Seq::empty())
    } else {
        let (before, events) = run(batch, inputs.drop_last());
        let (after, step) = step_model(before, inputs.last());
        (
            after,
            match step.event {
                Some(event) => events.push(event),
                None => events,
            },
        )
    }
}

/// The inputs of a driver that gets `replies`, one for each name from the
/// first on, and finds no interrupt signal after any of them, except, if
/// `interrupt_last`, after the last.
pub open spec fn rounds(replies: Seq<ReplyView>, interrupt_last: bool) -> Seq<FetchInputView>
    decreases replies.len(),
{
    if replies.len() == 0 {
        Seq::empty()
    } else {
        rounds(replies.drop_last(), false).push(FetchInputView::Reply(replies.last())).push(
            FetchInputView::Checked { interrupted: interrupt_last },
        )
    }
}

/// The records that `replies` give for the first names of the list, one
/// reply for each name, in the order of the names. A name whose reply gives
/// no record leaves a gap.
pub open spec fn records(
    usernames: Seq<Seq<char>>,
    replies: Seq<ReplyView>,
    stats_type: StatsType,
) -> Seq<FetchEventView>
    decreases replies.len(),
{
    if replies.len() == 0 {
        Seq::empty()
    } else {
        let earlier = records(usernames, replies.drop_last(), stats_type);
        match reply_record(usernames[replies.len() - 1], replies.last(), stats_type) {
            Ok(player) => earlier.push(FetchEventView::Record(player)),
            Err(_) => earlier,
        }
    }
}

/// `records` holds records only, at most one for each reply.
pub proof fn lemma_records_shape(
    usernames: Seq<Seq<char>>,
    replies: Seq<ReplyView>,
    stats_type: StatsType,
)
    ensures
        records(usernames, replies, stats_type).len() <= replies.len(),
        forall|i: int|
            0 <= i < records(usernames, replies, stats_type).len() ==> (#[trigger] records(
                usernames,
                replies,
                stats_type,
            )[i]) is Record,
    decreases replies.len(),
{
    if replies.len() > 0 {
        lemma_records_shape(usernames, replies.drop_last(), stats_type);
    }
}

/// One more input takes the run one step further.
pub proof fn lemma_run_push(batch: BatchView, inputs: Seq<FetchInputView>, input: FetchInputView)
    ensures
        run(batch, inputs.push(input)) == ({
            let (before, events) = run(batch, inputs);
            let (after, step) = step_model(before, input);
            (
                after,
                match step.event {
                    Some(event) => events.push(event),
                    None => events,
                },
            )
        }),
{
    assert(inputs.push(input).drop_last() =~= inputs);
}

/// A batch that is over stays as it is and hands out nothing more, whatever
/// it is told: after `Done` nothing follows, and after an interrupt no `Done`.
pub proof fn lemma_over_is_silent(batch: BatchView, input: FetchInputView)
    requires
        batch.phase == Phase::Finished || batch.phase == Phase::Interrupted,
    ensures
        step_model(batch, input) == (
            batch,
            FetchStepView { event: None, skipped: None, action: FetchActionView::Stop },
        ),
{
}

/// A batch that is over hands out nothing over any sequence of inputs.
pub proof fn lemma_over_stays_silent(batch: BatchView, inputs: Seq<FetchInputView>)
    requires
        batch.phase == Phase::Finished || batch.phase == Phase::Interrupted,
    ensures
        run(batch, inputs) == (batch, Seq::<FetchEventView>::empty()),
    decreases inputs.len(),
{
    if inputs.len() > 0 {
        lemma_over_stays_silent(batch, inputs.drop_last());
        lemma_over_is_silent(batch, inputs.last());
    }
}

/// While no interrupt signal is found and names are left, the batch hands out
/// exactly the records of the names dealt with, and then requests the next.
pub proof fn lemma_uninterrupted_rounds(
    usernames: Seq<Seq<char>>,
    stats_type: StatsType,
    rate_limit: int,
    replies: Seq<ReplyView>,
)
    requires
        replies.len() < usernames.len(),
    ensures
        run(start_model(usernames, stats_type, rate_limit).0, rounds(replies, false)) == (
            BatchView {
                usernames,
                stats_type,
                rate_limit,
                position: replies.len() as int,
                phase: Phase::AwaitingReply,
            },
            records(usernames, replies, stats_type),
        ),
    decreases replies.len(),
{
    let start = start_model(usernames, stats_type, rate_limit).0;
    if replies.len() > 0 {
        let earlier = replies.drop_last();
        lemma_uninterrupted_rounds(usernames, stats_type, rate_limit, earlier);
        let replied = rounds(earlier, false).push(FetchInputView::Reply(replies.last()));
        lemma_run_push(start, rounds(earlier, false), FetchInputView::Reply(replies.last()));
        lemma_run_push(start, replied, FetchInputView::Checked { interrupted: false });
    }
}

/// An interrupt after the first `replies.len()` names of the list leaves
/// exactly the records that their replies give, in the order of the names,
/// and no `Done`; the batch is then over.
pub proof fn lemma_interrupted_batch(
    usernames: Seq<Seq<char>>,
    stats_type: StatsType,
    rate_limit: int,
    replies: Seq<ReplyView>,
)
    requires
        1 <= replies.len() <= usernames.len(),
    ensures
        run(start_model(usernames, stats_type, rate_limit).0, rounds(replies, true)) == (
            BatchView {
                usernames,
                stats_type,
                rate_limit,
                position: replies.len() - 1,
                phase: Phase::Interrupted,
            },
            records(usernames, replies, stats_type),
        ),
        !records(usernames, replies, stats_type).contains(FetchEventView::Done),
{
    let start = start_model(usernames, stats_type, rate_limit).0;
    let earlier = replies.drop_last();
    lemma_uninterrupted_rounds(usernames, stats_type, rate_limit, earlier);
    let replied = rounds(earlier, false).push(FetchInputView::Reply(replies.last()));
    lemma_run_push(start, rounds(earlier, false), FetchInputView::Reply(replies.last()));
    lemma_run_push(start, replied, FetchInputView::Checked { interrupted: true });
    lemma_records_shape(usernames, replies, stats_type);
}

/// A batch that is never interrupted hands out the records that the replies
/// give, in the order of the names, and `Done` after them.
pub proof fn lemma_completed_batch(
    usernames: Seq<Seq<char>>,
    stats_type: StatsType,
    rate_limit: int,
    replies: Seq<ReplyView>,
)
    requires
        1 <= replies.len() == usernames.len(),
    ensures
        run(start_model(usernames, stats_type, rate_limit).0, rounds(replies, false)) == (
            BatchView {
                usernames,
                stats_type,
                rate_limit,
                position: usernames.len() as int,
                phase: Phase::Finished,
            },
            records(usernames, replies, stats_type).push(FetchEventView::Done),
        ),
{
    let start = start_model(usernames, stats_type, rate_limit).0;
    let earlier = replies.drop_last();
    lemma_uninterrupted_rounds(usernames, stats_type, rate_limit, earlier);
    let replied = rounds(earlier, false).push(FetchInputView::Reply(replies.last()));
    lemma_run_push(start, rounds(earlier, false), FetchInputView::Reply(replies.last()));
    lemma_run_push(start, replied, FetchInputView::Checked { interrupted: false });
}

/// The delay that an action has the driver wait.
pub open spec fn delay_of(action: FetchActionView) -> int {
    match action {
        FetchActionView::Request { delay_millis, .. } => delay_millis,
        _ => 0,
    }
}

/// All the delays that a batch has its driver wait over a sequence of inputs.
pub open spec fn total_delay(batch: BatchView, inputs: Seq<FetchInputView>) -> int
    decreases inputs.len(),
{
    if inputs.len() == 0 {
        0
    } else {
        total_delay(batch, inputs.drop_last()) + delay_of(
            step_model(run(batch, inputs.drop_last()).0, inputs.last()).1.action,
        )
    }
}

/// One more input adds the delay of its step.
pub proof fn lemma_total_delay_push(
    batch: BatchView,
    inputs: Seq<FetchInputView>,
    input: FetchInputView,
)
    ensures
        total_delay(batch, inputs.push(input)) == total_delay(batch, inputs) + delay_of(
            step_model(run(batch, inputs).0, input).1.action,
        ),
{
    assert(inputs.push(input).drop_last() =~= inputs);
}

/// While names are left, the driver waits the rate limit once for each name
/// dealt with.
pub proof fn lemma_delay_of_rounds(
    usernames: Seq<Seq<char>>,
    stats_type: StatsType,
    rate_limit: int,
    replies: Seq<ReplyView>,
)
    requires
        replies.len() < usernames.len(),
    ensures
        total_delay(start_model(usernames, stats_type, rate_limit).0, rounds(replies, false))
            == replies.len() * rate_limit,
    decreases replies.len(),
{
    let start = start_model(usernames, stats_type, rate_limit).0;
    if replies.len() > 0 {
        let earlier = replies.drop_last();
        lemma_delay_of_rounds(usernames, stats_type, rate_limit, earlier);
        lemma_uninterrupted_rounds(usernames, stats_type, rate_limit, earlier);
        let replied = rounds(earlier, false).push(FetchInputView::Reply(replies.last()));
        lemma_run_push(start, rounds(earlier, false), FetchInputView::Reply(replies.last()));
        lemma_total_delay_push(start, rounds(earlier, false), FetchInputView::Reply(replies.last()));
        lemma_total_delay_push(start, replied, FetchInputView::Checked { interrupted: false });
        assert(earlier.len() * rate_limit + rate_limit == replies.len() * rate_limit)
            by (nonlinear_arith)
            requires
                earlier.len() + 1 == replies.len(),
        ;
    }
}

/// A batch of `n` names that is never interrupted waits the rate limit
/// `n - 1` times: once between each two requests, and not before the first
/// nor after the last.
pub proof fn lemma_delay_of_completed_batch(
    usernames: Seq<Seq<char>>,
    stats_type: StatsType,
    rate_limit: int,
    replies: Seq<ReplyView>,
)
    requires
        1 <= replies.len() == usernames.len(),
    ensures
        delay_of(start_model(usernames, stats_type, rate_limit).1.action) == 0,
        total_delay(start_model(usernames, stats_type, rate_limit).0, rounds(replies, false)) == (
            usernames.len() - 1) * rate_limit,
{
    let start = start_model(usernames, stats_type, rate_limit).0;
    let earlier = replies.drop_last();
    lemma_delay_of_rounds(usernames, stats_type, rate_limit, earlier);
    lemma_uninterrupted_rounds(usernames, stats_type, rate_limit, earlier);
    let replied = rounds(earlier, false).push(FetchInputView::Reply(replies.last()));
    lemma_run_push(start, rounds(earlier, false), FetchInputView::Reply(replies.last()));
    lemma_total_delay_push(start, rounds(earlier, false), FetchInputView::Reply(replies.last()));
    lemma_total_delay_push(start, replied, FetchInputView::Checked { interrupted: false });
}

/// Every step keeps a batch well formed.
pub proof fn lemma_step_keeps_wf(batch: BatchView, input: FetchInputView)
    requires
        batch.wf(),
    ensures
        step_model(batch, input).0.wf(),
        step_model(batch, input).0.usernames == batch.usernames,
        step_model(batch, input).0.stats_type == batch.stats_type,
        step_model(batch, input).0.rate_limit == batch.rate_limit,
        step_model(batch, input).0.position >= batch.position,
{
}

/// A batch of names whose statistics are fetched in order.
#[derive(Debug)]
pub struct FetchBatch {
    usernames: Vec<String>,
    stats_type: StatsType,
    rate_limit_millis: u64,
    position: usize,
    phase: Phase,
}

impl View for FetchBatch {
    type V = BatchView;

    closed spec fn view(&self) -> BatchView {
        BatchView {
            usernames: self.usernames@.map_values(|name: String| name@),
            stats_type: self.stats_type,
            rate_limit: self.rate_limit_millis as int,
            position: self.position as int,
            phase: self.phase,
        }
    }
}

impl FetchBatch {
    #[verifier::type_invariant]
    spec fn well_formed(self) -> bool {
        &&& self.position <= self.usernames.len()
        &&& (self.phase == Phase::AwaitingReply || self.phase == Phase::AwaitingCheck)
            ==> self.position < self.usernames.len()
    }

    /// Where the batch stands.
    pub fn phase(&self) -> (phase: Phase)
        ensures
            phase == self@.phase,
    {
        self.phase
    }

    /// The index of the current name; after the last name, the number of names.
    pub fn position(&self) -> (position: usize)
        ensures
            position == self@.position,
    {
        self.position
    }

    /// Whether the batch is over, one way or the other.
    pub fn is_over(&self) -> (over: bool)
        ensures
            over == (self@.phase == Phase::Finished || self@.phase == Phase::Interrupted),
    {
        match self.phase {
            Phase::Finished | Phase::Interrupted => true,
            _ => false,
        }
    }

    fn pending_action(&self) -> (action: FetchAction)
        ensures
            action@ == self@.pending(),
    {
        proof {
            use_type_invariant(self);
        }
        match self.phase {
            Phase::AwaitingReply => FetchAction::Request {
                url: request_url(self.usernames[self.position].as_str()),
                delay_millis: self.rate_limit_millis,
            },
            Phase::AwaitingCheck => FetchAction::CheckInterrupt,
            Phase::Finished | Phase::Interrupted => FetchAction::Stop,
        }
    }

    /// Takes one input and says what follows from it.
    pub fn step(&mut self, input: &FetchInput) -> (step: FetchStep)
        ensures
            old(self)@.wf(),
            (final(self)@, step@) == step_model(old(self)@, input@),
    {
        proof {
            use_type_invariant(&*self);
        }
        match (self.phase, input) {
            (Phase::AwaitingReply, FetchInput::Reply(reply)) => {
                let outcome = get_player(
                    self.usernames[self.position].as_str(),
                    reply,
                    self.stats_type,
                );
                self.phase = Phase::AwaitingCheck;
                let (event, skipped) = match outcome {
                    Ok(player) => (Some(FetchEvent::Record(player)), None),
                    Err(reason) => (None, Some(reason)),
                };
                FetchStep { event, skipped, action: FetchAction::CheckInterrupt }
            },
            (Phase::AwaitingCheck, FetchInput::Checked { interrupted }) => {
                if *interrupted {
                    self.phase = Phase::Interrupted;
                    FetchStep { event: None, skipped: None, action: FetchAction::Stop }
                } else if self.position + 1 < self.usernames.len() {
                    self.position = self.position + 1;
                    self.phase = Phase::AwaitingReply;
                    FetchStep {
                        event: None,
                        skipped: None,
                        action: FetchAction::Request {
                            url: request_url(self.usernames[self.position].as_str()),
                            delay_millis: self.rate_limit_millis,
                        },
                    }
                } else {
                    self.phase = Phase::Finished;
                    self.position = self.position + 1;
                    FetchStep {
                        event: Some(FetchEvent::Done),
                        skipped: None,
                        action: FetchAction::Stop,
                    }
                }
            },
            _ => FetchStep { event: None, skipped: None, action: self.pending_action() },
        }
    }
}

impl FetchBatch {
    /// Starts a batch for a list of names with `rate_limit_millis` between two
    /// requests, and says what its driver is to do first.
    pub fn start(str_player_list: Vec<String>, stats_type: StatsType, rate_limit_millis: u64) -> (started:
        (FetchBatch, FetchStep))
        ensures
            started.0@.wf(),
            (started.0@, started.1@) == start_model(
                str_player_list@.map_values(|name: String| name@),
                stats_type,
                rate_limit_millis as int,
            ),
    {
        if str_player_list.len() == 0 {
            (
                FetchBatch {
                    usernames: str_player_list,
                    stats_type,
                    rate_limit_millis,
                    position: 0,
                    phase: Phase::Finished,
                },
                FetchStep {
                    event: Some(FetchEvent::Done),
                    skipped: None,
                    action: FetchAction::Stop,
                },
            )
        } else {
            let url = request_url(str_player_list[0].as_str());
            (
                FetchBatch {
                    usernames: str_player_list,
                    stats_type,
                    rate_limit_millis,
                    position: 0,
                    phase: Phase::AwaitingReply,
                },
                FetchStep {
                    event: None,
                    skipped: None,
                    action: FetchAction::Request { url, delay_millis: 0 },
                },
            )
        }
    }
}

/// Starts a batch for a list of names with the usual delay between two
/// requests, and says what its driver is to do first.
pub fn get_players(str_player_list: Vec<String>, stats_type: StatsType) -> (started: (
    FetchBatch,
    FetchStep,
))
    ensures
        started.0@.wf(),
        (started.0@, started.1@) == start_model(
            str_player_list@.map_values(|name: String| name@),
            stats_type,
            RATE_LIMIT_MILLIS as int,
        ),
{
    FetchBatch::start(str_player_list, stats_type, RATE_LIMIT_MILLIS)
}

} // verus!
