//! Following a log file as it grows.
//!
//! The tailer is a state machine. Its driver owns the file and the control
//! channel: it performs what a step asks for (opening the log of a client,
//! reading at an offset, looking at the control channel) and hands back what
//! came of it. The tailer never ends on its own: a file that is not there and
//! a read that fails are waited out, until a command names another client.

use crate::lines::{
    bytes_of, concat_all, emitted_lines, feed_all, lemma_every_line_once,
    lemma_remainder_is_open, remainder, LineBuffer,
};
use crate::source::{MineClient, MineClientView};
use crate::text::lemma_split_whole;
use vstd::prelude::*;

verus! {

/// How long the tailer waits, in milliseconds, before it reads again at the
/// end of the file, and before it tries again to open a file that is not
/// there.
pub const POLL_INTERVAL_MILLIS: u64 = 500;

/// Where a tailer stands.
#[derive(Debug, Clone, Copy, PartialEq, Eq, Structural)]
pub enum TailPhase {
    /// No client was named yet.
    AwaitingSource,
    /// The log of the client is being opened.
    Opening,
    /// The log was not there; the control channel is looked at before the
    /// next try.
    OpeningPoll,
    /// The log is open, and a read is under way.
    Reading,
    /// A read is dealt with; the control channel is looked at before the next.
    ReadingPoll,
}

/// What the driver tells a tailer.
#[derive(Debug)]
pub enum TailInput {
    /// A command named the client whose log is to be followed from now on.
    Source(MineClient),
    /// The control channel held no command.
    NoCommand,
    /// The log was opened; it holds `size` bytes.
    Opened { size: u64 },
    /// The log could not be opened.
    OpenFailed,
    /// A read gave these bytes.
    Data(Vec<u8>),
    /// A read found nothing new.
    EndOfFile,
    /// A read failed.
    ReadFailed,
}

/// A `TailInput` as plain values: bytes and strings as sequences.
pub enum TailInputView {
    Source(MineClientView),
    NoCommand,
    Opened { size: int },
    OpenFailed,
    Data(Seq<u8>),
    EndOfFile,
    ReadFailed,
}

impl View for TailInput {
    type V = TailInputView;

    open spec fn view(&self) -> TailInputView {
        match self {
            TailInput::Source(client) => TailInputView::Source(client@),
            TailInput::NoCommand => TailInputView::NoCommand,
            TailInput::Opened { size } => TailInputView::Opened { size: *size as int },
            TailInput::OpenFailed => TailInputView::OpenFailed,
            TailInput::Data(bytes) => TailInputView::Data(bytes@),
            TailInput::EndOfFile => TailInputView::EndOfFile,
            TailInput::ReadFailed => TailInputView::ReadFailed,
        }
    }
}

/// What the driver is to do next.
#[derive(Debug)]
pub enum TailAction {
    /// Wait for a command on the control channel, and hand it in.
    AwaitSource,
    /// Close the file that is open, if any; open the log of `source`, and
    /// hand in its size or the failure.
    Open { source: MineClient },
    /// Read from the open file at `offset`, and hand in what came.
    Read { offset: u64 },
    /// Wait `delay_millis`; then look at the control channel without
    /// waiting, and hand in the command or its absence.
    Poll { delay_millis: u64 },
}

/// A `TailAction` as plain values: bytes and strings as sequences.
pub enum TailActionView {
    AwaitSource,
    Open { source: MineClientView },
    Read { offset: int },
    Poll { delay_millis: int },
}

impl View for TailAction {
    type V = TailActionView;

    open spec fn view(&self) -> TailActionView {
        match self {
            TailAction::AwaitSource => TailActionView::AwaitSource,
            TailAction::Open { source } => TailActionView::Open { source: source@ },
            TailAction::Read { offset } => TailActionView::Read { offset: *offset as int },
            TailAction::Poll { delay_millis } => TailActionView::Poll {
                delay_millis: *delay_millis as int,
            },
        }
    }
}

/// The outcome of one step: the lines that it completed, in order, and what
/// the driver is to do next.
#[derive(Debug)]
pub struct TailStep {
    pub lines: Vec<Vec<u8>>,
    pub action: TailAction,
}

/// A `TailStep` as plain values: bytes and strings as sequences.
pub struct TailStepView {
    pub lines: Seq<Seq<u8>>,
    pub action: TailActionView,
}

impl View for TailStep {
    type V = TailStepView;

    open spec fn view(&self) -> TailStepView {
        TailStepView { lines: bytes_of(self.lines@), action: self.action@ }
    }
}

/// A tailer as plain values: the phase, the client whose log is followed,
/// the offset of the next read, and the bytes of the line that is not
/// complete yet.
pub struct TailerView {
    pub phase: TailPhase,
    pub source: Option<MineClientView>,
    pub offset: int,
    pub pending: Seq<u8>,
}

/// The offset after `count` more bytes. It stops at the largest offset that
/// a file can have.
pub open spec fn advance(offset: int, count: int) -> int {
    if offset + count > u64::MAX {
        u64::MAX as int
    } else {
        offset + count
    }
}

impl TailerView {
    /// A tailer follows a client from the first command on, its offset is
    /// one of a file, and what waits in its buffer holds no complete line.
    pub open spec fn wf(self) -> bool {
        &&& self.phase != TailPhase::AwaitingSource ==> self.source is Some
        &&& 0 <= self.offset <= u64::MAX
        &&& remainder(self.pending) == self.pending
    }

    /// Whether no file is open: whatever is handed in, no line comes out.
    pub open spec fn is_closed(self) -> bool {
        self.phase == TailPhase::AwaitingSource || self.phase == TailPhase::Opening || self.phase
            == TailPhase::OpeningPoll
    }

    /// What the tailer waits for its driver to do.
    pub open spec fn pending_action(self) -> TailActionView {
        match self.phase {
            TailPhase::AwaitingSource => TailActionView::AwaitSource,
            TailPhase::Opening => TailActionView::Open { source: self.source->0 },
            TailPhase::OpeningPoll => TailActionView::Poll {
                delay_millis: POLL_INTERVAL_MILLIS as int,
            },
            TailPhase::Reading => TailActionView::Read { offset: self.offset },
            TailPhase::ReadingPoll => TailActionView::Poll { delay_millis: 0 },
        }
    }
}

/// A tailer before its first command.
pub open spec fn initial_tailer() -> TailerView {
    TailerView {
        phase: TailPhase::AwaitingSource,
        source: None,
        offset: 0,
        pending: Seq::empty(),
    }
}

/// One step of a tailer.
///
/// A command is obeyed whenever it is handed in: what waits in the buffer is
/// dropped, and the log of the client that it names is opened. A log that
/// opens is read from its end on, so that nothing written before is handed
/// out. One that is not there is tried again after a look at the control
/// channel. A read that gives bytes hands out the lines that they complete;
/// at the end of the file the tailer waits before the next read; a failed
/// read is tried again. After each read the control channel is looked at. An
/// input that the tailer does not wait for changes nothing: the tailer asks
/// again for what it waits for.
pub open spec fn step_model(tailer: TailerView, input: TailInputView) -> (TailerView, TailStepView) {
    match (tailer.phase, input) {
        (_, TailInputView::Source(client)) => (
            TailerView {
                phase: TailPhase::Opening,
                source: Some(client),
                offset: 0,
                pending: Seq::empty(),
            },
            TailStepView { lines: Seq::empty(), action: TailActionView::Open { source: client } },
        ),
        (TailPhase::Opening, TailInputView::Opened { size }) => (
            TailerView { phase: TailPhase::Reading, offset: size, pending: Seq::empty(), ..tailer },
            TailStepView { lines: Seq::empty(), action: TailActionView::Read { offset: size } },
        ),
        (TailPhase::Opening, TailInputView::OpenFailed) => (
            TailerView { phase: TailPhase::OpeningPoll, ..tailer },
            TailStepView {
                lines: Seq::empty(),
                action: TailActionView::Poll { delay_millis: POLL_INTERVAL_MILLIS as int },
            },
        ),
        (TailPhase::OpeningPoll, TailInputView::NoCommand) => (
            TailerView { phase: TailPhase::Opening, ..tailer },
            TailStepView {
                lines: Seq::empty(),
                action: TailActionView::Open { source: tailer.source->0 },
            },
        ),
        (TailPhase::Reading, TailInputView::Data(bytes)) => (
            TailerView {
                phase: TailPhase::ReadingPoll,
                offset: advance(tailer.offset, bytes.len() as int),
                pending: remainder(tailer.pending + bytes),
                ..tailer
            },
            TailStepView {
                lines: emitted_lines(tailer.pending, bytes),
                action: TailActionView::Poll { delay_millis: 0 },
            },
        ),
        (TailPhase::Reading, TailInputView::EndOfFile) => (
            TailerView { phase: TailPhase::ReadingPoll, ..tailer },
            TailStepView {
                lines: Seq::empty(),
                action: TailActionView::Poll { delay_millis: POLL_INTERVAL_MILLIS as int },
            },
        ),
        (TailPhase::Reading, TailInputView::ReadFailed) => (
            TailerView { phase: TailPhase::ReadingPoll, ..tailer },
            TailStepView { lines: Seq::empty(), action: TailActionView::Poll { delay_millis: 0 } },
        ),
        (TailPhase::ReadingPoll, TailInputView::NoCommand) => (
            TailerView { phase: TailPhase::Reading, ..tailer },
            TailStepView {
                lines: Seq::empty(),
                action: TailActionView::Read { offset: tailer.offset },
            },
        ),
        _ => (tailer, TailStepView { lines: Seq::empty(), action: tailer.pending_action() }),
    }
}

/// The tailer after a sequence of inputs, and the lines that it handed out
/// on the way, in order.
pub open spec fn run(tailer: TailerView, inputs: Seq<TailInputView>) -> (TailerView, Seq<Seq<u8>>)
    decreases inputs.len(),
{
    if inputs.len() == 0 {
        (tailer, Seq::empty())
    } else {
        let (before, lines) = run(tailer, inputs.drop_last());
        let (after, step) = step_model(before, inputs.last());
        (after, lines + step.lines)
    }
}

/// One more input takes the run one step further.
pub proof fn lemma_run_push(tailer: TailerView, inputs: Seq<TailInputView>, input: TailInputView)
    ensures
        run(tailer, inputs.push(input)) == ({
            let (before, lines) = run(tailer, inputs);
            let (after, step) = step_model(before, input);
            (after, lines + step.lines)
        }),
{
    assert(inputs.push(input).drop_last() =~= inputs);
}

/// Every step keeps a tailer well formed.
pub proof fn lemma_step_keeps_wf(tailer: TailerView, input: TailInputView)
    requires
        tailer.wf(),
        input matches TailInputView::Opened { size } ==> 0 <= size <= u64::MAX,
    ensures
        step_model(tailer, input).0.wf(),
{
    lemma_split_whole(Seq::<u8>::empty(), crate::lines::LINE_FEED);
    match input {
        TailInputView::Data(bytes) => {
            lemma_remainder_is_open(tailer.pending + bytes);
        },
        _ => {},
    }
}

/// A command makes the tailer start afresh: what waited in the buffer is
/// dropped, no line comes out, and the log of the named client is opened.
pub proof fn lemma_switch_starts_afresh(tailer: TailerView, client: MineClientView)
    ensures
        step_model(tailer, TailInputView::Source(client)) == (
            TailerView {
                phase: TailPhase::Opening,
                source: Some(client),
                offset: 0,
                pending: Seq::empty(),
            },
            TailStepView { lines: Seq::empty(), action: TailActionView::Open { source: client } },
        ),
{
}

/// Lines come out of nothing but the bytes of a read on the open file.
pub proof fn lemma_lines_need_data(tailer: TailerView, input: TailInputView)
    ensures
        step_model(tailer, input).1.lines.len() > 0 ==> tailer.phase == TailPhase::Reading
            && input is Data,
        tailer.is_closed() ==> step_model(tailer, input).1.lines == Seq::<Seq<u8>>::empty(),
{
    if !(tailer.phase == TailPhase::Reading && input is Data) {
        assert(step_model(tailer, input).1.lines =~= Seq::<Seq<u8>>::empty());
    }
}

/// While no file is open, only the opening of the log opens one, and then
/// the tailer stands at the end of that log with an empty buffer.
pub proof fn lemma_opening_resets(tailer: TailerView, input: TailInputView)
    requires
        tailer.is_closed(),
    ensures
        !step_model(tailer, input).0.is_closed() ==> {
            &&& tailer.phase == TailPhase::Opening
            &&& input matches TailInputView::Opened { size }
            &&& step_model(tailer, input).0 == (TailerView {
                phase: TailPhase::Reading,
                source: tailer.source,
                offset: size,
                pending: Seq::empty(),
            })
        },
{
}

/// Whether none of the inputs reports that a log was opened.
pub open spec fn none_opened(inputs: Seq<TailInputView>) -> bool {
    forall|i: int| 0 <= i < inputs.len() ==> !(#[trigger] inputs[i] is Opened)
}

/// After a command nothing is handed out until the log of the named client
/// is open: whatever else comes in, from the old file or not, no line comes
/// out of it.
pub proof fn lemma_silent_until_opened(
    tailer: TailerView,
    client: MineClientView,
    inputs: Seq<TailInputView>,
)
    requires
        none_opened(inputs),
    ensures
        run(step_model(tailer, TailInputView::Source(client)).0, inputs).1 == Seq::<
            Seq<u8>,
        >::empty(),
        run(step_model(tailer, TailInputView::Source(client)).0, inputs).0.is_closed(),
        run(step_model(tailer, TailInputView::Source(client)).0, inputs).0.source is Some,
    decreases inputs.len(),
{
    let switched = step_model(tailer, TailInputView::Source(client)).0;
    if inputs.len() > 0 {
        let earlier = inputs.drop_last();
        assert forall|i: int| 0 <= i < earlier.len() implies !(#[trigger] earlier[i] is Opened) by {
            assert(earlier[i] == inputs[i]);
        }
        lemma_silent_until_opened(tailer, client, earlier);
        let before = run(switched, earlier).0;
        lemma_lines_need_data(before, inputs.last());
        lemma_opening_resets(before, inputs.last());
        assert(!(inputs[inputs.len() - 1] is Opened));
        assert(run(switched, inputs).1 =~= Seq::<Seq<u8>>::empty());
    }
}

/// The offset never goes back, except where a command or the opening of a
/// log sets it anew.
pub proof fn lemma_offset_advances(tailer: TailerView, input: TailInputView)
    requires
        tailer.wf(),
        !(input is Source),
        !(input is Opened),
    ensures
        step_model(tailer, input).0.offset >= tailer.offset,
        step_model(tailer, input).0.source == tailer.source,
{
}

/// Whether an input is what comes of a read.
pub open spec fn is_read_outcome(input: TailInputView) -> bool {
    input is Data || input is EndOfFile || input is ReadFailed
}

/// The bytes that a read gave: those of the data, and none otherwise.
pub open spec fn bytes_read(input: TailInputView) -> Seq<u8> {
    match input {
        TailInputView::Data(bytes) => bytes,
        _ => Seq::empty(),
    }
}

/// The bytes that each of a sequence of reads gave.
pub open spec fn chunks_read(reads: Seq<TailInputView>) -> Seq<Seq<u8>> {
    reads.map_values(|input: TailInputView| bytes_read(input))
}

/// The inputs of a driver whose reads come out as `reads` and whose control
/// channel stays empty: after each read, the look at the channel.
pub open spec fn session(reads: Seq<TailInputView>) -> Seq<TailInputView>
    decreases reads.len(),
{
    if reads.len() == 0 {
        Seq::empty()
    } else {
        session(reads.drop_last()).push(reads.last()).push(TailInputView::NoCommand)
    }
}

/// While a log is followed and no command comes, the lines handed out are
/// the complete lines of all the bytes read, each once and in order, however
/// the reads cut them and whatever reads found nothing or failed in between.
/// What follows the last line feed waits in the buffer.
pub proof fn lemma_session_lines(tailer: TailerView, reads: Seq<TailInputView>)
    requires
        tailer.wf(),
        tailer.phase == TailPhase::Reading,
        forall|i: int| 0 <= i < reads.len() ==> is_read_outcome(#[trigger] reads[i]),
    ensures
        run(tailer, session(reads)).0 == (TailerView {
            phase: TailPhase::Reading,
            source: tailer.source,
            offset: advance(tailer.offset, concat_all(chunks_read(reads)).len() as int),
            pending: remainder(tailer.pending + concat_all(chunks_read(reads))),
        }),
        run(tailer, session(reads)).1 == emitted_lines(
            tailer.pending,
            concat_all(chunks_read(reads)),
        ),
    decreases reads.len(),
{
    lemma_every_line_once(tailer.pending, chunks_read(reads));
    lemma_session_feeds(tailer, reads);
}

/// A session hands the bytes of its reads to the buffer, one read after the
/// other.
proof fn lemma_session_feeds(tailer: TailerView, reads: Seq<TailInputView>)
    requires
        tailer.wf(),
        tailer.phase == TailPhase::Reading,
        forall|i: int| 0 <= i < reads.len() ==> is_read_outcome(#[trigger] reads[i]),
    ensures
        run(tailer, session(reads)).0 == (TailerView {
            phase: TailPhase::Reading,
            source: tailer.source,
            offset: advance(tailer.offset, concat_all(chunks_read(reads)).len() as int),
            pending: feed_all(tailer.pending, chunks_read(reads)).0,
        }),
        run(tailer, session(reads)).1 == feed_all(tailer.pending, chunks_read(reads)).1,
        remainder(feed_all(tailer.pending, chunks_read(reads)).0) == feed_all(
            tailer.pending,
            chunks_read(reads),
        ).0,
    decreases reads.len(),
{
    if reads.len() == 0 {
        assert(chunks_read(reads) =~= Seq::<Seq<u8>>::empty());
    } else {
        let earlier = reads.drop_last();
        let last = reads.last();
        assert forall|i: int| 0 <= i < earlier.len() implies is_read_outcome(
            #[trigger] earlier[i],
        ) by {
            assert(earlier[i] == reads[i]);
        }
        lemma_session_feeds(tailer, earlier);
        assert(is_read_outcome(reads[reads.len() - 1]));
        assert(chunks_read(reads).drop_last() =~= chunks_read(earlier));
        assert(chunks_read(reads).last() == bytes_read(last));
        let (before, lines) = run(tailer, session(earlier));
        lemma_run_push(tailer, session(earlier), last);
        lemma_run_push(tailer, session(earlier).push(last), TailInputView::NoCommand);
        let waiting = feed_all(tailer.pending, chunks_read(earlier)).0;
        lemma_remainder_is_open(waiting + bytes_read(last));
        if !(last is Data) {
            assert(waiting + bytes_read(last) =~= waiting);
            lemma_remainder_is_open(waiting);
            assert(emitted_lines(waiting, bytes_read(last)) =~= Seq::<Seq<u8>>::empty());
            assert(lines + Seq::<Seq<u8>>::empty() =~= lines);
            assert(concat_all(chunks_read(reads)) =~= concat_all(chunks_read(earlier)));
        }
        assert(run(tailer, session(reads)).1 =~= feed_all(tailer.pending, chunks_read(reads)).1);
    }
}

/// A run over two sequences of inputs is the run over the first, and from
/// where it ended the run over the second.
pub proof fn lemma_run_add(
    tailer: TailerView,
    first: Seq<TailInputView>,
    second: Seq<TailInputView>,
)
    ensures
        run(tailer, first + second) == ({
            let (middle, early) = run(tailer, first);
            let (end, late) = run(middle, second);
            (end, early + late)
        }),
    decreases second.len(),
{
    let (middle, early) = run(tailer, first);
    if second.len() == 0 {
        assert(first + second =~= first);
        assert(early + Seq::<Seq<u8>>::empty() =~= early);
    } else {
        lemma_run_add(tailer, first, second.drop_last());
        assert((first + second).drop_last() =~= first + second.drop_last());
        assert((first + second).last() == second.last());
        let (before, late) = run(middle, second.drop_last());
        let step = step_model(before, second.last()).1;
        assert((early + late) + step.lines =~= early + (late + step.lines));
    }
}

/// After a command, what comes out is made of the new file alone: once its
/// log is open, the lines handed out are the complete lines of the bytes
/// read from then on. Nothing that waited or was read before the command, and
/// nothing that comes in before the log is open, is part of them.
pub proof fn lemma_switch_tails_the_new_file(
    tailer: TailerView,
    client: MineClientView,
    waiting: Seq<TailInputView>,
    size: int,
    reads: Seq<TailInputView>,
)
    requires
        none_opened(waiting),
        run(step_model(tailer, TailInputView::Source(client)).0, waiting).0.phase
            == TailPhase::Opening,
        0 <= size <= u64::MAX,
        forall|i: int| 0 <= i < reads.len() ==> is_read_outcome(#[trigger] reads[i]),
    ensures
        run(
            tailer,
            seq![TailInputView::Source(client)] + waiting + seq![TailInputView::Opened { size }]
                + session(reads),
        ).1 == emitted_lines(Seq::empty(), concat_all(chunks_read(reads))),
{
    let command = seq![TailInputView::Source(client)];
    let opened = seq![TailInputView::Opened { size }];
    let switched = step_model(tailer, TailInputView::Source(client)).0;
    lemma_run_push(tailer, Seq::empty(), TailInputView::Source(client));
    assert(Seq::<TailInputView>::empty().push(TailInputView::Source(client)) =~= command);
    assert(run(tailer, command).0 == switched);
    assert(run(tailer, command).1 =~= Seq::<Seq<u8>>::empty());
    lemma_silent_until_opened(tailer, client, waiting);
    let closed = run(switched, waiting).0;
    lemma_run_add(tailer, command, waiting);
    lemma_run_push(closed, Seq::empty(), TailInputView::Opened { size });
    assert(Seq::<TailInputView>::empty().push(TailInputView::Opened { size }) =~= opened);
    let open = step_model(closed, TailInputView::Opened { size }).0;
    assert(run(closed, opened).0 == open);
    assert(run(closed, opened).1 =~= Seq::<Seq<u8>>::empty());
    lemma_run_add(tailer, command + waiting, opened);
    lemma_split_whole(Seq::<u8>::empty(), crate::lines::LINE_FEED);
    lemma_session_lines(open, reads);
    lemma_run_add(tailer, command + waiting + opened, session(reads));
    assert(run(tailer, command + waiting + opened).1 =~= Seq::<Seq<u8>>::empty());
    assert(Seq::<Seq<u8>>::empty() + run(open, session(reads)).1 =~= run(
        open,
        session(reads),
    ).1);
}

fn no_lines() -> (lines: Vec<Vec<u8>>)
    ensures
        bytes_of(lines@) == Seq::<Seq<u8>>::empty(),
{
    let lines: Vec<Vec<u8>> = Vec::new();
    assert(bytes_of(lines@) =~= Seq::<Seq<u8>>::empty());
    lines
}

/// Follows the log of a game client.
#[derive(Debug)]
pub struct LogTailer {
    phase: TailPhase,
    // Before the first command this is the default client; the view hides it.
    source: MineClient,
    offset: u64,
    buffer: LineBuffer,
}

impl View for LogTailer {
    type V = TailerView;

    closed spec fn view(&self) -> TailerView {
        TailerView {
            phase: self.phase,
            source: if self.phase == TailPhase::AwaitingSource {
                None
            } else {
                Some(self.source@)
            },
            offset: self.offset as int,
            pending: self.buffer@,
        }
    }
}

impl LogTailer {
    /// A tailer that waits for its first command, and what its driver is to
    /// do first.
    pub fn new() -> (started: (Self, TailAction))
        ensures
            started.0@.wf(),
            started.0@ == initial_tailer(),
            started.1@ == TailActionView::AwaitSource,
    {
        (
            LogTailer {
                phase: TailPhase::AwaitingSource,
                source: MineClient::Default,
                offset: 0,
                buffer: LineBuffer::new(),
            },
            TailAction::AwaitSource,
        )
    }

    /// Where the tailer stands.
    pub fn phase(&self) -> (phase: TailPhase)
        ensures
            phase == self@.phase,
    {
        self.phase
    }

    /// The offset of the next read.
    pub fn offset(&self) -> (offset: u64)
        ensures
            offset == self@.offset,
    {
        self.offset
    }

    /// How many bytes of a line that is not complete yet wait in the buffer.
    pub fn pending_len(&self) -> (n: usize)
        ensures
            n == self@.pending.len(),
    {
        self.buffer.len()
    }

    fn source_copy(&self) -> (copy: MineClient)
        requires
            self@.phase != TailPhase::AwaitingSource,
        ensures
            Some(copy@) == self@.source,
    {
        self.source.duplicate()
    }

    fn pending_action(&self) -> (action: TailAction)
        ensures
            action@ == self@.pending_action(),
    {
        match self.phase {
            TailPhase::AwaitingSource => TailAction::AwaitSource,
            TailPhase::Opening => TailAction::Open { source: self.source_copy() },
            TailPhase::OpeningPoll => TailAction::Poll { delay_millis: POLL_INTERVAL_MILLIS },
            TailPhase::Reading => TailAction::Read { offset: self.offset },
            TailPhase::ReadingPoll => TailAction::Poll { delay_millis: 0 },
        }
    }

    /// Takes one input and says what follows from it.
    pub fn step(&mut self, input: TailInput) -> (step: TailStep)
        ensures
            old(self)@.wf(),
            (final(self)@, step@) == step_model(old(self)@, input@),
    {
        let _ = self.buffer.len();
        match (self.phase, input) {
            (_, TailInput::Source(client)) => {
                let copy = client.duplicate();
                self.source = client;
                self.phase = TailPhase::Opening;
                self.offset = 0;
                self.buffer.clear();
                TailStep { lines: no_lines(), action: TailAction::Open { source: copy } }
            },
            (TailPhase::Opening, TailInput::Opened { size }) => {
                self.phase = TailPhase::Reading;
                self.offset = size;
                self.buffer.clear();
                TailStep { lines: no_lines(), action: TailAction::Read { offset: size } }
            },
            (TailPhase::Opening, TailInput::OpenFailed) => {
                self.phase = TailPhase::OpeningPoll;
                TailStep {
                    lines: no_lines(),
                    action: TailAction::Poll { delay_millis: POLL_INTERVAL_MILLIS },
                }
            },
            (TailPhase::OpeningPoll, TailInput::NoCommand) => {
                self.phase = TailPhase::Opening;
                TailStep { lines: no_lines(), action: TailAction::Open { source: self.source_copy() } }
            },
            (TailPhase::Reading, TailInput::Data(bytes)) => {
                let lines = self.buffer.feed(bytes.as_slice());
                self.phase = TailPhase::ReadingPoll;
                let count = bytes.len() as u64;
                self.offset = if count > u64::MAX - self.offset {
                    u64::MAX
                } else {
                    self.offset + count
                };
                TailStep { lines, action: TailAction::Poll { delay_millis: 0 } }
            },
            (TailPhase::Reading, TailInput::EndOfFile) => {
                self.phase = TailPhase::ReadingPoll;
                TailStep {
                    lines: no_lines(),
                    action: TailAction::Poll { delay_millis: POLL_INTERVAL_MILLIS },
                }
            },
            (TailPhase::Reading, TailInput::ReadFailed) => {
                self.phase = TailPhase::ReadingPoll;
                TailStep { lines: no_lines(), action: TailAction::Poll { delay_millis: 0 } }
            },
            (TailPhase::ReadingPoll, TailInput::NoCommand) => {
                self.phase = TailPhase::Reading;
                TailStep { lines: no_lines(), action: TailAction::Read { offset: self.offset } }
            },
            _ => TailStep { lines: no_lines(), action: self.pending_action() },
        }
    }
}

} // verus!
