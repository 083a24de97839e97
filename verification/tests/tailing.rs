use kc_overlay::lines::LineBuffer;
use kc_overlay::source::MineClient;
use kc_overlay::tail::{
    LogTailer, TailAction, TailInput, TailPhase, TailStep, POLL_INTERVAL_MILLIS,
};

fn lines(list: &[&str]) -> Vec<Vec<u8>> {
    list.iter().map(|line| line.as_bytes().to_vec()).collect()
}

fn reading(size: u64) -> LogTailer {
    let (mut tailer, _) = LogTailer::new();
    tailer.step(TailInput::Source(MineClient::Default));
    tailer.step(TailInput::Opened { size });
    tailer
}

fn read(tailer: &mut LogTailer, bytes: &[u8]) -> TailStep {
    if tailer.phase() == TailPhase::ReadingPoll {
        tailer.step(TailInput::NoCommand);
    }
    tailer.step(TailInput::Data(bytes.to_vec()))
}

#[test]
fn buffer_hands_out_complete_lines() {
    let mut buffer = LineBuffer::new();
    assert_eq!(buffer.feed(b"one\ntwo\nthr"), lines(&["one", "two"]));
    assert_eq!(buffer.len(), 3);
    assert_eq!(buffer.feed(b"ee\n"), lines(&["three"]));
    assert_eq!(buffer.len(), 0);
}

#[test]
fn buffer_keeps_a_line_over_many_reads() {
    let mut buffer = LineBuffer::new();
    for chunk in [&b"a"[..], b"", b"b", b"c", b"", b"d"] {
        assert_eq!(buffer.feed(chunk), lines(&[]));
    }
    assert_eq!(buffer.len(), 4);
    assert_eq!(buffer.feed(b"\n"), lines(&["abcd"]));
}

#[test]
fn buffer_gives_the_same_lines_however_the_bytes_are_cut() {
    let text = b"first\r\nsecond\n\nthird line\r\r\nfourth\nrest";
    let expected = lines(&["first", "second", "", "third line", "fourth"]);
    for size in 1..=text.len() {
        let mut buffer = LineBuffer::new();
        let mut seen = Vec::new();
        for chunk in text.chunks(size) {
            seen.extend(buffer.feed(chunk));
        }
        assert_eq!(seen, expected);
        assert_eq!(buffer.len(), 4);
    }
}

#[test]
fn buffer_takes_carriage_returns_off_the_end_only() {
    let mut buffer = LineBuffer::new();
    assert_eq!(buffer.feed(b"a\rb\r\n"), lines(&["a\rb"]));
    assert_eq!(buffer.feed(b"\r\n"), lines(&[""]));
    assert_eq!(buffer.feed(b"tail  \t\n"), lines(&["tail  \t"]));
    assert_eq!(buffer.feed(b"x\r"), lines(&[]));
    assert_eq!(buffer.feed(b"\n"), lines(&["x"]));
}

#[test]
fn buffer_keeps_bytes_that_are_no_text() {
    let mut buffer = LineBuffer::new();
    assert_eq!(buffer.feed(&[0xc3]), lines(&[]));
    assert_eq!(buffer.feed(&[0xa7, b'!', 10, 0xff, 10]), vec![vec![0xc3, 0xa7, b'!'], vec![0xff]]);
}

#[test]
fn buffer_clear_forgets_what_waits() {
    let mut buffer = LineBuffer::new();
    buffer.feed(b"half");
    buffer.clear();
    assert_eq!(buffer.len(), 0);
    assert_eq!(buffer.feed(b" line\n"), lines(&[" line"]));
}

#[test]
fn tailer_waits_for_its_first_command() {
    let (mut tailer, action) = LogTailer::new();
    assert!(matches!(action, TailAction::AwaitSource));
    assert_eq!(tailer.phase(), TailPhase::AwaitingSource);
    for input in [
        TailInput::NoCommand,
        TailInput::Opened { size: 5 },
        TailInput::OpenFailed,
        TailInput::Data(b"x\n".to_vec()),
        TailInput::EndOfFile,
        TailInput::ReadFailed,
    ] {
        let step = tailer.step(input);
        assert!(step.lines.is_empty());
        assert!(matches!(step.action, TailAction::AwaitSource));
        assert_eq!(tailer.phase(), TailPhase::AwaitingSource);
    }
}

#[test]
fn tailer_opens_the_log_and_reads_from_its_end() {
    let (mut tailer, _) = LogTailer::new();
    let step = tailer.step(TailInput::Source(MineClient::Badlion));
    assert!(step.lines.is_empty());
    assert!(matches!(step.action, TailAction::Open { source: MineClient::Badlion }));
    assert_eq!(tailer.phase(), TailPhase::Opening);
    let step = tailer.step(TailInput::Opened { size: 1234 });
    assert!(step.lines.is_empty());
    assert!(matches!(step.action, TailAction::Read { offset: 1234 }));
    assert_eq!(tailer.phase(), TailPhase::Reading);
    assert_eq!(tailer.offset(), 1234);
}

#[test]
fn tailer_waits_for_a_log_that_is_not_there() {
    let (mut tailer, _) = LogTailer::new();
    tailer.step(TailInput::Source(MineClient::Custom("/tmp/none.log".to_string())));
    for _ in 0..3 {
        let step = tailer.step(TailInput::OpenFailed);
        assert!(step.lines.is_empty());
        assert!(matches!(step.action, TailAction::Poll { delay_millis: 500 }));
        assert_eq!(tailer.phase(), TailPhase::OpeningPoll);
        let step = tailer.step(TailInput::NoCommand);
        match step.action {
            TailAction::Open { source: MineClient::Custom(path) } => {
                assert_eq!(path, "/tmp/none.log")
            }
            _ => panic!("the tailer tries again"),
        }
        assert_eq!(tailer.phase(), TailPhase::Opening);
    }
    tailer.step(TailInput::OpenFailed);
    let step = tailer.step(TailInput::Source(MineClient::Lunar));
    assert!(matches!(step.action, TailAction::Open { source: MineClient::Lunar }));
    assert_eq!(tailer.phase(), TailPhase::Opening);
}

#[test]
fn tailer_emits_lines_in_order_across_reads() {
    let mut tailer = reading(100);
    let step = read(&mut tailer, b"alpha\nbe");
    assert_eq!(step.lines, lines(&["alpha"]));
    assert!(matches!(step.action, TailAction::Poll { delay_millis: 0 }));
    assert_eq!(tailer.offset(), 108);
    assert_eq!(tailer.pending_len(), 2);
    let step = tailer.step(TailInput::NoCommand);
    assert!(step.lines.is_empty());
    assert!(matches!(step.action, TailAction::Read { offset: 108 }));
    let step = tailer.step(TailInput::Data(b"ta\r\ngamma\n".to_vec()));
    assert_eq!(step.lines, lines(&["beta", "gamma"]));
    assert_eq!(tailer.offset(), 118);
    assert_eq!(tailer.pending_len(), 0);
}

#[test]
fn tailer_backs_off_at_the_end_of_the_file() {
    let mut tailer = reading(7);
    let step = tailer.step(TailInput::EndOfFile);
    assert!(step.lines.is_empty());
    assert_eq!(POLL_INTERVAL_MILLIS, 500);
    assert!(matches!(step.action, TailAction::Poll { delay_millis: 500 }));
    assert_eq!(tailer.phase(), TailPhase::ReadingPoll);
    let step = tailer.step(TailInput::NoCommand);
    assert!(matches!(step.action, TailAction::Read { offset: 7 }));
}

#[test]
fn tailer_tries_again_after_a_failed_read() {
    let mut tailer = reading(7);
    read(&mut tailer, b"par");
    tailer.step(TailInput::NoCommand);
    let step = tailer.step(TailInput::ReadFailed);
    assert!(step.lines.is_empty());
    assert!(matches!(step.action, TailAction::Poll { delay_millis: 0 }));
    let step = tailer.step(TailInput::NoCommand);
    assert!(matches!(step.action, TailAction::Read { offset: 10 }));
    assert_eq!(read(&mut tailer, b"tial\n").lines, lines(&["partial"]));
}

#[test]
fn switch_drops_the_old_file_and_its_half_line() {
    let mut tailer = reading(0);
    assert_eq!(read(&mut tailer, b"old one\nold ha").lines, lines(&["old one"]));
    let step = tailer.step(TailInput::Source(MineClient::Silent));
    assert!(step.lines.is_empty());
    assert!(matches!(step.action, TailAction::Open { source: MineClient::Silent }));
    assert_eq!(tailer.phase(), TailPhase::Opening);
    assert_eq!(tailer.pending_len(), 0);
    let late = tailer.step(TailInput::Data(b"lf\nold two\n".to_vec()));
    assert!(late.lines.is_empty());
    assert!(matches!(late.action, TailAction::Open { source: MineClient::Silent }));
    let step = tailer.step(TailInput::Opened { size: 40 });
    assert!(matches!(step.action, TailAction::Read { offset: 40 }));
    assert_eq!(tailer.offset(), 40);
    assert_eq!(read(&mut tailer, b"new one\n").lines, lines(&["new one"]));
}

#[test]
fn switch_is_obeyed_in_every_phase() {
    let (mut tailer, _) = LogTailer::new();
    tailer.step(TailInput::Source(MineClient::Default));
    let step = tailer.step(TailInput::Source(MineClient::Lunar));
    assert!(matches!(step.action, TailAction::Open { source: MineClient::Lunar }));
    let mut tailer = reading(3);
    let step = tailer.step(TailInput::Source(MineClient::LegacyLauncher));
    assert!(matches!(step.action, TailAction::Open { source: MineClient::LegacyLauncher }));
    assert_eq!(tailer.offset(), 0);
    let mut tailer = reading(3);
    tailer.step(TailInput::EndOfFile);
    let step = tailer.step(TailInput::Source(MineClient::Badlion));
    assert!(matches!(step.action, TailAction::Open { source: MineClient::Badlion }));
    assert_eq!(tailer.phase(), TailPhase::Opening);
}

#[test]
fn input_out_of_turn_is_passed_over() {
    let mut tailer = reading(3);
    let step = tailer.step(TailInput::NoCommand);
    assert!(matches!(step.action, TailAction::Read { offset: 3 }));
    assert_eq!(tailer.phase(), TailPhase::Reading);
    let step = tailer.step(TailInput::Opened { size: 99 });
    assert!(matches!(step.action, TailAction::Read { offset: 3 }));
    read(&mut tailer, b"a\n");
    let step = tailer.step(TailInput::Data(b"b\n".to_vec()));
    assert!(step.lines.is_empty());
    assert!(matches!(step.action, TailAction::Poll { delay_millis: 0 }));
    assert_eq!(tailer.offset(), 5);
}

#[test]
fn offset_stops_at_the_largest() {
    let mut tailer = reading(u64::MAX - 2);
    read(&mut tailer, b"abcd");
    assert_eq!(tailer.offset(), u64::MAX);
    read(&mut tailer, b"e\n");
    assert_eq!(tailer.offset(), u64::MAX);
}
