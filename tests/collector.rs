use branch_picker::collector::{shell_command, trim_line_end};
use branch_picker::lines::split_lines;
use branch_picker::teardown::error_lines_to_items;
use branch_picker::{
    CollectorInput, ExitCheck, FieldRange, Item, ReaderAction, ReaderEvent, ReaderPhase,
    ReaderWorker, SkimItemReader, SkimItemReaderOption, TeardownAction, TeardownEvent,
    TeardownPhase, TeardownWorker,
};

fn pushed(action: ReaderAction) -> Item {
    match action {
        ReaderAction::Push(item) => item,
        _ => panic!("expected a push"),
    }
}

fn feed_lines(opt: &SkimItemReaderOption, lines: &[&str]) -> (Vec<String>, ReaderWorker) {
    let mut worker = ReaderWorker::new();
    let mut shown = Vec::new();
    for line in lines {
        let mut chunk = line.as_bytes().to_vec();
        chunk.push(b'\n');
        let item = pushed(worker.step(opt, ReaderEvent::Chunk(chunk)));
        shown.push(item.display_text().to_string());
        assert!(matches!(worker.step(opt, ReaderEvent::Delivered), ReaderAction::ReadNext));
    }
    (shown, worker)
}

#[test]
fn trim_removes_one_line_ending() {
    let cases: Vec<(&[u8], &[u8])> = vec![
        (b"abc\r\n", b"abc"),
        (b"abc\n", b"abc"),
        (b"abc\0", b"abc"),
        (b"abc\r", b"abc\r"),
        (b"abc\n\n", b"abc\n"),
        (b"abc", b"abc"),
        (b"", b""),
        (b"\n", b""),
    ];
    for (input, expected) in cases {
        let mut v = input.to_vec();
        trim_line_end(&mut v);
        assert_eq!(v, expected.to_vec());
    }
}

#[test]
fn lines_arrive_in_order_one_item_each() {
    let opt = SkimItemReaderOption::default();
    let (shown, mut worker) = feed_lines(&opt, &["first", "second line", "", "héllo"]);
    assert_eq!(shown, vec!["first", "second line", "", "héllo"]);
    assert!(matches!(worker.step(&opt, ReaderEvent::EndOfStream), ReaderAction::SignalStop));
    assert_eq!(worker.phase(), ReaderPhase::Stopped);
}

#[test]
fn invalid_utf8_is_replaced_not_dropped() {
    let opt = SkimItemReaderOption::default();
    let item = opt.item_of_chunk(vec![b'a', 0xff, b'b', b'\n']);
    assert_eq!(item.display_text(), "a\u{fffd}b");
}

#[test]
fn crlf_lines_lose_both_bytes() {
    let opt = SkimItemReaderOption::default();
    let item = opt.item_of_chunk(b"win\r\n".to_vec());
    assert_eq!(item.display_text(), "win");
}

#[test]
fn options_reach_the_transform() {
    let opt = SkimItemReaderOption {
        transform_fields: vec![FieldRange::Single(2)],
        matching_fields: vec![FieldRange::Single(1)],
        ..SkimItemReaderOption::default()
    };
    let item = opt.item_of_chunk(b"a b c\n".to_vec());
    assert_eq!(item.display_text(), "b");
    assert_eq!(item.match_text(), "a");
}

#[test]
fn failed_reads_are_skipped() {
    let opt = SkimItemReaderOption::default();
    let mut worker = ReaderWorker::new();
    assert!(matches!(worker.step(&opt, ReaderEvent::ReadFailed), ReaderAction::ReadNext));
    assert_eq!(worker.phase(), ReaderPhase::Reading);
    let item = pushed(worker.step(&opt, ReaderEvent::Chunk(b"x\n".to_vec())));
    assert_eq!(item.display_text(), "x");
}

#[test]
fn consumer_gone_stops_the_reader() {
    let opt = SkimItemReaderOption::default();
    let mut worker = ReaderWorker::new();
    pushed(worker.step(&opt, ReaderEvent::Chunk(b"x\n".to_vec())));
    assert!(matches!(worker.step(&opt, ReaderEvent::Rejected), ReaderAction::SignalStop));
    assert_eq!(worker.phase(), ReaderPhase::Stopped);
    assert!(matches!(worker.step(&opt, ReaderEvent::Chunk(b"y\n".to_vec())), ReaderAction::Idle));
}

#[test]
fn no_read_while_a_push_is_outstanding() {
    let opt = SkimItemReaderOption::default();
    let mut worker = ReaderWorker::new();
    pushed(worker.step(&opt, ReaderEvent::Chunk(b"x\n".to_vec())));
    assert_eq!(worker.phase(), ReaderPhase::Pushing);
    assert!(!matches!(worker.step(&opt, ReaderEvent::Chunk(b"y\n".to_vec())), ReaderAction::ReadNext | ReaderAction::Push(_)));
}

#[test]
fn cancel_kills_once_and_finishes() {
    let mut t = TeardownWorker::new(false);
    assert!(matches!(t.step(TeardownEvent::Reaped(ExitCheck::Unknown)), TeardownAction::Idle));
    assert_eq!(t.phase(), TeardownPhase::Waiting);
    assert!(matches!(t.step(TeardownEvent::Signal), TeardownAction::Kill));
    assert!(matches!(t.step(TeardownEvent::Signal), TeardownAction::Idle));
    match t.step(TeardownEvent::Reaped(ExitCheck::Exited(false))) {
        TeardownAction::Finish(items) => assert!(items.is_empty()),
        _ => panic!("expected finish"),
    }
    assert_eq!(t.phase(), TeardownPhase::Done);
    assert!(matches!(t.step(TeardownEvent::Signal), TeardownAction::Idle));
}

#[test]
fn failed_command_errors_are_replayed() {
    let mut t = TeardownWorker::new(true);
    assert!(matches!(t.step(TeardownEvent::Signal), TeardownAction::Kill));
    assert!(matches!(t.step(TeardownEvent::Reaped(ExitCheck::Exited(false))), TeardownAction::ReadErrors));
    match t.step(TeardownEvent::ErrorOutput(b"fatal: bad\r\nsecond a b\n".to_vec())) {
        TeardownAction::Finish(items) => {
            let texts: Vec<&str> = items.iter().map(|i| i.display_text()).collect();
            assert_eq!(texts, vec!["fatal: bad", "second a b"]);
        }
        _ => panic!("expected finish"),
    }
}

#[test]
fn successful_command_errors_are_not_replayed() {
    let mut t = TeardownWorker::new(true);
    t.step(TeardownEvent::Signal);
    match t.step(TeardownEvent::Reaped(ExitCheck::Exited(true))) {
        TeardownAction::Finish(items) => assert!(items.is_empty()),
        _ => panic!("expected finish"),
    }
}

#[test]
fn unreadable_status_is_not_a_failure_but_still_running_is() {
    let mut t = TeardownWorker::new(true);
    t.step(TeardownEvent::Signal);
    assert!(matches!(t.step(TeardownEvent::Reaped(ExitCheck::Unknown)), TeardownAction::Finish(_)));
    let mut t = TeardownWorker::new(true);
    t.step(TeardownEvent::Signal);
    assert!(matches!(t.step(TeardownEvent::Reaped(ExitCheck::StillRunning)), TeardownAction::ReadErrors));
}

#[test]
fn error_output_turns_into_plain_items() {
    let items = error_lines_to_items(&b"one\n\xfftwo".to_vec());
    let texts: Vec<&str> = items.iter().map(|i| i.display_text()).collect();
    assert_eq!(texts, vec!["one", "\u{fffd}two"]);
    assert!(error_lines_to_items(&Vec::new()).is_empty());
}

#[test]
fn split_lines_like_str_lines() {
    for text in ["", "\n", "a", "a\n", "a\r\nb", "a\rb\n", "a\n\nb\r", "x\r\n\r\n"] {
        let expected: Vec<String> = text.lines().map(|l| l.to_string()).collect();
        assert_eq!(split_lines(text), expected, "{:?}", text);
    }
}

#[test]
fn shell_command_runs_through_the_shell() {
    let input = CollectorInput::Command("git branch".to_string());
    let c = shell_command(Some("/bin/bash".to_string()), &input);
    assert_eq!(c.program, "/bin/bash");
    assert_eq!(c.args, vec!["-c".to_string(), "git branch".to_string()]);
    let c = shell_command(None, &input);
    assert_eq!(c.program, "sh");
}

#[test]
fn default_reader_options() {
    let r = SkimItemReader::default();
    let o = r.option();
    assert_eq!(o.buf_size, 1024);
    assert_eq!(o.line_ending, b'\n');
    assert!(!o.use_ansi_color && !o.show_error);
    assert!(o.transform_fields.is_empty() && o.matching_fields.is_empty());
    let r = SkimItemReader::new(SkimItemReaderOption { show_error: true, ..SkimItemReaderOption::default() });
    assert!(r.option().show_error);
}

#[test]
fn error_lines_follow_the_output_lines() {
    let opt = SkimItemReaderOption { show_error: true, ..SkimItemReaderOption::default() };
    let (mut stream, mut reader) = feed_lines(&opt, &["out 1", "out 2"]);
    assert!(matches!(reader.step(&opt, ReaderEvent::EndOfStream), ReaderAction::SignalStop));
    let mut t = TeardownWorker::new(opt.show_error);
    assert!(matches!(t.step(TeardownEvent::Signal), TeardownAction::Kill));
    assert!(matches!(t.step(TeardownEvent::Reaped(ExitCheck::Exited(false))), TeardownAction::ReadErrors));
    match t.step(TeardownEvent::ErrorOutput(b"err 1\nerr 2\n".to_vec())) {
        TeardownAction::Finish(items) => {
            stream.extend(items.iter().map(|i| i.display_text().to_string()));
        }
        _ => panic!("expected finish"),
    }
    assert_eq!(stream, vec!["out 1", "out 2", "err 1", "err 2"]);
}

#[test]
fn capacity_one_channel_holds_the_reader_back() {
    let opt = SkimItemReaderOption::default();
    let (tx, rx) = crossbeam::channel::bounded::<Item>(1);
    let mut worker = ReaderWorker::new();
    let first = pushed(worker.step(&opt, ReaderEvent::Chunk(b"1\n".to_vec())));
    assert!(tx.try_send(first).is_ok());
    assert!(matches!(worker.step(&opt, ReaderEvent::Delivered), ReaderAction::ReadNext));
    let second = pushed(worker.step(&opt, ReaderEvent::Chunk(b"2\n".to_vec())));
    let second = match tx.try_send(second) {
        Err(crossbeam::channel::TrySendError::Full(item)) => item,
        _ => panic!("the channel should be full"),
    };
    assert_eq!(worker.phase(), ReaderPhase::Pushing);
    assert_eq!(rx.recv().unwrap().display_text(), "1");
    assert!(tx.try_send(second).is_ok());
    assert!(matches!(worker.step(&opt, ReaderEvent::Delivered), ReaderAction::ReadNext));
    assert_eq!(rx.recv().unwrap().display_text(), "2");
}
