use feature_tour::menu::Topic;
use feature_tour::session::{
    all_topics, record, respond, respond_to_line, run_lines, run_session, Action, Entry, Phase,
};

fn lines(items: &[&str]) -> Vec<String> {
    items.iter().map(|s| s.to_string()).collect()
}

fn every_topic_ran() -> Vec<Entry> {
    all_topics().into_iter().map(Entry::Ran).collect()
}

#[test]
fn run_all_order_is_fixed() {
    assert_eq!(
        all_topics(),
        vec![
            Topic::Basics,
            Topic::Ownership,
            Topic::StructsEnums,
            Topic::PatternMatching,
            Topic::ErrorHandling,
            Topic::TraitsGenerics,
            Topic::Collections,
            Topic::IteratorsClosures,
            Topic::Lifetimes,
        ]
    );
}

#[test]
fn single_topic_token_performs_that_topic_and_keeps_waiting() {
    for (token, topic) in [("2", Topic::Ownership), ("5", Topic::ErrorHandling), ("9", Topic::Lifetimes)] {
        assert_eq!(respond(Some(token)), (Phase::AwaitingInput, Action::Perform(vec![topic])));
    }
}

#[test]
fn run_all_token_performs_every_topic_once() {
    let (phase, action) = respond(Some("0"));
    assert_eq!(phase, Phase::AwaitingInput);
    let topics = match action {
        Action::Perform(ts) => ts,
        other => panic!("unexpected action {:?}", other),
    };
    assert_eq!(topics.len(), 9);
    for t in all_topics() {
        assert_eq!(topics.iter().filter(|x| **x == t).count(), 1);
    }
}

#[test]
fn unrecognized_token_only_diagnoses() {
    for token in ["x", "", "10", "quit", "-"] {
        assert_eq!(respond(Some(token)), (Phase::AwaitingInput, Action::Diagnose));
    }
    assert_eq!(
        run_session(&lines(&["x", "x", "q"])),
        vec![Entry::Diagnostic, Entry::Diagnostic, Entry::Farewell]
    );
}

#[test]
fn exit_token_in_either_case_ends_the_loop() {
    assert_eq!(respond(Some("q")), (Phase::Exited, Action::Farewell));
    assert_eq!(respond(Some("Q")), (Phase::Exited, Action::Farewell));
    assert_eq!(respond_to_line(Some("Q\n")), (Phase::Exited, Action::Farewell));
    assert_eq!(respond(Some("x")).0, Phase::AwaitingInput);
}

#[test]
fn failed_read_aborts() {
    assert_eq!(respond(None), (Phase::Failed, Action::Abort));
    assert_eq!(respond_to_line(None), (Phase::Failed, Action::Abort));
}

#[test]
fn raw_lines_are_trimmed() {
    assert_eq!(
        respond_to_line(Some(" 7 \n")),
        (Phase::AwaitingInput, Action::Perform(vec![Topic::Collections]))
    );
}

#[test]
fn record_appends_what_an_action_shows() {
    let mut log = vec![Entry::Diagnostic];
    record(&mut log, &Action::Perform(vec![Topic::Basics, Topic::Lifetimes]));
    assert_eq!(
        log,
        vec![Entry::Diagnostic, Entry::Ran(Topic::Basics), Entry::Ran(Topic::Lifetimes), Entry::Separator]
    );
    record(&mut log, &Action::Farewell);
    assert_eq!(log.last(), Some(&Entry::Farewell));
}

#[test]
fn collections_then_quit() {
    assert_eq!(
        run_lines(&lines(&["7\n", "q\n"])),
        vec![Entry::Ran(Topic::Collections), Entry::Separator, Entry::Farewell]
    );
}

#[test]
fn invalid_then_lifetimes_then_quit() {
    assert_eq!(
        run_lines(&lines(&["x\n", "9\n", "Q\n"])),
        vec![Entry::Diagnostic, Entry::Ran(Topic::Lifetimes), Entry::Separator, Entry::Farewell]
    );
}

#[test]
fn run_all_then_quit() {
    let mut expected = every_topic_ran();
    expected.push(Entry::Separator);
    expected.push(Entry::Farewell);
    assert_eq!(run_lines(&lines(&["0\n", "q\n"])), expected);
}

#[test]
fn empty_stream_fails_without_running_anything() {
    assert_eq!(run_lines(&Vec::new()), vec![Entry::InputFailure]);
    assert_eq!(run_session(&Vec::new()), vec![Entry::InputFailure]);
}

#[test]
fn stream_that_ends_before_quit_fails_after_its_work() {
    assert_eq!(
        run_session(&lines(&["3"])),
        vec![Entry::Ran(Topic::StructsEnums), Entry::Separator, Entry::InputFailure]
    );
}

#[test]
fn lines_after_quit_are_not_read() {
    assert_eq!(run_session(&lines(&["q", "7"])), vec![Entry::Farewell]);
}
