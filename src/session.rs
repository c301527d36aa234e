//! The decisions of the menu loop: from one read to the next phase and the
//! action to perform, and the whole transcript of a run over given input.

use vstd::prelude::*;

use crate::menu::{select, selection_of, trim_of, trim_token, Selection, Topic};

verus! {

/// Where the menu loop stands.
#[derive(Clone, Copy, Debug, PartialEq, Eq, Structural)]
pub enum Phase {
    /// Waiting for the next line of input.
    AwaitingInput,
    /// Left on an exit token.
    Exited,
    /// Stopped because no line could be read.
    Failed,
}

/// What the loop does after one read.
#[derive(Debug, PartialEq, Eq)]
pub enum Action {
    /// Run these topics in this order, then write a separator.
    Perform(Vec<Topic>),
    /// Write a diagnostic line for an unrecognized token.
    Diagnose,
    /// Say goodbye and leave the loop.
    Farewell,
    /// The input stream failed: stop the process.
    Abort,
}

/// The mathematical form of an [`Action`].
pub enum ActionView {
    Perform(Seq<Topic>),
    Diagnose,
    Farewell,
    Abort,
}

impl View for Action {
    type V = ActionView;

    open spec fn view(&self) -> ActionView {
        match self {
            Action::Perform(ts) => ActionView::Perform(ts@),
            Action::Diagnose => ActionView::Diagnose,
            Action::Farewell => ActionView::Farewell,
            Action::Abort => ActionView::Abort,
        }
    }
}

/// One line of what a run of the loop shows.
#[derive(Clone, Copy, Debug, PartialEq, Eq, Structural)]
pub enum Entry {
    /// The demonstrations of a topic ran.
    Ran(Topic),
    /// The separator written after the work of one token.
    Separator,
    /// The line written for an unrecognized token.
    Diagnostic,
    /// The goodbye written on an exit token.
    Farewell,
    /// The input stream failed.
    InputFailure,
}

/// Every topic, in the order in which "run all" runs them.
pub open spec fn registered_order() -> Seq<Topic> {
    seq![
        Topic::Basics,
        Topic::Ownership,
        Topic::StructsEnums,
        Topic::PatternMatching,
        Topic::ErrorHandling,
        Topic::TraitsGenerics,
        Topic::Collections,
        Topic::IteratorsClosures,
        Topic::Lifetimes,
    ]
}

/// The topics a selection runs, in order.
pub open spec fn plan_of(sel: Selection) -> Seq<Topic> {
    match sel {
        Selection::One(t) => seq![t],
        Selection::All => registered_order(),
        _ => Seq::empty(),
    }
}

/// The next phase and the action after reading `input`, a trimmed token, or
/// `None` where the stream could not be read.
pub open spec fn response_to(input: Option<Seq<char>>) -> (Phase, ActionView) {
    match input {
        None => (Phase::Failed, ActionView::Abort),
        Some(token) => match selection_of(token) {
            Selection::Quit => (Phase::Exited, ActionView::Farewell),
            Selection::Invalid => (Phase::AwaitingInput, ActionView::Diagnose),
            sel => (Phase::AwaitingInput, ActionView::Perform(plan_of(sel))),
        },
    }
}

/// What an action shows.
pub open spec fn entries_of(a: ActionView) -> Seq<Entry> {
    match a {
        ActionView::Perform(ts) => ts.map_values(|t: Topic| Entry::Ran(t)).push(Entry::Separator),
        ActionView::Diagnose => seq![Entry::Diagnostic],
        ActionView::Farewell => seq![Entry::Farewell],
        ActionView::Abort => seq![Entry::InputFailure],
    }
}

/// What a whole run shows when the stream yields `tokens` (already trimmed)
/// and then ends.
pub open spec fn session_log(tokens: Seq<Seq<char>>) -> Seq<Entry>
    decreases tokens.len(),
{
    if tokens.len() == 0 {
        entries_of(response_to(None).1)
    } else {
        let (phase, action) = response_to(Some(tokens[0]));
        if phase == Phase::AwaitingInput {
            entries_of(action) + session_log(tokens.drop_first())
        } else {
            entries_of(action)
        }
    }
}

/// The view of an optional token.
pub open spec fn token_view(input: Option<&str>) -> Option<Seq<char>> {
    match input {
        Some(s) => Some(s@),
        None => None,
    }
}

/// Every topic, in the registered order.
pub fn all_topics() -> (r: Vec<Topic>)
    ensures
        r@ == registered_order(),
{
    let r = vec![
        Topic::Basics,
        Topic::Ownership,
        Topic::StructsEnums,
        Topic::PatternMatching,
        Topic::ErrorHandling,
        Topic::TraitsGenerics,
        Topic::Collections,
        Topic::IteratorsClosures,
        Topic::Lifetimes,
    ];
    assert(r@ =~= registered_order());
    r
}

/// The next phase and the action after reading a trimmed token, or `None`
/// where the stream could not be read.
pub fn respond(input: Option<&str>) -> (r: (Phase, Action))
    ensures
        r.0 == response_to(token_view(input)).0,
        r.1@ == response_to(token_view(input)).1,
{
    match input {
        None => (Phase::Failed, Action::Abort),
        Some(token) => match select(token) {
            Selection::Quit => (Phase::Exited, Action::Farewell),
            Selection::Invalid => (Phase::AwaitingInput, Action::Diagnose),
            Selection::All => (Phase::AwaitingInput, Action::Perform(all_topics())),
            Selection::One(t) => {
                let v = vec![t];
                assert(v@ =~= seq![t]);
                (Phase::AwaitingInput, Action::Perform(v))
            },
        },
    }
}

/// The view of an optional raw line, once trimmed.
pub open spec fn line_view(input: Option<&str>) -> Option<Seq<char>> {
    match input {
        Some(s) => Some(trim_of(s@)),
        None => None,
    }
}

/// The next phase and the action after reading a raw line, or `None` where
/// the stream could not be read.
pub fn respond_to_line(input: Option<&str>) -> (r: (Phase, Action))
    ensures
        r.0 == response_to(line_view(input)).0,
        r.1@ == response_to(line_view(input)).1,
{
    match input {
        None => respond(None),
        Some(line) => respond(Some(trim_token(line))),
    }
}

/// Appends what an action shows to a transcript.
pub fn record(log: &mut Vec<Entry>, action: &Action)
    ensures
        final(log)@ == old(log)@ + entries_of(action@),
{
    match action {
        Action::Perform(topics) => {
            let ghost start = log@;
            let mut i: usize = 0;
            while i < topics.len()
                invariant
                    i <= topics@.len(),
                    log@ == start + topics@.take(i as int).map_values(|t: Topic| Entry::Ran(t)),
                decreases topics.len() - i,
            {
                log.push(Entry::Ran(topics[i]));
                i += 1;
                assert(topics@.take(i as int).map_values(|t: Topic| Entry::Ran(t)) =~= topics@.take(
                    (i - 1) as int,
                ).map_values(|t: Topic| Entry::Ran(t)).push(Entry::Ran(topics@[i - 1])));
            }
            assert(topics@.take(i as int) =~= topics@);
            log.push(Entry::Separator);
        },
        Action::Diagnose => log.push(Entry::Diagnostic),
        Action::Farewell => log.push(Entry::Farewell),
        Action::Abort => log.push(Entry::InputFailure),
    }
    assert(log@ =~= old(log)@ + entries_of(action@));
}

/// The views of a list of strings.
pub open spec fn views_of(lines: Seq<String>) -> Seq<Seq<char>> {
    lines.map_values(|s: String| s@)
}

/// The trimmed views of a list of raw lines.
pub open spec fn trimmed_views_of(lines: Seq<String>) -> Seq<Seq<char>> {
    lines.map_values(|s: String| trim_of(s@))
}

/// Runs the decisions of the menu loop over a stream that yields `tokens`
/// (already trimmed) and then ends, and returns what the run shows.
pub fn run_session(tokens: &Vec<String>) -> (r: Vec<Entry>)
    ensures
        r@ == session_log(views_of(tokens@)),
{
    let ghost toks = views_of(tokens@);
    let mut log: Vec<Entry> = Vec::new();
    let mut i: usize = 0;
    let mut done = false;
    assert(toks.subrange(0, toks.len() as int) =~= toks);
    assert(log@ + session_log(toks.subrange(0, toks.len() as int)) =~= session_log(toks));
    while i < tokens.len() && !done
        invariant
            i <= tokens@.len(),
            toks == views_of(tokens@),
            !done ==> log@ + session_log(toks.subrange(i as int, toks.len() as int)) == session_log(
                toks,
            ),
            done ==> log@ == session_log(toks),
        decreases tokens.len() - i,
    {
        let ghost rest = toks.subrange(i as int, toks.len() as int);
        let ghost before = log@;
        let (phase, action) = respond(Some(tokens[i].as_str()));
        record(&mut log, &action);
        proof {
            assert(rest[0] == toks[i as int]);
            assert(rest.drop_first() =~= toks.subrange(i + 1, toks.len() as int));
        }
        if phase != Phase::AwaitingInput {
            done = true;
            assert(session_log(rest) == entries_of(action@));
        } else {
            assert(session_log(rest) == entries_of(action@) + session_log(rest.drop_first()));
            assert(before + session_log(rest) =~= log@ + session_log(rest.drop_first()));
        }
        i += 1;
    }
    if !done {
        let (_, action) = respond(None);
        record(&mut log, &action);
        assert(toks.subrange(i as int, toks.len() as int).len() == 0);
    }
    log
}

/// Runs the decisions of the menu loop over a stream that yields the raw
/// `lines` and then ends, and returns what the run shows.
pub fn run_lines(lines: &Vec<String>) -> (r: Vec<Entry>)
    ensures
        r@ == session_log(trimmed_views_of(lines@)),
{
    let mut tokens: Vec<String> = Vec::new();
    let mut i: usize = 0;
    while i < lines.len()
        invariant
            i <= lines@.len(),
            views_of(tokens@) =~= trimmed_views_of(lines@.take(i as int)),
        decreases lines.len() - i,
    {
        let ghost before = tokens@;
        let token = trim_token(lines[i].as_str()).to_owned();
        assert(token@ == trim_of(lines@[i as int]@));
        tokens.push(token);
        assert(tokens@ == before.push(token));
        i += 1;
        assert(lines@.take(i as int) =~= lines@.take(i - 1).push(lines@[i - 1]));
        assert(views_of(tokens@) =~= views_of(before).push(tokens@[i - 1]@));
        assert(trimmed_views_of(lines@.take(i as int)) =~= trimmed_views_of(lines@.take(i - 1)).push(
            trim_of(lines@[i - 1]@),
        ));
        assert(views_of(tokens@) =~= trimmed_views_of(lines@.take(i as int)));
    }
    assert(lines@.take(i as int) =~= lines@);
    run_session(&tokens)
}

/// Unfolds a run whose first token keeps the loop waiting for input.
proof fn session_log_first(token: Seq<char>, rest: Seq<Seq<char>>)
    ensures
        session_log(seq![token] + rest) == (if response_to(Some(token)).0 == Phase::AwaitingInput {
            entries_of(response_to(Some(token)).1) + session_log(rest)
        } else {
            entries_of(response_to(Some(token)).1)
        }),
{
    let toks = seq![token] + rest;
    assert(toks[0] == token);
    assert(toks.drop_first() =~= rest);
}

/// A token that names one topic runs the demonstrations of that topic and no
/// other, writes a separator, and leaves the loop waiting for input.
pub proof fn single_topic_token_runs_it_alone(token: Seq<char>, rest: Seq<Seq<char>>)
    requires
        selection_of(token) is One,
    ensures
        response_to(Some(token)) == (
        Phase::AwaitingInput,
        ActionView::Perform(seq![selection_of(token)->One_0]),
        ),
        session_log(seq![token] + rest) == seq![
            Entry::Ran(selection_of(token)->One_0),
            Entry::Separator,
        ] + session_log(rest),
{
    let t = selection_of(token)->One_0;
    session_log_first(token, rest);
    assert(entries_of(ActionView::Perform(seq![t])) =~= seq![Entry::Ran(t), Entry::Separator]);
}

/// The "run all" token runs every topic exactly once, in the registered
/// order, in one cycle, and leaves the loop waiting for input.
pub proof fn run_all_token_runs_every_topic_once(token: Seq<char>, rest: Seq<Seq<char>>)
    requires
        selection_of(token) == Selection::All,
    ensures
        response_to(Some(token)) == (Phase::AwaitingInput, ActionView::Perform(registered_order())),
        registered_order().no_duplicates(),
        forall|t: Topic| registered_order().contains(t),
        session_log(seq![token] + rest) == registered_order().map_values(|t: Topic| Entry::Ran(t)).push(
            Entry::Separator,
        ) + session_log(rest),
{
    session_log_first(token, rest);
    let order = registered_order();
    assert forall|t: Topic| order.contains(t) by {
        match t {
            Topic::Basics => assert(order[0] == t),
            Topic::Ownership => assert(order[1] == t),
            Topic::StructsEnums => assert(order[2] == t),
            Topic::PatternMatching => assert(order[3] == t),
            Topic::ErrorHandling => assert(order[4] == t),
            Topic::TraitsGenerics => assert(order[5] == t),
            Topic::Collections => assert(order[6] == t),
            Topic::IteratorsClosures => assert(order[7] == t),
            Topic::Lifetimes => assert(order[8] == t),
        }
    }
}

/// A token that names nothing runs no demonstration, writes one diagnostic
/// line, and leaves the loop exactly as it was: the rest of the run is the
/// same as if the token had never been read.
pub proof fn unrecognized_token_changes_nothing(token: Seq<char>, rest: Seq<Seq<char>>)
    requires
        selection_of(token) == Selection::Invalid,
    ensures
        response_to(Some(token)) == (Phase::AwaitingInput, ActionView::Diagnose),
        session_log(seq![token] + rest) == seq![Entry::Diagnostic] + session_log(rest),
{
    session_log_first(token, rest);
}

/// The exit token is read in either case, `q` or `Q`, and ends the run with
/// a goodbye; no other token ends the loop.
pub proof fn exit_tokens_ignore_case(token: Seq<char>, rest: Seq<Seq<char>>)
    ensures
        response_to(Some(seq!['q'])) == (Phase::Exited, ActionView::Farewell),
        response_to(Some(seq!['Q'])) == (Phase::Exited, ActionView::Farewell),
        response_to(Some(token)).0 == Phase::Exited <==> (token == seq!['q'] || token == seq!['Q']),
        response_to(Some(token)).0 != Phase::Failed,
        (token == seq!['q'] || token == seq!['Q']) ==> session_log(seq![token] + rest) == seq![
            Entry::Farewell,
        ],
{
    session_log_first(token, rest);
    assert(seq!['q'].len() == 1 && seq!['q'][0] == 'q');
    assert(seq!['Q'].len() == 1 && seq!['Q'][0] == 'Q');
    if response_to(Some(token)).0 == Phase::Exited {
        assert(token =~= seq![token[0]]);
    }
}

} // verus!
