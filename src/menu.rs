//! The fixed set of topics and the reading of one menu token.

use vstd::prelude::*;
use vstd::std_specs::iter::IteratorSpec;

verus! {

/// One demonstration topic of the tour.
#[derive(Clone, Copy, Debug, PartialEq, Eq, Structural)]
pub enum Topic {
    Basics,
    Ownership,
    StructsEnums,
    PatternMatching,
    ErrorHandling,
    TraitsGenerics,
    Collections,
    IteratorsClosures,
    Lifetimes,
}

/// The topic that a single menu character names, if any.
pub open spec fn topic_of_char(c: char) -> Option<Topic> {
    if c == '1' {
        Some(Topic::Basics)
    } else if c == '2' {
        Some(Topic::Ownership)
    } else if c == '3' {
        Some(Topic::StructsEnums)
    } else if c == '4' {
        Some(Topic::PatternMatching)
    } else if c == '5' {
        Some(Topic::ErrorHandling)
    } else if c == '6' {
        Some(Topic::TraitsGenerics)
    } else if c == '7' {
        Some(Topic::Collections)
    } else if c == '8' {
        Some(Topic::IteratorsClosures)
    } else if c == '9' {
        Some(Topic::Lifetimes)
    } else {
        None
    }
}

/// Finds the topic a menu character names.
pub fn topic_for_char(c: char) -> (r: Option<Topic>)
    ensures
        r == topic_of_char(c),
{
    match c {
        '1' => Some(Topic::Basics),
        '2' => Some(Topic::Ownership),
        '3' => Some(Topic::StructsEnums),
        '4' => Some(Topic::PatternMatching),
        '5' => Some(Topic::ErrorHandling),
        '6' => Some(Topic::TraitsGenerics),
        '7' => Some(Topic::Collections),
        '8' => Some(Topic::IteratorsClosures),
        '9' => Some(Topic::Lifetimes),
        _ => None,
    }
}

/// What a menu token asks for.
#[derive(Clone, Copy, Debug, PartialEq, Eq, Structural)]
pub enum Selection {
    /// Run the demonstrations of one topic.
    One(Topic),
    /// Run every topic, in the registered order.
    All,
    /// Leave the menu loop.
    Quit,
    /// A token that names nothing.
    Invalid,
}

/// The character that asks for every topic.
pub open spec fn is_all_char(c: char) -> bool {
    c == '0'
}

/// The characters that end the loop, in either case.
pub open spec fn is_quit_char(c: char) -> bool {
    c == 'q' || c == 'Q'
}

/// What a single character asks for.
pub open spec fn selection_of_char(c: char) -> Selection {
    if is_all_char(c) {
        Selection::All
    } else if is_quit_char(c) {
        Selection::Quit
    } else {
        match topic_of_char(c) {
            Some(t) => Selection::One(t),
            None => Selection::Invalid,
        }
    }
}

/// What an already trimmed token asks for: only one-character tokens are
/// recognized.
pub open spec fn selection_of(token: Seq<char>) -> Selection {
    if token.len() == 1 {
        selection_of_char(token[0])
    } else {
        Selection::Invalid
    }
}

/// Reads what a single character asks for.
pub fn select_char(c: char) -> (r: Selection)
    ensures
        r == selection_of_char(c),
{
    if c == '0' {
        Selection::All
    } else if c == 'q' || c == 'Q' {
        Selection::Quit
    } else {
        match topic_for_char(c) {
            Some(t) => Selection::One(t),
            None => Selection::Invalid,
        }
    }
}

/// Reads what a trimmed token asks for.
pub fn select(token: &str) -> (r: Selection)
    ensures
        r == selection_of(token@),
{
    broadcast use vstd::string::axiom_spec_iter, vstd::string::next_postcondition;

    let mut chars = token.chars();
    let first = chars.next();
    match first {
        None => Selection::Invalid,
        Some(c) => {
            let second = chars.next();
            match second {
                None => select_char(c),
                Some(_) => Selection::Invalid,
            }
        },
    }
}

/// What `str::trim` leaves of a line: the line without its leading and
/// trailing whitespace.
pub uninterp spec fn trim_of(line: Seq<char>) -> Seq<char>;

/// Relies on `str::trim`: the line without leading and trailing whitespace,
/// a function of the line's characters alone.
#[verifier::external_body]
pub(crate) fn trim_token(line: &str) -> (r: &str)
    ensures
        r@ == trim_of(line@),
{
    line.trim()
}

/// Reads what a raw input line asks for, once trimmed.
pub fn select_line(line: &str) -> (r: Selection)
    ensures
        r == selection_of(trim_of(line@)),
{
    select(trim_token(line))
}

} // verus!
