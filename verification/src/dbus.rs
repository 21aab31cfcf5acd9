//! Signals of the session bus, as a bus monitor prints them line by line.
//!
//! A signal starts with a header line: the word `signal`, then words of the
//! form `key=value`. The member of the signal is the value that stands under
//! the key `member`. Every other line belongs to the body of a signal and is
//! passed over.

use crate::text::{
    begins_with, chars_of, is_space, lemma_prefix_len_is, lemma_prefix_len_within,
    lemma_tokens_are_words, next_token, prefix_len, tokens,
};
use crate::time::Timestamp;
use std::sync::mpsc::Sender;
use vstd::prelude::*;
use vstd::string::*;

verus! {

/// A signal that was seen on the bus.
#[derive(Debug, Clone, PartialEq, Eq)]
pub struct Event {
    /// The time the event took place
    pub time: Timestamp,
    /// The member field of the event, e.g. "WakeUpScreen"
    pub member: String,
}

/// What became of one line of the monitor's output.
#[derive(Debug, Clone, Copy, PartialEq, Eq, Structural)]
pub enum Relay {
    /// The line was no header that names its member: nothing was sent.
    NoEvent,
    /// The event of the line is in the channel.
    Sent,
    /// The event of the line could not be sent: nobody listens any more.
    Closed,
}

/// `std::sync::mpsc::Sender`, the sending end of a channel. It is handed on
/// to the call that sends and never looked into.
#[verifier::external_type_specification]
#[verifier::external_body]
#[verifier::reject_recursive_types(T)]
pub struct ExSender<T>(Sender<T>);

/// Puts `event` in the channel with `std::sync::mpsc::Sender::send`, which
/// does not wait. `true` where that call returned `Ok`; `false` where it
/// returned its error, which it does when the receiving end is gone. Which of
/// the two happens lies with the receiver: nothing is claimed of it.
#[verifier::external_body]
fn send_event(tx: &Sender<Event>, event: Event) -> (sent: bool) {
    match tx.send(event) {
        Ok(()) => true,
        Err(_) => false,
    }
}

impl Relay {
    /// What became of a line whose event was handed to the channel, where
    /// `sent` says whether the channel took it.
    pub fn after_send(sent: bool) -> (relay: Relay)
        ensures
            relay == if sent {
                Relay::Sent
            } else {
                Relay::Closed
            },
    {
        if sent {
            Relay::Sent
        } else {
            Relay::Closed
        }
    }

    /// Whether the watcher goes on to the next line. It stops when nobody
    /// listens any more, and only then.
    pub fn keeps_watching(&self) -> (goes_on: bool)
        ensures
            goes_on == !(self is Closed),
    {
        match self {
            Relay::Closed => false,
            _ => true,
        }
    }
}

/// An [`Event`] as the contracts see it.
pub struct EventView {
    pub time: nat,
    pub member: Seq<char>,
}

impl View for Event {
    type V = EventView;

    open spec fn view(&self) -> EventView {
        EventView { time: self.time@, member: self.member@ }
    }
}

/// The length of the longest prefix of `s` that holds no `=`.
pub open spec fn value_len(s: Seq<char>) -> nat {
    prefix_len(s, |c: char| c == '=')
}

/// The member that the word `word` of a header line gives: where the word
/// starts with `member=`, what follows up to the next `=` or to the end of
/// the word.
pub open spec fn member_value(word: Seq<char>) -> Option<Seq<char>> {
    let key = "member="@;
    if key.is_prefix_of(word) {
        let rest = word.skip(key.len() as int);
        Some(rest.take(value_len(rest) as int))
    } else {
        None
    }
}

/// The member that the last of `words` to give one gives.
pub open spec fn last_member(words: Seq<Seq<char>>) -> Option<Seq<char>>
    decreases words.len(),
{
    if words.len() == 0 {
        None
    } else {
        match last_member(words.drop_first()) {
            Some(member) => Some(member),
            None => member_value(words[0]),
        }
    }
}

/// The member of the signal that `line` is the header of: `None` where the
/// first word of the line is not `signal`, or where no word after it gives a
/// member.
pub open spec fn member_of(line: Seq<char>) -> Option<Seq<char>> {
    let words = tokens(line);
    if words.len() > 0 && words[0] == "signal"@ {
        last_member(words.drop_first())
    } else {
        None
    }
}

/// `last_member` is the member of the last word that gives one, and `None`
/// where no word gives one.
pub proof fn lemma_last_member(words: Seq<Seq<char>>)
    ensures
        match last_member(words) {
            Some(member) => exists|i: int|
                {
                    &&& 0 <= i < words.len()
                    &&& #[trigger] member_value(words[i]) == Some(member)
                    &&& forall|j: int| i < j < words.len() ==> member_value(words[j]) is None
                },
            None => forall|i: int| 0 <= i < words.len() ==> member_value(words[i]) is None,
        },
    decreases words.len(),
{
    if words.len() > 0 {
        let rest = words.drop_first();
        lemma_last_member(rest);
        match last_member(rest) {
            Some(member) => {
                let i = choose|i: int|
                    {
                        &&& 0 <= i < rest.len()
                        &&& #[trigger] member_value(rest[i]) == Some(member)
                        &&& forall|j: int| i < j < rest.len() ==> member_value(rest[j]) is None
                    };
                assert forall|j: int| i + 1 < j < words.len() implies member_value(
                    words[j],
                ) is None by {
                    assert(words[j] == rest[j - 1]);
                }
            },
            None => {
                assert forall|j: int| 0 < j < words.len() implies member_value(
                    words[j],
                ) is None by {
                    assert(words[j] == rest[j - 1]);
                }
            },
        }
    }
}

/// The member of a header line is part of one word of it: it holds no white
/// space and no `=`.
pub proof fn lemma_member_is_plain(line: Seq<char>)
    ensures
        member_of(line) matches Some(member) ==> forall|k: int|
            0 <= k < member.len() ==> !is_space(#[trigger] member[k]) && member[k] != '=',
{
    if let Some(member) = member_of(line) {
        let words = tokens(line);
        let later = words.drop_first();
        lemma_last_member(later);
        let i = choose|i: int|
            {
                &&& 0 <= i < later.len()
                &&& #[trigger] member_value(later[i]) == Some(member)
                &&& forall|j: int| i < j < later.len() ==> member_value(later[j]) is None
            };
        let word = words[i + 1];
        lemma_tokens_are_words(line);
        let rest = word.skip("member="@.len() as int);
        lemma_prefix_len_within(rest, |c: char| c == '=');
        assert forall|k: int| 0 <= k < member.len() implies !is_space(#[trigger] member[k])
            && member[k] != '=' by {
            assert(member[k] == rest[k]);
        }
    }
}

impl Event {
    /// The event of the signal `member`, seen at the present moment.
    pub fn new(member: String) -> (event: Event)
        ensures
            event.member == member,
    {
        Event { time: Timestamp::now(), member }
    }
}

/// Where the word that fills the positions from `start` up to `end` gives a
/// member, the positions that the member fills.
fn member_range(chars: &Vec<char>, start: usize, end: usize, key: &Vec<char>) -> (found: Option<
    (usize, usize),
>)
    requires
        start <= end <= chars.len(),
        key@ == "member="@,
    ensures
        match found {
            None => member_value(chars@.subrange(start as int, end as int)) is None,
            Some((from, to)) => {
                &&& start <= from <= to <= end
                &&& member_value(chars@.subrange(start as int, end as int)) == Some(
                    chars@.subrange(from as int, to as int),
                )
            },
        },
{
    if !begins_with(chars, start, end, key) {
        return None;
    }
    let from: usize = start + key.len();
    let mut to: usize = from;
    while to < end && chars[to] != '='
        invariant
            start <= from <= to <= end <= chars.len(),
            forall|k: int| from <= k < to ==> chars@[k] != '=',
        decreases end - to,
    {
        to = to + 1;
    }
    proof {
        let word = chars@.subrange(start as int, end as int);
        let rest = word.skip(key@.len() as int);
        let stop = |c: char| c == '=';
        assert forall|k: int| 0 <= k < to - from implies !stop(#[trigger] rest[k]) by {
            assert(rest[k] == chars@[from + k]);
        }
        lemma_prefix_len_is(rest, stop, to - from);
    }
    Some((from, to))
}

/// Reads one line of the monitor's output and gives the member of the signal
/// that the line is the header of, if it is one and names its member.
pub fn parse_member(line: &str) -> (member: Option<String>)
    ensures
        match member {
            Some(name) => member_of(line@) == Some(name@),
            None => member_of(line@) is None,
        },
{
    let chars = chars_of(line);
    let signal = chars_of("signal");
    let key = chars_of("member=");
    let ghost words = tokens(line@);
    assert(chars@.skip(0) =~= chars@);
    let (start, end) = match next_token(&chars, 0) {
        None => {
            return None;
        },
        Some(first) => first,
    };
    let ghost first = chars@.subrange(start as int, end as int);
    let ghost rest = tokens(chars@.skip(end as int));
    assert(words.drop_first() =~= rest);
    if end - start != signal.len() || !begins_with(&chars, start, end, &signal) {
        return None;
    }
    assert(first == signal@);
    let mut found: Option<(usize, usize)> = None;
    let mut pos: usize = end;
    let mut next = next_token(&chars, pos);
    while next.is_some()
        invariant
            pos <= chars.len(),
            key@ == "member="@,
            match next {
                None => tokens(chars@.skip(pos as int)).len() == 0,
                Some((a, b)) => {
                    &&& pos <= a < b <= chars.len()
                    &&& tokens(chars@.skip(pos as int)) == seq![chars@.subrange(a as int, b as int)]
                        + tokens(chars@.skip(b as int))
                },
            },
            match found {
                None => last_member(rest) == last_member(tokens(chars@.skip(pos as int))),
                Some((from, to)) => {
                    &&& from <= to <= chars.len()
                    &&& last_member(rest) == match last_member(tokens(chars@.skip(pos as int))) {
                        Some(later) => Some(later),
                        None => Some(chars@.subrange(from as int, to as int)),
                    }
                },
            },
        decreases chars.len() - pos,
    {
        let (a, b) = next.unwrap();
        proof {
            let here = tokens(chars@.skip(pos as int));
            assert(here.drop_first() =~= tokens(chars@.skip(b as int)));
        }
        match member_range(&chars, a, b, &key) {
            Some(range) => {
                found = Some(range);
            },
            None => {},
        }
        pos = b;
        next = next_token(&chars, pos);
    }
    match found {
        None => None,
        Some((from, to)) => {
            let name = line.substring_char(from, to);
            Some(String::from_str(name))
        },
    }
}

/// Reads one line of the monitor's output. A header line that names its
/// member gives the event of that signal, seen at the present moment; any
/// other line gives none.
pub fn parse_dbus_line(line: &str) -> (event: Option<Event>)
    ensures
        match event {
            Some(seen) => member_of(line@) == Some(seen@.member),
            None => member_of(line@) is None,
        },
{
    match parse_member(line) {
        Some(member) => Some(Event::new(member)),
        None => None,
    }
}

/// Reads one line of the monitor's output and, where it is a header line
/// that names its member, sends the event of that signal on `tx`. Whether
/// the channel takes the event lies with the receiver.
pub fn relay_line(line: &str, tx: &Sender<Event>) -> (relay: Relay)
    ensures
        relay is NoEvent <==> member_of(line@) is None,
{
    match parse_dbus_line(line) {
        Some(event) => Relay::after_send(send_event(tx, event)),
        None => Relay::NoEvent,
    }
}

} // verus!
