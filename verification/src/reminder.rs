//! The reminder: a countdown from the last time the desktop woke up, and a
//! snooze that holds the reminder off for a while once the countdown is over.
//!
//! Nothing here keeps a clock running. The reminder stores the moments at
//! which the countdown and the snooze began, and each answer is worked out
//! from those and from the moment of the question.

use crate::dbus::{Event, EventView};
use crate::time::{time_left, time_since, Span, Timestamp, NANOS_PER_SEC};
use std::sync::mpsc::Receiver;
use vstd::prelude::*;
use vstd::string::*;

verus! {

/// The seconds that the countdown runs where no other length is set.
pub const DEFAULT_TIMER_SECS: u64 = 30 * 60;

/// The seconds that a snooze lasts where no other length is set.
pub const DEFAULT_SNOOZE_SECS: u64 = 5 * 60;

/// `std::sync::mpsc::Receiver`, the receiving end of a channel. It is handed
/// on to the call that receives and never looked into.
#[verifier::external_type_specification]
#[verifier::external_body]
#[verifier::reject_recursive_types(T)]
pub struct ExReceiver<T>(Receiver<T>);

/// Takes the event at the head of the channel without waiting for one, with
/// `std::sync::mpsc::Receiver::try_recv`. `None` stands for both of that
/// call's errors: no event is waiting, or the sending side is gone. Which
/// event comes, if any, lies with the sender: nothing is claimed of it.
#[verifier::external_body]
fn try_receive(receiver: &Receiver<Event>) -> (event: Option<Event>) {
    match receiver.try_recv() {
        Ok(event) => Some(event),
        Err(_) => None,
    }
}

/// The reminder as the contracts see it. Moments are nanoseconds since the
/// Unix epoch, lengths of time are nanoseconds.
pub struct Reminder {
    /// How many ticks the reminder has gone through.
    pub tick_count: nat,
    /// The moment from which the countdown runs.
    pub last_reset_time: nat,
    /// The length of the countdown.
    pub timer_duration: nat,
    /// The length of a snooze.
    pub snooze_duration: nat,
    /// The moment at which the snooze began, while there is one.
    pub snooze_started_at: Option<nat>,
}

/// Whether the signal `member` is the one that restarts the countdown.
pub open spec fn is_wake_signal(member: Seq<char>) -> bool {
    member == "WakeUpScreen"@
}

impl Reminder {
    /// The reminder that starts at `now` with the default lengths.
    pub open spec fn starting(now: nat) -> Reminder {
        Reminder {
            tick_count: 0,
            last_reset_time: now,
            timer_duration: DEFAULT_TIMER_SECS as nat * NANOS_PER_SEC as nat,
            snooze_duration: DEFAULT_SNOOZE_SECS as nat * NANOS_PER_SEC as nat,
            snooze_started_at: None,
        }
    }

    /// The time that has passed at `now` since the countdown began.
    pub open spec fn elapsed(self, now: nat) -> int {
        time_since(now, self.last_reset_time)
    }

    /// The time that is left at `now`: of the snooze where there is one, of
    /// the countdown where there is none.
    pub open spec fn remaining(self, now: nat) -> int {
        match self.snooze_started_at {
            Some(started) => time_left(self.snooze_duration as int, time_since(now, started)),
            None => time_left(self.timer_duration as int, self.elapsed(now)),
        }
    }

    /// Whether no time is left at `now`.
    pub open spec fn is_past_due(self, now: nat) -> bool {
        self.remaining(now) == 0
    }

    /// The reminder after a snooze that begins at `now`.
    pub open spec fn snoozed(self, now: nat) -> Reminder {
        Reminder { snooze_started_at: Some(now), ..self }
    }

    /// The reminder after one tick that took `event` from the channel, or
    /// found nothing there.
    pub open spec fn ticked(self, event: Option<EventView>) -> Reminder {
        let counted = Reminder { tick_count: self.tick_count + 1, ..self };
        match event {
            Some(seen) => if is_wake_signal(seen.member) {
                Reminder { last_reset_time: seen.time, snooze_started_at: None, ..counted }
            } else {
                counted
            },
            None => counted,
        }
    }
}

/// The time that is left is never negative, and never more than the length
/// of what is being counted: the snooze where there is one, the countdown
/// where there is none.
pub proof fn lemma_remaining_bounded(reminder: Reminder, now: nat)
    ensures
        0 <= reminder.remaining(now),
        reminder.snooze_started_at is Some ==> reminder.remaining(now)
            <= reminder.snooze_duration,
        reminder.snooze_started_at is None ==> reminder.remaining(now) <= reminder.timer_duration,
        0 <= reminder.elapsed(now),
{
}

/// While nothing acts on the reminder, the time that is left only goes down
/// as time goes on, and once the reminder is past due it stays so.
pub proof fn lemma_remaining_goes_down(reminder: Reminder, earlier: nat, later: nat)
    requires
        earlier <= later,
    ensures
        reminder.remaining(later) <= reminder.remaining(earlier),
        reminder.is_past_due(earlier) ==> reminder.is_past_due(later),
{
}

/// Without a snooze, the reminder is past due from the moment at which the
/// whole length of the countdown has passed since it began, and not before.
pub proof fn lemma_past_due_when_countdown_over(reminder: Reminder, now: nat)
    requires
        reminder.snooze_started_at is None,
    ensures
        reminder.is_past_due(now) <==> reminder.elapsed(now) >= reminder.timer_duration,
        reminder.remaining(now) == time_left(reminder.timer_duration as int, reminder.elapsed(now)),
{
}

/// A snooze gives its whole length at the moment at which it begins,
/// whatever was left before, and the reminder is past due again once that
/// length has passed.
pub proof fn lemma_snooze_grants_its_length(reminder: Reminder, now: nat, later: nat)
    ensures
        reminder.snoozed(now).remaining(now) == reminder.snooze_duration,
        later >= now + reminder.snooze_duration ==> reminder.snoozed(now).is_past_due(later),
        now <= later < now + reminder.snooze_duration ==> reminder.snoozed(now).remaining(later)
            == reminder.snooze_duration - (later - now),
{
}

/// A snooze taken during a snooze starts the count anew: the first one adds
/// nothing to the second.
pub proof fn lemma_snooze_replaces_snooze(reminder: Reminder, first: nat, second: nat)
    ensures
        reminder.snoozed(first).snoozed(second) == reminder.snoozed(second),
{
}

/// The wake signal restarts the countdown at the time of its event and ends
/// the snooze, however long the reminder has been past due.
pub proof fn lemma_wake_signal_resets(reminder: Reminder, event: EventView, now: nat)
    requires
        is_wake_signal(event.member),
    ensures
        reminder.ticked(Some(event)).last_reset_time == event.time,
        reminder.ticked(Some(event)).snooze_started_at is None,
        reminder.ticked(Some(event)).elapsed(event.time) == 0,
        reminder.ticked(Some(event)).remaining(event.time) == reminder.timer_duration,
        now >= event.time ==> reminder.ticked(Some(event)).elapsed(now) == now - event.time,
{
}

/// A tick that takes any other signal from the channel, or none, counts the
/// tick and changes nothing else: at every moment the same time has passed
/// and the same time is left as without it.
pub proof fn lemma_other_signal_changes_no_time(
    reminder: Reminder,
    event: Option<EventView>,
    now: nat,
)
    requires
        event matches Some(seen) ==> !is_wake_signal(seen.member),
    ensures
        reminder.ticked(event) == (Reminder { tick_count: reminder.tick_count + 1, ..reminder }),
        reminder.ticked(event).elapsed(now) == reminder.elapsed(now),
        reminder.ticked(event).remaining(now) == reminder.remaining(now),
        reminder.ticked(event).is_past_due(now) == reminder.is_past_due(now),
{
}

/// No tick changes the lengths of the countdown and of the snooze, and each
/// tick is counted once.
pub proof fn lemma_tick_keeps_lengths(reminder: Reminder, event: Option<EventView>)
    ensures
        reminder.ticked(event).timer_duration == reminder.timer_duration,
        reminder.ticked(event).snooze_duration == reminder.snooze_duration,
        reminder.ticked(event).tick_count == reminder.tick_count + 1,
{
}

/// Two ticks take two events in the order in which they came: where the wake
/// signal comes second, after any other signal, the reminder is left reset
/// at the time of the wake signal.
pub proof fn lemma_later_wake_signal_wins(reminder: Reminder, first: EventView, second: EventView)
    requires
        !is_wake_signal(first.member),
        is_wake_signal(second.member),
    ensures
        reminder.ticked(Some(first)).ticked(Some(second)) == (Reminder {
            tick_count: reminder.tick_count + 2,
            last_reset_time: second.time,
            snooze_started_at: None,
            ..reminder
        }),
{
}

/// What the contracts see of an event that may have come.
pub open spec fn seen(event: Option<Event>) -> Option<EventView> {
    match event {
        Some(event) => Some(event@),
        None => None,
    }
}

/// The live reminder. It owns the receiving end of the channel on which the
/// bus watcher sends the signals it has seen.
pub struct AppState {
    dbus_receiver: Receiver<Event>,
    count: u32,
    last_reset: Timestamp,
    timer_duration: Span,
    last_snooze: Option<Timestamp>,
    snooze_duration: Span,
}

impl View for AppState {
    type V = Reminder;

    closed spec fn view(&self) -> Reminder {
        Reminder {
            tick_count: self.count as nat,
            last_reset_time: self.last_reset@,
            timer_duration: self.timer_duration@,
            snooze_duration: self.snooze_duration@,
            snooze_started_at: match self.last_snooze {
                Some(started) => Some(started@),
                None => None,
            },
        }
    }
}

impl AppState {
    /// The channel end from which the reminder takes its events.
    pub closed spec fn receiver(&self) -> Receiver<Event> {
        self.dbus_receiver
    }

    /// A reminder that listens on `rx` and starts its countdown at the
    /// present moment, with the default lengths.
    pub fn new(rx: Receiver<Event>) -> (state: AppState)
        ensures
            exists|now: nat| state@ == Reminder::starting(now),
            state.receiver() == rx,
    {
        AppState::starting_at(rx, Timestamp::now())
    }

    /// A reminder that listens on `rx` and starts its countdown at `now`,
    /// with the default lengths.
    pub fn starting_at(rx: Receiver<Event>, now: Timestamp) -> (state: AppState)
        ensures
            state@ == Reminder::starting(now@),
            state.receiver() == rx,
    {
        AppState {
            dbus_receiver: rx,
            count: 0,
            last_reset: now,
            timer_duration: Span::from_secs(DEFAULT_TIMER_SECS),
            last_snooze: None,
            snooze_duration: Span::from_secs(DEFAULT_SNOOZE_SECS),
        }
    }

    /// The same reminder with a countdown of `seconds` seconds.
    pub fn with_duration(self, seconds: u64) -> (state: AppState)
        ensures
            state@ == (Reminder {
                timer_duration: seconds as nat * NANOS_PER_SEC as nat,
                ..self@
            }),
            state.receiver() == self.receiver(),
    {
        let mut state = self;
        state.timer_duration = Span::from_secs(seconds);
        state
    }

    /// The same reminder with a snooze of `seconds` seconds.
    pub fn with_snooze(self, seconds: u64) -> (state: AppState)
        ensures
            state@ == (Reminder {
                snooze_duration: seconds as nat * NANOS_PER_SEC as nat,
                ..self@
            }),
            state.receiver() == self.receiver(),
    {
        let mut state = self;
        state.snooze_duration = Span::from_secs(seconds);
        state
    }

    /// One tick: takes at most one event from the channel and lets it act on
    /// the reminder as [`AppState::tick_with`] says.
    pub fn tick(&mut self)
        requires
            old(self)@.tick_count < u32::MAX,
        ensures
            exists|event: Option<EventView>| final(self)@ == old(self)@.ticked(event),
            final(self).receiver() == old(self).receiver(),
    {
        let event = try_receive(&self.dbus_receiver);
        self.tick_with(event);
    }

    /// One tick in which `event` came from the channel, or nothing did. The
    /// wake signal restarts the countdown at the time of the event and ends
    /// the snooze; any other signal is dropped. The tick is counted in each
    /// case.
    pub fn tick_with(&mut self, event: Option<Event>)
        requires
            old(self)@.tick_count < u32::MAX,
        ensures
            final(self)@ == old(self)@.ticked(seen(event)),
            final(self).receiver() == old(self).receiver(),
    {
        self.count = self.count + 1;
        match event {
            Some(event) => {
                let wake = String::from_str("WakeUpScreen");
                if event.member == wake {
                    self.last_reset = event.time;
                    self.last_snooze = None;
                }
            },
            None => {},
        }
    }

    /// Begins a snooze at the present moment.
    pub fn snooze(&mut self)
        ensures
            exists|now: nat| final(self)@ == old(self)@.snoozed(now),
            final(self).receiver() == old(self).receiver(),
    {
        self.snooze_at(Timestamp::now());
    }

    /// Begins a snooze at `now`. A snooze that is under way is replaced, not
    /// lengthened.
    pub fn snooze_at(&mut self, now: Timestamp)
        ensures
            final(self)@ == old(self)@.snoozed(now@),
            final(self).receiver() == old(self).receiver(),
    {
        self.last_snooze = Some(now);
    }

    /// Whether a snooze has begun that no wake signal has ended since. It
    /// may have run out.
    pub fn is_snoozing(&self) -> (snoozing: bool)
        ensures
            snoozing == self@.snooze_started_at is Some,
    {
        self.last_snooze.is_some()
    }

    /// Whether no time is left at the present moment.
    pub fn is_past_due(&self) -> (due: bool)
        ensures
            exists|now: nat| due == self@.is_past_due(now),
    {
        self.is_past_due_at(Timestamp::now())
    }

    /// Whether no time is left at `now`.
    pub fn is_past_due_at(&self, now: Timestamp) -> (due: bool)
        ensures
            due == self@.is_past_due(now@),
    {
        self.remaining_at(now).is_zero()
    }

    /// The time that has passed since the countdown began.
    pub fn elapsed(&self) -> (passed: Span)
        ensures
            exists|now: nat| passed@ == self@.elapsed(now),
    {
        self.elapsed_at(Timestamp::now())
    }

    /// The time that has passed at `now` since the countdown began.
    pub fn elapsed_at(&self, now: Timestamp) -> (passed: Span)
        ensures
            passed@ == self@.elapsed(now@),
    {
        now.since(self.last_reset)
    }

    /// The time that is left at the present moment.
    pub fn remaining(&self) -> (left: Span)
        ensures
            exists|now: nat| left@ == self@.remaining(now),
    {
        self.remaining_at(Timestamp::now())
    }

    /// The time that is left at `now`. While there is a snooze, it alone
    /// counts: what is left of it, and nothing once it has run out, however
    /// much of the countdown there may still be.
    pub fn remaining_at(&self, now: Timestamp) -> (left: Span)
        ensures
            left@ == self@.remaining(now@),
    {
        match self.last_snooze {
            Some(started) => self.snooze_duration.left_after(now.since(started)),
            None => self.timer_duration.left_after(self.elapsed_at(now)),
        }
    }

    /// How many ticks the reminder has gone through.
    pub fn tick_count(&self) -> (count: u32)
        ensures
            count == self@.tick_count,
    {
        self.count
    }

    /// The moment from which the countdown runs.
    pub fn last_reset_time(&self) -> (moment: Timestamp)
        ensures
            moment@ == self@.last_reset_time,
    {
        self.last_reset
    }

    /// The moment at which the snooze began, while there is one.
    pub fn snooze_started_at(&self) -> (moment: Option<Timestamp>)
        ensures
            match moment {
                Some(started) => self@.snooze_started_at == Some(started@),
                None => self@.snooze_started_at is None,
            },
    {
        self.last_snooze
    }

    /// The length of the countdown.
    pub fn timer_duration(&self) -> (length: Span)
        ensures
            length@ == self@.timer_duration,
    {
        self.timer_duration
    }

    /// The length of a snooze.
    pub fn snooze_duration(&self) -> (length: Span)
        ensures
            length@ == self@.snooze_duration,
    {
        self.snooze_duration
    }
}

} // verus!
