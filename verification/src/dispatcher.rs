//! The event dispatcher: what the bridge does with each notification.
//!
//! The program polls the broker connection and hands every notification to
//! [`process_event`]. The result lists the effects to perform, in order, and
//! says whether to poll again. The dispatcher runs until the first poll
//! error: that one is reported, and nothing after it is looked at.

use vstd::prelude::*;

use crate::effect::{
    append_count, appended, diagnostics, lemma_append_count_concat, lemma_appended_concat, views,
    Effect, EffectView,
};
use crate::protocol::{ConnectReturnCode, Notification, Publication, SubscribeReasonCode};
use crate::registry::{handle_of, lemma_handles_distinct, TopicRegistry};
use crate::sink::{
    console_effect, file_effect, file_record, unknown_topic_warning, write_to_file,
    write_to_stdout,
};
use crate::timestamp::{
    colorized_text, generate_timestamp, lemma_renderings_agree, plain_text, without_escapes,
    Rendering, Timestamp,
};

verus! {

/// Whether the dispatcher goes on polling.
#[derive(Clone, Copy, Debug, PartialEq, Eq, Structural)]
pub enum Signal {
    Continue,
    Terminate,
}

/// The reaction to one notification.
#[derive(Debug, PartialEq, Eq)]
pub struct Step {
    /// What to do, in this order, before the next poll.
    pub effects: Vec<Effect>,
    /// Whether there is a next poll.
    pub signal: Signal,
}

/// The mathematical content of a [`Step`].
pub struct StepView {
    pub effects: Seq<EffectView>,
    pub signal: Signal,
}

impl View for Step {
    type V = StepView;

    open spec fn view(&self) -> StepView {
        StepView { effects: views(self.effects@), signal: self.signal }
    }
}

/// The line for a subscription that the broker refused.
pub open spec fn acknowledged_failure_line() -> Seq<char> {
    "Got a subscribe fail packet!"@
}

/// The line for an accepted connection.
pub open spec fn connected_line() -> Seq<char> {
    "Connection established"@
}

/// The line for a disconnect.
pub open spec fn disconnect_line() -> Seq<char> {
    "Got disconnect"@
}

/// One warning for each failure among the codes of a subscribe
/// acknowledgement. The acknowledgement names no topic, so neither does the
/// warning.
pub open spec fn failure_warnings(codes: Seq<SubscribeReasonCode>) -> Seq<EffectView>
    decreases codes.len(),
{
    if codes.len() == 0 {
        Seq::empty()
    } else {
        failure_warnings(codes.drop_last()) + if codes.last() is Failure {
            seq![EffectView::Diagnostic { line: acknowledged_failure_line() }]
        } else {
            Seq::empty()
        }
    }
}

/// The reaction to a notification that arrives at instant `t`, with the log
/// files of `files` open. Only a publication makes use of the instant.
pub open spec fn react(files: Seq<Seq<char>>, notification: Notification, t: Timestamp)
    -> StepView {
    match notification {
        Notification::Publish(p) => StepView {
            effects: seq![
                file_effect(files, t, p.topic@, p.payload@),
                console_effect(t, p.topic@, p.payload@),
            ],
            signal: Signal::Continue,
        },
        Notification::SubAck { return_codes } => StepView {
            effects: failure_warnings(return_codes@),
            signal: Signal::Continue,
        },
        Notification::ConnAck { code } => StepView {
            effects: if code is Success {
                seq![EffectView::Status { line: connected_line() }]
            } else {
                Seq::empty()
            },
            signal: Signal::Continue,
        },
        Notification::Disconnect => StepView {
            effects: seq![EffectView::Status { line: disconnect_line() }],
            signal: Signal::Continue,
        },
        Notification::Other => StepView { effects: Seq::empty(), signal: Signal::Continue },
        Notification::PollError { detail } => StepView {
            effects: seq![EffectView::Diagnostic { line: detail@ }],
            signal: Signal::Terminate,
        },
    }
}

/// A notification together with the instant at which it arrived.
pub struct Arrival {
    pub notification: Notification,
    pub at: Timestamp,
}

/// All the effects of a run of the dispatcher over `arrivals`, in order. The
/// run ends with the first notification that signals termination; what
/// arrives after it has no effect.
pub open spec fn run(files: Seq<Seq<char>>, arrivals: Seq<Arrival>) -> Seq<EffectView>
    decreases arrivals.len(),
{
    if arrivals.len() == 0 {
        Seq::empty()
    } else {
        let step = react(files, arrivals[0].notification, arrivals[0].at);
        if step.signal is Terminate {
            step.effects
        } else {
            step.effects + run(files, arrivals.drop_first())
        }
    }
}

/// The records that a run over `arrivals` owes the log file under `handle`:
/// one for each publication to the file's topic, in the order of arrival, up
/// to the first poll error.
pub open spec fn records_for(files: Seq<Seq<char>>, arrivals: Seq<Arrival>, handle: int) -> Seq<u8>
    decreases arrivals.len(),
{
    if arrivals.len() == 0 {
        Seq::empty()
    } else {
        match arrivals[0].notification {
            Notification::PollError { .. } => Seq::empty(),
            Notification::Publish(p) => (if handle_of(files, p.topic@) == Some(handle) {
                file_record(arrivals[0].at, p.payload@)
            } else {
                Seq::empty()
            }) + records_for(files, arrivals.drop_first(), handle),
            _ => records_for(files, arrivals.drop_first(), handle),
        }
    }
}

/// Subscription warnings write to no log file.
pub proof fn lemma_failure_warnings_append_nothing(codes: Seq<SubscribeReasonCode>, handle: int)
    ensures
        appended(failure_warnings(codes), handle) == Seq::<u8>::empty(),
        append_count(failure_warnings(codes)) == 0,
    decreases codes.len(),
{
    reveal_with_fuel(appended, 2);
    reveal_with_fuel(append_count, 2);
    if codes.len() > 0 {
        let earlier = failure_warnings(codes.drop_last());
        let tail = if codes.last() is Failure {
            seq![EffectView::Diagnostic { line: acknowledged_failure_line() }]
        } else {
            Seq::<EffectView>::empty()
        };
        lemma_failure_warnings_append_nothing(codes.drop_last(), handle);
        lemma_appended_concat(earlier, tail, handle);
        lemma_append_count_concat(earlier, tail);
    }
}

/// What one reaction appends to a log file: the record of a publication to
/// the file under its topic's handle, and nothing in every other case.
pub proof fn lemma_step_appends(
    files: Seq<Seq<char>>,
    notification: Notification,
    t: Timestamp,
    handle: int,
)
    ensures
        appended(react(files, notification, t).effects, handle) == match notification {
            Notification::Publish(p) => if handle_of(files, p.topic@) == Some(handle) {
                file_record(t, p.payload@)
            } else {
                Seq::<u8>::empty()
            },
            _ => Seq::<u8>::empty(),
        },
        append_count(react(files, notification, t).effects) == match notification {
            Notification::Publish(p) => if handle_of(files, p.topic@) is Some {
                1nat
            } else {
                0nat
            },
            _ => 0nat,
        },
{
    reveal_with_fuel(appended, 3);
    reveal_with_fuel(append_count, 3);
    match notification {
        Notification::SubAck { return_codes } => {
            lemma_failure_warnings_append_nothing(return_codes@, handle);
        },
        _ => {},
    }
}

/// A publication changes the log file of its own topic and no other: the
/// file of its topic gains exactly the record of the publication, in one
/// append operation, and the file of every other topic gains nothing.
pub proof fn lemma_attribution(
    files: Seq<Seq<char>>,
    publication: Publication,
    t: Timestamp,
    other: Seq<char>,
)
    requires
        files.contains(publication.topic@),
        files.contains(other),
        other != publication.topic@,
    ensures
        ({
            let effects = react(files, Notification::Publish(publication), t).effects;
            let own = handle_of(files, publication.topic@)->0;
            let others = handle_of(files, other)->0;
            &&& own != others
            &&& appended(effects, own) == file_record(t, publication.payload@)
            &&& appended(effects, others) == Seq::<u8>::empty()
            &&& append_count(effects) == 1
        }),
{
    let own = handle_of(files, publication.topic@)->0;
    let others = handle_of(files, other)->0;
    if own == others {
        lemma_handles_distinct(files, publication.topic@, other);
    }
    lemma_step_appends(files, Notification::Publish(publication), t, own);
    lemma_step_appends(files, Notification::Publish(publication), t, others);
}

/// Both sinks of a publication show one instant: the console record starts
/// with the colourised rendering of the instant of arrival, the file record,
/// where there is one, with the plain rendering of the same instant, and the
/// two renderings differ in their escape sequences only.
pub proof fn lemma_dual_sink_consistency(
    files: Seq<Seq<char>>,
    publication: Publication,
    t: Timestamp,
)
    ensures
        ({
            let effects = react(files, Notification::Publish(publication), t).effects;
            &&& effects.len() == 2
            &&& effects[1] matches EffectView::Console { bytes: console }
            &&& console.take(colorized_text(t).len() as int) == colorized_text(t)
            &&& files.contains(publication.topic@) ==> (effects[0] matches EffectView::Append {
                bytes: record,
                ..
            } && record.take(plain_text(t).len() as int) == plain_text(t))
            &&& without_escapes(colorized_text(t)) == plain_text(t)
        }),
{
    lemma_renderings_agree(t);
}

/// A publication to a topic without a log file writes to no file, gives one
/// warning that names the topic, still reaches the console, and lets the
/// dispatcher go on.
pub proof fn lemma_unknown_topic(files: Seq<Seq<char>>, publication: Publication, t: Timestamp)
    requires
        !files.contains(publication.topic@),
    ensures
        ({
            let step = react(files, Notification::Publish(publication), t);
            &&& step.signal == Signal::Continue
            &&& step.effects == seq![
                EffectView::Diagnostic { line: unknown_topic_warning(publication.topic@) },
                console_effect(t, publication.topic@, publication.payload@),
            ]
            &&& append_count(step.effects) == 0
            &&& diagnostics(step.effects) == seq![unknown_topic_warning(publication.topic@)]
        }),
{
    lemma_step_appends(files, Notification::Publish(publication), t, 0);
    reveal_with_fuel(diagnostics, 3);
}

/// Each log file holds, after a run, the records of the publications to its
/// topic in the order in which they arrived, and nothing else: records of
/// other topics never come between them.
pub proof fn lemma_file_order(files: Seq<Seq<char>>, arrivals: Seq<Arrival>, handle: int)
    ensures
        appended(run(files, arrivals), handle) == records_for(files, arrivals, handle),
    decreases arrivals.len(),
{
    if arrivals.len() > 0 {
        let first = arrivals[0];
        let step = react(files, first.notification, first.at);
        lemma_step_appends(files, first.notification, first.at, handle);
        if step.signal is Continue {
            lemma_file_order(files, arrivals.drop_first(), handle);
            lemma_appended_concat(step.effects, run(files, arrivals.drop_first()), handle);
        }
    }
}

/// A poll error after `count` publications to registered topics ends the
/// run: exactly `count` append operations have been made, and whatever
/// arrives after the error is never looked at.
pub proof fn lemma_termination(files: Seq<Seq<char>>, arrivals: Seq<Arrival>, count: int)
    requires
        0 <= count < arrivals.len(),
        forall|i: int|
            0 <= i < count ==> (#[trigger] arrivals[i].notification matches Notification::Publish(p)
                && files.contains(p.topic@)),
        arrivals[count].notification is PollError,
    ensures
        append_count(run(files, arrivals)) == count,
        run(files, arrivals) == run(files, arrivals.take(count + 1)),
        run(files, arrivals).len() > 0,
        arrivals[count].notification matches Notification::PollError { detail } && run(
            files,
            arrivals,
        ).last() == (EffectView::Diagnostic { line: detail@ }),
    decreases count,
{
    let first = arrivals[0];
    let step = react(files, first.notification, first.at);
    lemma_step_appends(files, first.notification, first.at, 0);
    if count > 0 {
        let rest = arrivals.drop_first();
        lemma_termination(files, rest, count - 1);
        lemma_append_count_concat(step.effects, run(files, rest));
        assert(arrivals.take(count + 1).drop_first() =~= rest.take(count));
    }
}

/// The warnings for the failures among `codes`.
fn warn_of_failures(codes: &Vec<SubscribeReasonCode>) -> (effects: Vec<Effect>)
    ensures
        views(effects@) == failure_warnings(codes@),
{
    let mut effects: Vec<Effect> = Vec::new();
    let mut i: usize = 0;
    while i < codes.len()
        invariant
            i <= codes.len(),
            views(effects@) == failure_warnings(codes@.subrange(0, i as int)),
        decreases codes.len() - i,
    {
        match codes[i] {
            SubscribeReasonCode::Failure => {
                effects.push(
                    Effect::Diagnostic { line: String::from_str("Got a subscribe fail packet!") },
                );
            },
            SubscribeReasonCode::Success(_) => {},
        }
        i = i + 1;
        assert(codes@.subrange(0, i as int).drop_last() =~= codes@.subrange(0, i - 1));
    }
    assert(codes@.subrange(0, i as int) =~= codes@);
    effects
}

/// Reacts to a notification that is no publication. The reaction depends on
/// neither the registry nor the clock.
fn process_control(notification: &Notification) -> (step: Step)
    requires
        !(notification is Publish),
    ensures
        forall|files: Seq<Seq<char>>, t: Timestamp|
            step@ == #[trigger] react(files, *notification, t),
{
    let mut effects: Vec<Effect> = Vec::new();
    let mut signal = Signal::Continue;
    match notification {
        Notification::Publish(_) => {},
        Notification::SubAck { return_codes } => {
            effects = warn_of_failures(return_codes);
        },
        Notification::ConnAck { code } => {
            match code {
                ConnectReturnCode::Success => {
                    effects.push(
                        Effect::Status { line: String::from_str("Connection established") },
                    );
                },
                _ => {},
            }
        },
        Notification::Disconnect => {
            effects.push(Effect::Status { line: String::from_str("Got disconnect") });
        },
        Notification::Other => {},
        Notification::PollError { detail } => {
            effects.push(Effect::Diagnostic { line: detail.clone() });
            signal = Signal::Terminate;
        },
    }
    let step = Step { effects, signal };
    assert forall|files: Seq<Seq<char>>, t: Timestamp|
        step@ == #[trigger] react(files, *notification, t) by {
        assert(step@.effects =~= react(files, *notification, t).effects);
    }
    step
}

/// Reacts to a publication that arrived at the instant of `timestamp`: first
/// the file sink, then the console.
fn process_publication(files: &TopicRegistry, data: &Publication, timestamp: &Rendering) -> (step:
    Step)
    ensures
        step@ == react(files@, Notification::Publish(*data), timestamp.instant()),
{
    let mut effects: Vec<Effect> = Vec::new();
    effects.push(write_to_file(timestamp, data, files));
    effects.push(write_to_stdout(timestamp, data));
    let step = Step { effects, signal: Signal::Continue };
    assert(step@.effects =~= react(
        files@,
        Notification::Publish(*data),
        timestamp.instant(),
    ).effects);
    step
}

/// Reacts to a notification that arrived at the instant of `timestamp`.
pub fn process_event_at(files: &TopicRegistry, notification: &Notification, timestamp: &Rendering)
    -> (step: Step)
    ensures
        step@ == react(files@, *notification, timestamp.instant()),
{
    match notification {
        Notification::Publish(data) => process_publication(files, data, timestamp),
        _ => process_control(notification),
    }
}

/// Reacts to a notification that has just arrived.
///
/// For a publication the clock is read once, and both sinks get that one
/// instant. Which instant it is depends on the clock, so the result is the
/// reaction at some calendar instant. No other notification reads the clock,
/// and the reaction to it is the same at every instant.
pub fn process_event(files: &TopicRegistry, notification: &Notification) -> (step: Step)
    ensures
        exists|t: Timestamp| t.is_calendar() && step@ == #[trigger] react(files@, *notification, t),
        !(notification is Publish) ==> forall|t: Timestamp|
            step@ == #[trigger] react(files@, *notification, t),
{
    match notification {
        Notification::Publish(data) => {
            let timestamp = generate_timestamp();
            process_publication(files, data, &timestamp)
        },
        _ => {
            let step = process_control(notification);
            proof {
                let epoch = Timestamp {
                    year: 1970,
                    month: 1,
                    day: 1,
                    hour: 0,
                    minute: 0,
                    second: 0,
                    millisecond: 0,
                };
                assert(epoch.is_calendar() && step@ == react(files@, *notification, epoch));
            }
            step
        },
    }
}

} // verus!
