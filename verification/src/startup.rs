//! Start-up: one subscription and one log file for each configured topic.
//!
//! The topics are taken in the order in which they were configured. For each
//! one the program submits a subscribe request and reports back whether the
//! request was accepted for sending. A request that was not accepted is
//! reported once and never retried; the log file of the topic is opened all
//! the same, so the files never depend on how the subscriptions went.

use vstd::prelude::*;

use crate::effect::{views, Effect, EffectView};
use crate::protocol::QoS;
use crate::registry::{
    handle_of, lemma_registered, lemma_registered_all, log_file_name, log_file_name_of,
    registered, registered_all, string_views, TopicRegistry,
};

verus! {

/// The listing of `topics` in Rust's debug format: the topics between square
/// brackets, separated by a comma and a space, each in double quotes with its
/// special characters escaped.
pub uninterp spec fn debug_listing(topics: Seq<Seq<char>>) -> Seq<char>;

/// Formats `topics` with the debug formatter of the standard library,
/// `format!("{:?}", ..)`.
///
/// The formatter is a function of the strings alone; its result goes by the
/// name [`debug_listing`], and nothing more is claimed of it.
#[verifier::external_body]
fn format_debug_listing(topics: &Vec<String>) -> (listing: String)
    ensures
        listing@ == debug_listing(string_views(topics@)),
{
    format!("{:?}", topics)
}

/// The line that announces the selected topics, given their listing.
pub open spec fn selected_topics_line(listing: Seq<char>) -> Seq<char> {
    "Selected topics: "@ + listing
}

/// The line that reports a subscribe request that could not be submitted.
pub open spec fn subscribe_failure_line(topic: Seq<char>) -> Seq<char> {
    "Failed to subscribe to "@ + topic
}

/// The announcement of the selected topics, given their listing.
pub fn announcement_of(listing: &String) -> (effect: Effect)
    ensures
        effect@ == (EffectView::Status { line: selected_topics_line(listing@) }),
{
    let mut line = String::from_str("Selected topics: ");
    line.append(listing.as_str());
    Effect::Status { line }
}

/// The announcement of the selected topics, which the program prints before
/// the first subscription.
pub fn announce(topics: &Vec<String>) -> (effect: Effect)
    ensures
        effect@ == (EffectView::Status {
            line: selected_topics_line(debug_listing(string_views(topics@))),
        }),
{
    let listing = format_debug_listing(topics);
    announcement_of(&listing)
}

/// A subscribe request for the program to submit.
#[derive(Debug, PartialEq, Eq)]
pub struct Subscription {
    pub topic: String,
    pub qos: QoS,
}

/// The effect that opens the log file of the topic at `position`. The handle
/// is the one that the topic has once the topics up to it are registered.
pub open spec fn open_log_effect(topics: Seq<Seq<char>>, position: int) -> EffectView {
    EffectView::OpenLog {
        handle: handle_of(registered_all(topics.take(position + 1)), topics[position])->0,
        path: log_file_name_of(topics[position]),
    }
}

/// What follows the subscribe request for the topic at `position`: a report
/// if the request was not accepted, and in either case the opening of the
/// topic's log file.
pub open spec fn topic_effects(topics: Seq<Seq<char>>, position: int, accepted: bool) -> Seq<
    EffectView,
> {
    if accepted {
        seq![open_log_effect(topics, position)]
    } else {
        seq![
            EffectView::Diagnostic { line: subscribe_failure_line(topics[position]) },
            open_log_effect(topics, position),
        ]
    }
}

/// A failed subscription changes nothing but the report: the log file of the
/// topic is opened as after a successful one, under a handle of the final
/// registry, and the final registry holds every configured topic whatever
/// became of the subscriptions.
pub proof fn lemma_subscribe_failure_isolated(topics: Seq<Seq<char>>, position: int)
    requires
        0 <= position < topics.len(),
    ensures
        topic_effects(topics, position, false) == seq![
            EffectView::Diagnostic { line: subscribe_failure_line(topics[position]) },
        ] + topic_effects(topics, position, true),
        topic_effects(topics, position, true) == seq![open_log_effect(topics, position)],
        registered_all(topics).contains(topics[position]),
        handle_of(registered_all(topics), topics[position]) == handle_of(
            registered_all(topics.take(position + 1)),
            topics[position],
        ),
{
    lemma_registered_all(topics);
    lemma_registered_all(topics.take(position + 1));
    lemma_handles_survive(topics, position + 1, topics[position]);
    assert(topics.take(topics.len() as int) =~= topics);
}

/// A topic that is registered after the first `count` topics keeps its
/// handle while the remaining topics are registered.
pub proof fn lemma_handles_survive(topics: Seq<Seq<char>>, count: int, topic: Seq<char>)
    requires
        0 <= count <= topics.len(),
        registered_all(topics.take(count)).contains(topic),
    ensures
        forall|later: int|
            count <= later <= topics.len() ==> handle_of(
                #[trigger] registered_all(topics.take(later)),
                topic,
            ) == handle_of(registered_all(topics.take(count)), topic),
    decreases topics.len() - count,
{
    if count < topics.len() {
        assert(topics.take(count + 1).drop_last() =~= topics.take(count));
        lemma_registered_all(topics.take(count));
        lemma_registered(registered_all(topics.take(count)), topics[count]);
        lemma_handles_survive(topics, count + 1, topic);
    }
}

/// The start-up sequence, one topic at a time.
pub struct Initializer {
    topics: Vec<String>,
    cursor: usize,
    files: TopicRegistry,
}

impl Initializer {
    #[verifier::type_invariant]
    spec fn in_step(self) -> bool {
        &&& self.cursor <= self.topics.len()
        &&& self.files@ == registered_all(string_views(self.topics@).take(self.cursor as int))
    }

    /// The configured topics, in the order of their subscriptions.
    pub closed spec fn topics(self) -> Seq<Seq<char>> {
        string_views(self.topics@)
    }

    /// The number of topics whose subscription has been resolved.
    pub closed spec fn resolved(self) -> int {
        self.cursor as int
    }

    /// Starts with every subscription still to be made.
    pub fn new(topics: Vec<String>) -> (starting: Self)
        ensures
            starting.topics() == string_views(topics@),
            starting.resolved() == 0,
    {
        Initializer { topics, cursor: 0, files: TopicRegistry::new() }
    }

    /// The subscribe request to submit next, at exactly-once delivery, or
    /// `None` when every topic has had its turn.
    pub fn pending(&self) -> (next: Option<Subscription>)
        ensures
            0 <= self.resolved() <= self.topics().len(),
            match next {
                Some(subscription) => {
                    &&& self.resolved() < self.topics().len()
                    &&& subscription.topic@ == self.topics()[self.resolved()]
                    &&& subscription.qos == QoS::ExactlyOnce
                },
                None => self.resolved() == self.topics().len(),
            },
    {
        proof {
            use_type_invariant(self);
        }
        if self.cursor < self.topics.len() {
            Some(Subscription { topic: self.topics[self.cursor].clone(), qos: QoS::ExactlyOnce })
        } else {
            None
        }
    }

    /// Takes in whether the pending subscribe request was accepted, and
    /// returns what is to be done before the next request: a report if it was
    /// not, and the opening of the topic's log file. With no request pending
    /// nothing changes and nothing is to be done.
    pub fn resolve(&mut self, accepted: bool) -> (effects: Vec<Effect>)
        ensures
            final(self).topics() == old(self).topics(),
            0 <= old(self).resolved() <= old(self).topics().len(),
            old(self).resolved() < old(self).topics().len() ==> {
                &&& final(self).resolved() == old(self).resolved() + 1
                &&& views(effects@) == topic_effects(
                    old(self).topics(),
                    old(self).resolved(),
                    accepted,
                )
            },
            old(self).resolved() == old(self).topics().len() ==> {
                &&& final(self).resolved() == old(self).resolved()
                &&& effects@.len() == 0
            },
    {
        proof {
            use_type_invariant(&*self);
        }
        let mut effects: Vec<Effect> = Vec::new();
        if self.cursor >= self.topics.len() {
            return effects;
        }
        let mut taken = Initializer::new(Vec::new());
        core::mem::swap(self, &mut taken);
        let Initializer { topics, cursor, files } = taken;
        let mut files = files;
        let ghost names = string_views(topics@);
        let topic = &topics[cursor];
        if !accepted {
            let mut line = String::from_str("Failed to subscribe to ");
            line.append(topic.as_str());
            effects.push(Effect::Diagnostic { line });
        }
        let handle = files.insert(topic);
        effects.push(Effect::OpenLog { handle, path: log_file_name(topic) });
        assert(names.take(cursor + 1).drop_last() =~= names.take(cursor as int));
        *self = Initializer { topics, cursor: cursor + 1, files };
        effects
    }

    /// Ends the start-up and hands over the registry: the topics resolved so
    /// far, each registered once, in the order of their first subscription.
    /// After the last topic that is every configured topic and no other,
    /// whether its subscription was accepted or not.
    pub fn into_registry(self) -> (files: TopicRegistry)
        ensures
            files@ == registered_all(self.topics().take(self.resolved())),
            files@.no_duplicates(),
            self.resolved() == self.topics().len() ==> {
                &&& files@ == registered_all(self.topics())
                &&& forall|topic: Seq<char>| #[trigger]
                    files@.contains(topic) <==> self.topics().contains(topic)
            },
    {
        proof {
            use_type_invariant(&self);
            assert(self.topics().take(self.topics().len() as int) =~= self.topics());
            lemma_registered_all(self.topics().take(self.resolved()));
        }
        self.files
    }
}

} // verus!
