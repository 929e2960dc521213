//! The registry of subscribed topics and their log files.
//!
//! Each registered topic owns one log file, named after the topic. The
//! registry knows the file by a handle, a small number that the program
//! around this crate maps to the open file. Handles are given out in the
//! order in which topics are first registered.

use vstd::prelude::*;

verus! {

/// The views of a list of strings.
pub open spec fn string_views(strings: Seq<String>) -> Seq<Seq<char>> {
    strings.map_values(|s: String| s@)
}

/// The suffix that turns a topic into the name of its log file.
pub open spec fn log_suffix() -> Seq<char> {
    ".txt"@
}

/// The name of the log file of `topic`.
pub open spec fn log_file_name_of(topic: Seq<char>) -> Seq<char> {
    topic + log_suffix()
}

/// The handle that `topics` gives `topic`: its position, or `None` for a
/// topic that is not registered.
pub open spec fn handle_of(topics: Seq<Seq<char>>, topic: Seq<char>) -> Option<int> {
    if topics.contains(topic) {
        Some(topics.index_of(topic))
    } else {
        None
    }
}

/// The registered topics after `topic` has been registered: a new topic goes
/// to the end, a known one changes nothing.
pub open spec fn registered(topics: Seq<Seq<char>>, topic: Seq<char>) -> Seq<Seq<char>> {
    if topics.contains(topic) {
        topics
    } else {
        topics.push(topic)
    }
}

/// The registered topics after each of `topics` has been registered in order,
/// starting from nothing.
pub open spec fn registered_all(topics: Seq<Seq<char>>) -> Seq<Seq<char>>
    decreases topics.len(),
{
    if topics.len() == 0 {
        Seq::empty()
    } else {
        registered(registered_all(topics.drop_last()), topics.last())
    }
}

/// In a list without repetitions, the handle of the topic at a position is
/// that position.
pub proof fn lemma_handle_of_position(topics: Seq<Seq<char>>, position: int)
    requires
        topics.no_duplicates(),
        0 <= position < topics.len(),
    ensures
        handle_of(topics, topics[position]) == Some(position),
{
}

/// A handle names one topic only: two registered topics with one handle are
/// one topic, and every handle is a position in the list.
pub proof fn lemma_handles_distinct(topics: Seq<Seq<char>>, a: Seq<char>, b: Seq<char>)
    requires
        handle_of(topics, a) is Some,
        handle_of(topics, a) == handle_of(topics, b),
    ensures
        a == b,
        0 <= handle_of(topics, a)->0 < topics.len(),
        topics[handle_of(topics, a)->0] == a,
{
}

/// Registering keeps a list free of repetitions, keeps every handle that was
/// given out, and leaves the topic registered.
pub proof fn lemma_registered(topics: Seq<Seq<char>>, topic: Seq<char>)
    requires
        topics.no_duplicates(),
    ensures
        registered(topics, topic).no_duplicates(),
        registered(topics, topic).contains(topic),
        forall|other: Seq<char>| #[trigger]
            topics.contains(other) ==> handle_of(registered(topics, topic), other) == handle_of(
                topics,
                other,
            ),
        forall|other: Seq<char>| #[trigger]
            registered(topics, topic).contains(other) <==> topics.contains(other) || other
                == topic,
{
    let after = registered(topics, topic);
    if !topics.contains(topic) {
        assert(after[topics.len() as int] == topic);
        assert forall|other: Seq<char>| #[trigger] topics.contains(other) implies handle_of(
            after,
            other,
        ) == handle_of(topics, other) by {
            lemma_handle_of_position(after, topics.index_of(other));
        }
    }
}

/// Registering a list of topics from nothing gives a list without
/// repetitions that holds exactly the topics of the list.
pub proof fn lemma_registered_all(topics: Seq<Seq<char>>)
    ensures
        registered_all(topics).no_duplicates(),
        forall|topic: Seq<char>| #[trigger]
            registered_all(topics).contains(topic) <==> topics.contains(topic),
    decreases topics.len(),
{
    if topics.len() > 0 {
        let earlier = topics.drop_last();
        lemma_registered_all(earlier);
        lemma_registered(registered_all(earlier), topics.last());
        assert forall|topic: Seq<char>| #[trigger]
            registered_all(topics).contains(topic) <==> topics.contains(topic) by {
            if topics.contains(topic) {
                let i = topics.index_of(topic);
                if i < topics.len() - 1 {
                    assert(earlier[i] == topic);
                }
            }
            if earlier.contains(topic) {
                assert(topics[earlier.index_of(topic)] == topic);
            }
        }
    }
}

/// The topics that have a log file, each with its handle.
pub struct TopicRegistry {
    topics: Vec<String>,
}

impl View for TopicRegistry {
    type V = Seq<Seq<char>>;

    /// The registered topics; the handle of each is its position.
    closed spec fn view(&self) -> Seq<Seq<char>> {
        string_views(self.topics@)
    }
}

impl TopicRegistry {
    #[verifier::type_invariant]
    spec fn distinct(self) -> bool {
        self@.no_duplicates()
    }

    /// A registry without topics.
    pub fn new() -> (r: Self)
        ensures
            r@ == Seq::<Seq<char>>::empty(),
    {
        let r = TopicRegistry { topics: Vec::new() };
        r
    }

    /// The number of registered topics.
    pub fn len(&self) -> (n: usize)
        ensures
            n == self@.len(),
            self@.no_duplicates(),
    {
        proof {
            use_type_invariant(self);
        }
        self.topics.len()
    }

    /// True when no topic is registered.
    pub fn is_empty(&self) -> (b: bool)
        ensures
            b == (self@.len() == 0),
    {
        self.topics.len() == 0
    }

    /// The handle of `topic`, or `None` when the topic is not registered.
    pub fn lookup(&self, topic: &String) -> (r: Option<usize>)
        ensures
            self@.no_duplicates(),
            match r {
                Some(h) => handle_of(self@, topic@) == Some(h as int),
                None => handle_of(self@, topic@) is None,
            },
    {
        proof {
            use_type_invariant(self);
        }
        let mut i: usize = 0;
        while i < self.topics.len()
            invariant
                i <= self.topics.len(),
                self@.len() == self.topics.len(),
                self@.no_duplicates(),
                forall|j: int| 0 <= j < i ==> self@[j] != topic@,
            decreases self.topics.len() - i,
        {
            if self.topics[i] == *topic {
                proof {
                    lemma_handle_of_position(self@, i as int);
                }
                return Some(i);
            }
            i = i + 1;
        }
        None
    }

    /// The topic that owns `handle`.
    pub fn topic(&self, handle: usize) -> (t: &String)
        requires
            handle < self@.len(),
        ensures
            t@ == self@[handle as int],
    {
        &self.topics[handle]
    }

    /// Registers `topic` and returns its handle. A topic that is registered
    /// already keeps its handle, and the registry does not change.
    pub fn insert(&mut self, topic: &String) -> (handle: usize)
        ensures
            final(self)@ == registered(old(self)@, topic@),
            handle_of(final(self)@, topic@) == Some(handle as int),
            final(self)@.no_duplicates(),
    {
        proof {
            use_type_invariant(&*self);
            lemma_registered(self@, topic@);
        }
        match self.lookup(topic) {
            Some(handle) => handle,
            None => {
                let mut taken = TopicRegistry::new();
                core::mem::swap(self, &mut taken);
                let TopicRegistry { topics } = taken;
                let mut topics = topics;
                let handle: usize = topics.len();
                topics.push(topic.clone());
                proof {
                    assert(string_views(topics@) =~= old(self)@.push(topic@));
                }
                *self = TopicRegistry { topics };
                proof {
                    lemma_handle_of_position(self@, handle as int);
                }
                handle
            },
        }
    }
}

/// The name of the log file of `topic`: the topic followed by `.txt`.
pub fn log_file_name(topic: &String) -> (name: String)
    ensures
        name@ == log_file_name_of(topic@),
{
    let mut name = topic.clone();
    name.append(".txt");
    name
}

} // verus!
