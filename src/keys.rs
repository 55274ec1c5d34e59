use vstd::prelude::*;

use crate::status::{set_word, StateSet};

verus! {

/// A key of the store: `<prefix>:{<topic>}:<suffix>`. The braces make a
/// cluster route every key of one topic to the same shard.
pub open spec fn key_of(prefix: Seq<char>, topic: Seq<char>, suffix: Seq<char>) -> Seq<char> {
    prefix + seq![':', '{'] + topic + seq!['}', ':'] + suffix
}

/// The prefix that every key of the queue starts with.
pub open spec fn jono_prefix() -> Seq<char> {
    seq!['j', 'o', 'n', 'o']
}

/// The suffix of a job's metadata hash key: `job:<id>`.
pub open spec fn job_suffix(id: Seq<char>) -> Seq<char> {
    seq!['j', 'o', 'b', ':'] + id
}

/// Generator of the store keys of one topic.
#[derive(Clone, Debug)]
pub struct Keys {
    prefix: String,
    topic: String,
}

impl Keys {
    /// The prefix of every key.
    pub closed spec fn prefix_view(&self) -> Seq<char> {
        self.prefix@
    }

    /// The topic whose keys these are.
    pub closed spec fn topic_view(&self) -> Seq<char> {
        self.topic@
    }

    /// Keys with the `jono` prefix for the given topic.
    pub fn with_topic(topic: &str) -> (r: Keys)
        ensures
            r.prefix_view() == jono_prefix(),
            r.topic_view() == topic@,
    {
        proof {
            reveal_strlit("jono");
        }
        Keys { prefix: String::from_str("jono"), topic: String::from_str(topic) }
    }

    /// `<prefix>:{<topic>}:<suffix>` for this topic.
    fn key(&self, suffix: &str) -> (r: String)
        ensures
            r@ == key_of(self.prefix_view(), self.topic_view(), suffix@),
    {
        proof {
            reveal_strlit(":{");
            reveal_strlit("}:");
        }
        let mut k = self.prefix.clone();
        k.append(":{");
        k.append(self.topic.as_str());
        k.append("}:");
        k.append(suffix);
        k
    }

    /// Key of the hash that holds a job's metadata.
    pub fn job_metadata_hash(&self, job_id: &str) -> (r: String)
        ensures
            r@ == key_of(self.prefix_view(), self.topic_view(), job_suffix(job_id@)),
    {
        proof {
            reveal_strlit("job:");
        }
        let mut suffix = String::from_str("job:");
        suffix.append(job_id);
        self.key(suffix.as_str())
    }

    /// Key of the sorted set `s`.
    pub fn set_key(&self, s: StateSet) -> (r: String)
        ensures
            r@ == key_of(self.prefix_view(), self.topic_view(), set_word(s)),
    {
        let w = s.word();
        self.key(w.as_str())
    }

    /// Key of the sorted set of postponed jobs, scored by execution time.
    pub fn postponed_set(&self) -> (r: String)
        ensures
            r@ == key_of(self.prefix_view(), self.topic_view(), set_word(StateSet::Postponed)),
    {
        self.set_key(StateSet::Postponed)
    }

    /// Key of the sorted set of queued jobs, scored by priority.
    pub fn queued_set(&self) -> (r: String)
        ensures
            r@ == key_of(self.prefix_view(), self.topic_view(), set_word(StateSet::Queued)),
    {
        self.set_key(StateSet::Queued)
    }

    /// Key of the sorted set of running jobs, scored by heartbeat deadline.
    pub fn started_set(&self) -> (r: String)
        ensures
            r@ == key_of(self.prefix_view(), self.topic_view(), set_word(StateSet::Running)),
    {
        self.set_key(StateSet::Running)
    }

    /// Key of the sorted set of aborted jobs, scored by the end of the grace period.
    pub fn aborted_set(&self) -> (r: String)
        ensures
            r@ == key_of(self.prefix_view(), self.topic_view(), set_word(StateSet::Aborted)),
    {
        self.set_key(StateSet::Aborted)
    }

    /// Key of the sorted set of completed jobs awaiting harvest, scored by expiry.
    pub fn harvestable_set(&self) -> (r: String)
        ensures
            r@ == key_of(self.prefix_view(), self.topic_view(), set_word(StateSet::Completed)),
    {
        self.set_key(StateSet::Completed)
    }
}

} // verus!
