use vstd::prelude::*;

verus! {

/// The two classes of work that the worker pool queues.
#[derive(Clone, Copy, Debug, PartialEq, Eq, Structural)]
pub enum QueueClass {
    /// Work submitted by interactive clients.
    User,
    /// Work submitted by the operator of the pool.
    System,
}

/// The three measurements taken of each queue.
#[derive(Clone, Copy, Debug, PartialEq, Eq, Structural)]
pub enum MetricName {
    Queued,
    Oldest,
    Acquired,
}

/// One snapshot of a single queue.
#[derive(Clone, Copy, Debug, PartialEq, Eq, Structural)]
pub struct QueueStatus {
    /// Work units claimed by workers and in flight.
    pub acquired: u64,
    /// Work units waiting.
    pub queued: u64,
    /// Age in seconds of the longest-waiting unit; zero when nothing waits.
    pub oldest: u64,
}

/// The decoded status document: one snapshot per queue class.
#[derive(Clone, Copy, Debug, PartialEq, Eq, Structural)]
pub struct SystemStatus {
    pub user: QueueStatus,
    pub system: QueueStatus,
}

impl QueueStatus {
    pub open spec fn field_spec(self, m: MetricName) -> u64 {
        match m {
            MetricName::Queued => self.queued,
            MetricName::Oldest => self.oldest,
            MetricName::Acquired => self.acquired,
        }
    }

    /// The measurement named `m`.
    pub fn field(&self, m: MetricName) -> (r: u64)
        ensures
            r == self.field_spec(m),
    {
        match m {
            MetricName::Queued => self.queued,
            MetricName::Oldest => self.oldest,
            MetricName::Acquired => self.acquired,
        }
    }
}

impl SystemStatus {
    pub open spec fn queue_spec(self, c: QueueClass) -> QueueStatus {
        match c {
            QueueClass::User => self.user,
            QueueClass::System => self.system,
        }
    }

    /// The snapshot of queue class `c`.
    pub fn queue(&self, c: QueueClass) -> (r: QueueStatus)
        ensures
            r == self.queue_spec(c),
    {
        match c {
            QueueClass::User => self.user,
            QueueClass::System => self.system,
        }
    }
}

/// The label of a queue class, as dimension value.
pub open spec fn class_label(c: QueueClass) -> Seq<char> {
    match c {
        QueueClass::User => "user"@,
        QueueClass::System => "system"@,
    }
}

/// The label of a measurement, as metric name and as field of the document.
pub open spec fn metric_label(m: MetricName) -> Seq<char> {
    match m {
        MetricName::Queued => "queued"@,
        MetricName::Oldest => "oldest"@,
        MetricName::Acquired => "acquired"@,
    }
}

/// Distinct measurements and distinct queue classes have distinct labels.
pub proof fn lemma_labels_distinct()
    ensures
        forall|a: MetricName, b: MetricName| a != b ==> #[trigger] metric_label(a) != #[trigger] metric_label(b),
        forall|a: QueueClass, b: QueueClass| a != b ==> #[trigger] class_label(a) != #[trigger] class_label(b),
{
    reveal_strlit("queued");
    reveal_strlit("oldest");
    reveal_strlit("acquired");
    reveal_strlit("user");
    reveal_strlit("system");
    assert("queued"@[0] != "oldest"@[0]);
    assert("queued"@[0] != "acquired"@[0]);
    assert("oldest"@[0] != "acquired"@[0]);
    assert("user"@[0] != "system"@[0]);
}

impl QueueClass {
    /// The dimension value that tags points of this class.
    pub fn label(&self) -> (r: String)
        ensures
            r@ == class_label(*self),
    {
        match self {
            QueueClass::User => "user".to_owned(),
            QueueClass::System => "system".to_owned(),
        }
    }
}

impl MetricName {
    /// The metric name, which is also the field's name in the document.
    pub fn label(&self) -> (r: String)
        ensures
            r@ == metric_label(*self),
    {
        match self {
            MetricName::Queued => "queued".to_owned(),
            MetricName::Oldest => "oldest".to_owned(),
            MetricName::Acquired => "acquired".to_owned(),
        }
    }
}

} // verus!
