use vstd::prelude::*;
use crate::status::{MetricName, QueueClass, SystemStatus, class_label, metric_label};

verus! {

/// The namespace under which every point of this probe is registered.
pub const NAMESPACE: &'static str = "fishnet";

/// The key of the single dimension of every point.
pub const DIMENSION_KEY: &'static str = "queue";

/// One named, dimensioned sample: measurement `metric` of queue class `queue`.
#[derive(Clone, Copy, Debug, PartialEq, Eq, Structural)]
pub struct MetricPoint {
    pub metric: MetricName,
    pub queue: QueueClass,
    pub value: u64,
}

impl MetricPoint {
    /// The point's metric name.
    pub fn metric_name(&self) -> (r: String)
        ensures
            r@ == metric_label(self.metric),
    {
        self.metric.label()
    }

    /// The key of the point's dimension.
    pub fn dimension_key(&self) -> (r: String)
        ensures
            r@ == DIMENSION_KEY@,
    {
        DIMENSION_KEY.to_owned()
    }

    /// The value of the point's dimension: the queue class.
    pub fn dimension_value(&self) -> (r: String)
        ensures
            r@ == class_label(self.queue),
    {
        self.queue.label()
    }
}

/// The points of one invocation under their namespace.
#[derive(Clone, Debug)]
pub struct MetricBatch {
    pub namespace: String,
    pub points: Vec<MetricPoint>,
}

/// Measurements in emission order.
pub open spec fn metric_at(k: int) -> MetricName {
    if k == 0 {
        MetricName::Queued
    } else if k == 1 {
        MetricName::Oldest
    } else {
        MetricName::Acquired
    }
}

/// Queue classes in emission order, within one measurement.
pub open spec fn class_at(k: int) -> QueueClass {
    if k == 0 {
        QueueClass::User
    } else {
        QueueClass::System
    }
}

/// The point of measurement `m` of queue class `c` in `s`.
pub open spec fn point_of(s: SystemStatus, m: MetricName, c: QueueClass) -> MetricPoint {
    MetricPoint { metric: m, queue: c, value: s.queue_spec(c).field_spec(m) }
}

/// The six points of `s`: measurements in the order queued, oldest,
/// acquired, and within each the user queue before the system queue.
pub open spec fn points_of(s: SystemStatus) -> Seq<MetricPoint> {
    seq![
        point_of(s, MetricName::Queued, QueueClass::User),
        point_of(s, MetricName::Queued, QueueClass::System),
        point_of(s, MetricName::Oldest, QueueClass::User),
        point_of(s, MetricName::Oldest, QueueClass::System),
        point_of(s, MetricName::Acquired, QueueClass::User),
        point_of(s, MetricName::Acquired, QueueClass::System),
    ]
}

impl MetricBatch {
    /// What a batch built from `s` is.
    pub open spec fn is_batch_of(self, s: SystemStatus) -> bool {
        &&& self.namespace@ == NAMESPACE@
        &&& self.points@ == points_of(s)
    }
}

/// A batch built from a status has six points, one for each pair of
/// measurement and queue class, carrying that queue's count, and no pair twice.
pub proof fn lemma_translation_complete(s: SystemStatus, b: MetricBatch)
    requires
        b.is_batch_of(s),
    ensures
        b.points@.len() == 6,
        forall|m: MetricName, c: QueueClass| #![trigger point_of(s, m, c)] exists|i: int| 0 <= i < 6 && b.points@[i] == point_of(s, m, c),
        forall|i: int, j: int| 0 <= i < 6 && 0 <= j < 6 && i != j ==> {
            let p = #[trigger] b.points@[i];
            let q = #[trigger] b.points@[j];
            p.metric != q.metric || p.queue != q.queue
        },
{
    let ps = b.points@;
    assert forall|m: MetricName, c: QueueClass| #![trigger point_of(s, m, c)] exists|i: int| 0 <= i < 6 && ps[i] == point_of(s, m, c) by {
        let k: int = match m {
            MetricName::Queued => 0,
            MetricName::Oldest => 2,
            MetricName::Acquired => 4,
        };
        let i: int = match c {
            QueueClass::User => k,
            QueueClass::System => k + 1,
        };
        assert(ps[i] == point_of(s, m, c));
    }
}

/// Two batches built from the same status are equal, point for point and in order.
pub proof fn lemma_translate_deterministic(s: SystemStatus, first: MetricBatch, second: MetricBatch)
    requires
        first.is_batch_of(s),
        second.is_batch_of(s),
    ensures
        first.namespace@ == second.namespace@,
        first.points@ == second.points@,
{
}

fn metric_in_order(k: usize) -> (r: MetricName)
    requires
        k < 3,
    ensures
        r == metric_at(k as int),
{
    if k == 0 {
        MetricName::Queued
    } else if k == 1 {
        MetricName::Oldest
    } else {
        MetricName::Acquired
    }
}

fn class_in_order(k: usize) -> (r: QueueClass)
    requires
        k < 2,
    ensures
        r == class_at(k as int),
{
    if k == 0 {
        QueueClass::User
    } else {
        QueueClass::System
    }
}

/// Maps a status to its batch: one point for each measurement and queue class.
pub fn translate(s: &SystemStatus) -> (r: MetricBatch)
    ensures
        r.is_batch_of(*s),
{
    let mut points: Vec<MetricPoint> = Vec::new();
    let mut i: usize = 0;
    while i < 3
        invariant
            i <= 3,
            points@ == points_of(*s).take(2 * i),
        decreases 3 - i,
    {
        let m = metric_in_order(i);
        let mut j: usize = 0;
        while j < 2
            invariant
                i < 3,
                j <= 2,
                m == metric_at(i as int),
                points@ == points_of(*s).take(2 * i + j),
            decreases 2 - j,
        {
            let c = class_in_order(j);
            let q = s.queue(c);
            let p = MetricPoint { metric: m, queue: c, value: q.field(m) };
            proof {
                assert(points_of(*s)[2 * i + j] == p);
                assert(points_of(*s).take(2 * i + j + 1) =~= points_of(*s).take(2 * i + j).push(p));
            }
            points.push(p);
            j = j + 1;
        }
        i = i + 1;
    }
    proof {
        assert(points_of(*s).take(6) =~= points_of(*s));
    }
    MetricBatch { namespace: NAMESPACE.to_owned(), points }
}

} // verus!
