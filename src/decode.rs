use vstd::prelude::*;
use crate::json::{Json, count_of, json_parse, member_in, member_of, parse_json};
use crate::status::{MetricName, QueueClass, QueueStatus, SystemStatus, class_label, metric_label, lemma_labels_distinct};

verus! {

/// Why a status document was refused.
#[derive(Clone, Copy, Debug, PartialEq, Eq, Structural)]
pub enum DecodeError {
    /// The text is not JSON.
    Syntax,
    /// The document has no `analysis` object.
    MissingAnalysis,
    /// `analysis` has no object for this queue class.
    MissingQueue(QueueClass),
    /// The queue's field is absent or not an integer in `0..=u64::MAX`.
    InvalidField(QueueClass, MetricName),
}

/// The member `key` of `j`, where `j` is present.
pub open spec fn member_opt(j: Option<Json>, key: Seq<char>) -> Option<Json> {
    match j {
        Some(v) => member_of(v, key),
        None => None,
    }
}

/// Whether `j` is present and an object.
pub open spec fn is_object(j: Option<Json>) -> bool {
    j matches Some(Json::Object(_))
}

/// The object that holds the two queues.
pub open spec fn analysis_of(doc: Json) -> Option<Json> {
    member_of(doc, "analysis"@)
}

/// The object of queue class `c`.
pub open spec fn queue_of(doc: Json, c: QueueClass) -> Option<Json> {
    member_opt(analysis_of(doc), class_label(c))
}

/// The field of measurement `m` of queue class `c`, where it is a count.
pub open spec fn field_at(doc: Json, c: QueueClass, m: MetricName) -> Option<u64> {
    count_of(member_opt(queue_of(doc, c), metric_label(m)))
}

/// The queue of class `c` as decoded from its object `q`: the first field,
/// in the order acquired, queued, oldest, that is not a count is reported.
pub open spec fn decode_queue_spec(c: QueueClass, q: Option<Json>) -> Result<QueueStatus, DecodeError> {
    let acquired = count_of(member_opt(q, metric_label(MetricName::Acquired)));
    let queued = count_of(member_opt(q, metric_label(MetricName::Queued)));
    let oldest = count_of(member_opt(q, metric_label(MetricName::Oldest)));
    if !is_object(q) {
        Err(DecodeError::MissingQueue(c))
    } else if acquired is None {
        Err(DecodeError::InvalidField(c, MetricName::Acquired))
    } else if queued is None {
        Err(DecodeError::InvalidField(c, MetricName::Queued))
    } else if oldest is None {
        Err(DecodeError::InvalidField(c, MetricName::Oldest))
    } else {
        Ok(QueueStatus { acquired: acquired->0, queued: queued->0, oldest: oldest->0 })
    }
}

/// The status that `doc` holds, or the first defect of it: `analysis`,
/// then the user queue, then the system queue. Other members are ignored.
pub open spec fn decode_spec(doc: Json) -> Result<SystemStatus, DecodeError> {
    if !is_object(analysis_of(doc)) {
        Err(DecodeError::MissingAnalysis)
    } else {
        match decode_queue_spec(QueueClass::User, queue_of(doc, QueueClass::User)) {
            Err(e) => Err(e),
            Ok(user) => match decode_queue_spec(QueueClass::System, queue_of(doc, QueueClass::System)) {
                Err(e) => Err(e),
                Ok(system) => Ok(SystemStatus { user, system }),
            },
        }
    }
}

/// The result of decoding the text `text`.
pub open spec fn decode_text_spec(text: Seq<char>) -> Result<SystemStatus, DecodeError> {
    match json_parse(text) {
        None => Err(DecodeError::Syntax),
        Some(doc) => decode_spec(doc),
    }
}

fn member_or_none<'a>(j: Option<&'a Json>, key: &String) -> (r: Option<&'a Json>)
    ensures
        match j {
            Some(v) => match r {
                Some(x) => member_of(*v, key@) == Some(*x),
                None => member_of(*v, key@) is None,
            },
            None => r is None,
        },
{
    match j {
        Some(v) => v.member(key),
        None => None,
    }
}

fn count_in(q: &Json, m: MetricName) -> (r: Option<u64>)
    ensures
        r == count_of(member_of(*q, metric_label(m))),
{
    match q.member(&m.label()) {
        Some(Json::Number(n)) => *n,
        _ => None,
    }
}

fn decode_queue(c: QueueClass, q: Option<&Json>) -> (r: Result<QueueStatus, DecodeError>)
    ensures
        r == decode_queue_spec(
            c,
            match q {
                Some(v) => Some(*v),
                None => None,
            },
        ),
{
    let obj = match q {
        Some(v) => match v {
            Json::Object(_) => v,
            _ => {
                return Err(DecodeError::MissingQueue(c));
            },
        },
        None => {
            return Err(DecodeError::MissingQueue(c));
        },
    };
    let acquired = match count_in(obj, MetricName::Acquired) {
        Some(n) => n,
        None => {
            return Err(DecodeError::InvalidField(c, MetricName::Acquired));
        },
    };
    let queued = match count_in(obj, MetricName::Queued) {
        Some(n) => n,
        None => {
            return Err(DecodeError::InvalidField(c, MetricName::Queued));
        },
    };
    let oldest = match count_in(obj, MetricName::Oldest) {
        Some(n) => n,
        None => {
            return Err(DecodeError::InvalidField(c, MetricName::Oldest));
        },
    };
    Ok(QueueStatus { acquired, queued, oldest })
}

/// Reads a status out of a parsed document.
pub fn decode_document(doc: &Json) -> (r: Result<SystemStatus, DecodeError>)
    ensures
        r == decode_spec(*doc),
{
    let analysis = doc.member(&"analysis".to_owned());
    match analysis {
        Some(Json::Object(_)) => {},
        _ => {
            return Err(DecodeError::MissingAnalysis);
        },
    }
    let user = decode_queue(QueueClass::User, member_or_none(analysis, &QueueClass::User.label()))?;
    let system = decode_queue(
        QueueClass::System,
        member_or_none(analysis, &QueueClass::System.label()),
    )?;
    Ok(SystemStatus { user, system })
}

/// Parses the text of a status document and reads the status out of it.
pub fn decode_text(text: &str) -> (r: Result<SystemStatus, DecodeError>)
    ensures
        r == decode_text_spec(text@),
{
    match parse_json(text) {
        None => Err(DecodeError::Syntax),
        Some(doc) => decode_document(&doc),
    }
}

fn encode_queue(q: &QueueStatus) -> (r: Json)
    ensures
        r is Object,
        forall|m: MetricName| #[trigger] count_of(member_of(r, metric_label(m))) == Some(q.field_spec(m)),
{
    let members = vec![
        (MetricName::Acquired.label(), Json::Number(Some(q.acquired))),
        (MetricName::Queued.label(), Json::Number(Some(q.queued))),
        (MetricName::Oldest.label(), Json::Number(Some(q.oldest))),
    ];
    proof {
        lemma_labels_distinct();
        assert(members@.drop_first().drop_first().drop_first().len() == 0);
        assert forall|m: MetricName| #[trigger] count_of(member_of(Json::Object(members), metric_label(m))) == Some(q.field_spec(m)) by {
            let ms = members@;
            let key = metric_label(m);
            if m != MetricName::Acquired {
                assert(member_in(ms, key) == member_in(ms.drop_first(), key));
                if m != MetricName::Queued {
                    assert(member_in(ms.drop_first(), key) == member_in(ms.drop_first().drop_first(), key));
                }
            }
        }
    }
    Json::Object(members)
}

/// The document that holds `s`, in the schema's shape.
pub fn encode(s: &SystemStatus) -> (r: Json)
    ensures
        encodes(r, *s),
        decode_spec(r) == Ok::<SystemStatus, DecodeError>(*s),
{
    let queues = vec![
        (QueueClass::User.label(), encode_queue(&s.user)),
        (QueueClass::System.label(), encode_queue(&s.system)),
    ];
    let doc_members = vec![("analysis".to_owned(), Json::Object(queues))];
    let doc = Json::Object(doc_members);
    proof {
        lemma_labels_distinct();
        assert(doc_members@.drop_first().len() == 0);
        assert(queues@.drop_first().drop_first().len() == 0);
        assert(class_label(QueueClass::User) != class_label(QueueClass::System));
        assert(analysis_of(doc) == Some(Json::Object(queues)));
        assert(queue_of(doc, QueueClass::User) == Some(queues@[0].1));
        assert(member_in(queues@, class_label(QueueClass::System)) == member_in(queues@.drop_first(), class_label(QueueClass::System)));
        assert(queue_of(doc, QueueClass::System) == Some(queues@[1].1));
        assert forall|c: QueueClass, m: MetricName| #[trigger]
            field_at(doc, c, m) == Some(s.queue_spec(c).field_spec(m)) by {
            match c {
                QueueClass::User => {},
                QueueClass::System => {},
            }
        }
        lemma_decode_reads_fields(doc);
        let t = decode_spec(doc)->Ok_0;
        assert(field_at(doc, QueueClass::User, MetricName::Acquired) == Some(t.user.acquired));
        assert(field_at(doc, QueueClass::User, MetricName::Queued) == Some(t.user.queued));
        assert(field_at(doc, QueueClass::User, MetricName::Oldest) == Some(t.user.oldest));
        assert(field_at(doc, QueueClass::System, MetricName::Acquired) == Some(t.system.acquired));
        assert(field_at(doc, QueueClass::System, MetricName::Queued) == Some(t.system.queued));
        assert(field_at(doc, QueueClass::System, MetricName::Oldest) == Some(t.system.oldest));
    }
    doc
}

/// Whether `doc` holds each measurement of `s` where the schema reads it.
pub open spec fn encodes(doc: Json, s: SystemStatus) -> bool {
    forall|c: QueueClass, m: MetricName| #[trigger]
        field_at(doc, c, m) == Some(s.queue_spec(c).field_spec(m))
}

proof fn lemma_decode_queue_fields(c: QueueClass, q: Option<Json>)
    ensures
        decode_queue_spec(c, q) is Ok <==> (forall|m: MetricName|
            #[trigger] count_of(member_opt(q, metric_label(m))) is Some),
        decode_queue_spec(c, q) is Ok ==> (forall|m: MetricName|
            #[trigger] count_of(member_opt(q, metric_label(m))) == Some(
                decode_queue_spec(c, q)->Ok_0.field_spec(m),
            )),
{
    if !is_object(q) {
        assert(count_of(member_opt(q, metric_label(MetricName::Acquired))) is None);
    } else if count_of(member_opt(q, metric_label(MetricName::Acquired))) is None {
    } else if count_of(member_opt(q, metric_label(MetricName::Queued))) is None {
    } else if count_of(member_opt(q, metric_label(MetricName::Oldest))) is None {
    } else {
        assert forall|m: MetricName| #[trigger] count_of(member_opt(q, metric_label(m))) is Some by {
            match m {
                MetricName::Queued => {},
                MetricName::Oldest => {},
                MetricName::Acquired => {},
            }
        }
    }
}

/// A document decodes exactly when every measurement of both queues is a
/// count where the schema reads it, and then the status holds those counts.
pub proof fn lemma_decode_reads_fields(doc: Json)
    ensures
        decode_spec(doc) is Ok <==> (forall|c: QueueClass, m: MetricName|
            #[trigger] field_at(doc, c, m) is Some),
        decode_spec(doc) is Ok ==> encodes(doc, decode_spec(doc)->Ok_0),
{
    lemma_decode_queue_fields(QueueClass::User, queue_of(doc, QueueClass::User));
    lemma_decode_queue_fields(QueueClass::System, queue_of(doc, QueueClass::System));
    if !is_object(analysis_of(doc)) {
        assert(field_at(doc, QueueClass::User, MetricName::Acquired) is None);
    } else if decode_queue_spec(QueueClass::User, queue_of(doc, QueueClass::User)) is Err {
        let m = choose|m: MetricName| #[trigger] count_of(member_opt(queue_of(doc, QueueClass::User), metric_label(m))) is None;
        assert(field_at(doc, QueueClass::User, m) is None);
    } else if decode_queue_spec(QueueClass::System, queue_of(doc, QueueClass::System)) is Err {
        let m = choose|m: MetricName| #[trigger] count_of(member_opt(queue_of(doc, QueueClass::System), metric_label(m))) is None;
        assert(field_at(doc, QueueClass::System, m) is None);
    } else {
        assert forall|c: QueueClass, m: MetricName| #[trigger] field_at(doc, c, m) is Some by {
            match c {
                QueueClass::User => assert(count_of(member_opt(queue_of(doc, QueueClass::User), metric_label(m))) is Some),
                QueueClass::System => assert(count_of(member_opt(queue_of(doc, QueueClass::System), metric_label(m))) is Some),
            }
        }
        let s = decode_spec(doc)->Ok_0;
        assert forall|c: QueueClass, m: MetricName| #[trigger]
            field_at(doc, c, m) == Some(s.queue_spec(c).field_spec(m)) by {
            match c {
                QueueClass::User => assert(count_of(member_opt(queue_of(doc, QueueClass::User), metric_label(m))) == Some(s.user.field_spec(m))),
                QueueClass::System => assert(count_of(member_opt(queue_of(doc, QueueClass::System), metric_label(m))) == Some(s.system.field_spec(m))),
            }
        }
    }
}

/// Decoding a document and encoding the status again keeps all six counts
/// where the schema reads them, and the new document decodes to the same status.
pub proof fn lemma_decode_encode_round_trip(doc: Json, again: Json)
    requires
        decode_spec(doc) is Ok,
        encodes(again, decode_spec(doc)->Ok_0),
    ensures
        forall|c: QueueClass, m: MetricName| #[trigger] field_at(again, c, m) == field_at(doc, c, m),
        decode_spec(again) == decode_spec(doc),
{
    lemma_decode_reads_fields(doc);
    lemma_decode_reads_fields(again);
    let s = decode_spec(doc)->Ok_0;
    let t = decode_spec(again)->Ok_0;
    assert forall|c: QueueClass, m: MetricName| #[trigger] field_at(again, c, m) == field_at(doc, c, m) by {
        assert(field_at(again, c, m) == Some(s.queue_spec(c).field_spec(m)));
    }
    assert(field_at(again, QueueClass::User, MetricName::Acquired) is Some);
    assert(t.user.acquired == s.user.acquired) by {
        assert(field_at(again, QueueClass::User, MetricName::Acquired) == Some(t.queue_spec(QueueClass::User).field_spec(MetricName::Acquired)));
    }
    assert(t.user.queued == s.user.queued) by {
        assert(field_at(again, QueueClass::User, MetricName::Queued) == Some(t.queue_spec(QueueClass::User).field_spec(MetricName::Queued)));
    }
    assert(t.user.oldest == s.user.oldest) by {
        assert(field_at(again, QueueClass::User, MetricName::Oldest) == Some(t.queue_spec(QueueClass::User).field_spec(MetricName::Oldest)));
    }
    assert(t.system.acquired == s.system.acquired) by {
        assert(field_at(again, QueueClass::System, MetricName::Acquired) == Some(t.queue_spec(QueueClass::System).field_spec(MetricName::Acquired)));
    }
    assert(t.system.queued == s.system.queued) by {
        assert(field_at(again, QueueClass::System, MetricName::Queued) == Some(t.queue_spec(QueueClass::System).field_spec(MetricName::Queued)));
    }
    assert(t.system.oldest == s.system.oldest) by {
        assert(field_at(again, QueueClass::System, MetricName::Oldest) == Some(t.queue_spec(QueueClass::System).field_spec(MetricName::Oldest)));
    }
}

/// A document in which some measurement of some queue is not a count where
/// the schema reads it (no `analysis`, no queue object, an absent, negative,
/// fractional or non-numeric field) does not decode.
pub proof fn lemma_schema_rejection(doc: Json, c: QueueClass, m: MetricName)
    requires
        field_at(doc, c, m) is None,
    ensures
        decode_spec(doc) is Err,
{
    lemma_decode_reads_fields(doc);
}

} // verus!

