//! The plan for one batch of notification records: each message unwrapped
//! into a backup task, or the parse error it ends in.
use vstd::prelude::*;
use crate::backup::{BackupTask, backup_task_for, backup_prefix};
use crate::event::{ParseError, bucket_json, object_json, message_decodes, message_error, parse_message};
use crate::json::{Json, json_of, str_field};

verus! {

/// What a parse failure does to the rest of a batch.
#[derive(Clone, Copy, Debug, PartialEq, Eq, Structural)]
pub enum FailurePolicy {
    /// The first unparsable record ends the batch, and the invocation fails.
    AbortBatch,
    /// An unparsable record is skipped; the records after it are processed.
    IsolateRecords,
}

/// What is to be done with one record.
#[derive(Clone, Debug, PartialEq, Eq)]
pub enum RecordPlan {
    /// Back the object up.
    Backup(BackupTask),
    /// The message did not decode; nothing is done with it.
    Unparsable(ParseError),
}

/// The plan for a batch: one entry per record handled, in order.
#[derive(Clone, Debug, PartialEq, Eq)]
pub struct BatchPlan {
    pub records: Vec<RecordPlan>,
    /// The batch was cut short by a parse failure.
    pub aborted: bool,
}

/// `t` backs up, into `backup_bucket`, the object that document `j` reports.
pub open spec fn task_fits(j: Json, backup_bucket: Seq<char>, t: BackupTask) -> bool {
    &&& str_field(bucket_json(j), "name"@) == Some(t.source_bucket@)
    &&& str_field(object_json(j), "key"@) == Some(t.source_key@)
    &&& t.dest_bucket@ == backup_bucket
    &&& t.dest_key@ == backup_prefix() + t.source_key@
}

/// `p` is what is to be done with the record whose message is `text`.
pub open spec fn plan_fits(text: Seq<char>, backup_bucket: Seq<char>, p: RecordPlan) -> bool {
    match p {
        RecordPlan::Backup(t) => message_decodes(text) && task_fits(json_of(text)->Some_0, backup_bucket, t),
        RecordPlan::Unparsable(err) => !message_decodes(text) && err == message_error(text),
    }
}

/// Unwraps each message of a batch, in order, into the backup of the object
/// it reports (into `backup_bucket`) or the parse error it ends in. Under
/// `IsolateRecords` every record gets an entry; under `AbortBatch` the plan
/// ends with the first record that does not parse.
pub fn plan_batch(messages: &Vec<String>, backup_bucket: &str, policy: FailurePolicy) -> (r: BatchPlan)
    ensures
        r.records@.len() <= messages@.len(),
        forall|i: int|
            0 <= i < r.records@.len() ==> plan_fits(messages@[i]@, backup_bucket@, #[trigger] r.records@[i]),
        !r.aborted ==> r.records@.len() == messages@.len(),
        policy == FailurePolicy::IsolateRecords ==> !r.aborted,
        policy == FailurePolicy::AbortBatch ==> {
            &&& r.aborted <==> exists|i: int| 0 <= i < messages@.len() && !message_decodes(#[trigger] messages@[i]@)
            &&& r.aborted ==> r.records@.len() > 0 && r.records@.last() is Unparsable
            &&& forall|i: int| 0 <= i < r.records@.len() - 1 ==> #[trigger] r.records@[i] is Backup
        },
{
    let mut records: Vec<RecordPlan> = Vec::new();
    let mut i: usize = 0;
    while i < messages.len()
        invariant
            i <= messages@.len(),
            records@.len() == i,
            forall|k: int| 0 <= k < i ==> plan_fits(messages@[k]@, backup_bucket@, #[trigger] records@[k]),
            policy == FailurePolicy::AbortBatch ==> forall|k: int| 0 <= k < i ==> #[trigger] records@[k] is Backup,
        decreases messages@.len() - i,
    {
        match parse_message(messages[i].as_str()) {
            Ok(e) => {
                let t = backup_task_for(&e, backup_bucket);
                records.push(RecordPlan::Backup(t));
                assert(plan_fits(messages@[i as int]@, backup_bucket@, records@[i as int]));
            },
            Err(err) => {
                records.push(RecordPlan::Unparsable(err));
                assert(plan_fits(messages@[i as int]@, backup_bucket@, records@[i as int]));
                if policy == FailurePolicy::AbortBatch {
                    return BatchPlan { records, aborted: true };
                }
            },
        }
        i = i + 1;
    }
    proof {
        if policy == FailurePolicy::AbortBatch {
            assert forall|k: int| 0 <= k < messages@.len() implies message_decodes(#[trigger] messages@[k]@) by {
                assert(records@[k] is Backup);
            }
        }
    }
    BatchPlan { records, aborted: false }
}

impl BatchPlan {
    /// What the invocation reports once the plan has been carried out: the
    /// parse error that cut the batch short, or success.
    pub fn invocation_result(&self) -> (r: Result<(), ParseError>)
        ensures
            r == (if self.aborted && self.records@.len() > 0 && self.records@.last() is Unparsable {
                Err(self.records@.last()->Unparsable_0)
            } else {
                Ok(())
            }),
    {
        if self.aborted && self.records.len() > 0 {
            match &self.records[self.records.len() - 1] {
                RecordPlan::Unparsable(e) => Err(*e),
                RecordPlan::Backup(_) => Ok(()),
            }
        } else {
            Ok(())
        }
    }
}

} // verus!
