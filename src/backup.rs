//! The backup of one created object: where it goes, and the copy-then-tag
//! sequence that performs it.
use vstd::prelude::*;
use crate::event::BridgeEvent;

verus! {

/// The prefix under which backups are stored in the backup bucket.
pub open spec fn backup_prefix() -> Seq<char> {
    "backed_up/"@
}

/// The name of the tag set on an object once it is backed up.
pub open spec fn marker_key() -> Seq<char> {
    "backed_up"@
}

/// The value of the tag set on an object once it is backed up.
pub open spec fn marker_value() -> Seq<char> {
    "TRUE"@
}

/// The source and destination of one object's backup.
#[derive(Clone, Debug, PartialEq, Eq)]
pub struct BackupTask {
    pub source_bucket: String,
    pub source_key: String,
    pub dest_bucket: String,
    pub dest_key: String,
}

/// `t` backs up the object of `e` into `backup_bucket`.
pub open spec fn task_for(e: BridgeEvent, backup_bucket: Seq<char>, t: BackupTask) -> bool {
    &&& t.source_bucket@ == e.detail.bucket.name@
    &&& t.source_key@ == e.detail.object.key@
    &&& t.dest_bucket@ == backup_bucket
    &&& t.dest_key@ == backup_prefix() + e.detail.object.key@
}

/// The backup task for the object that `e` reports, into `backup_bucket`
/// under `backed_up/<key>`.
pub fn backup_task_for(e: &BridgeEvent, backup_bucket: &str) -> (r: BackupTask)
    ensures
        task_for(*e, backup_bucket@, r),
{
    let dest_key = String::from_str("backed_up/").concat(e.detail.object.key.as_str());
    BackupTask {
        source_bucket: e.detail.bucket.name.clone(),
        source_key: e.detail.object.key.clone(),
        dest_bucket: String::from_str(backup_bucket),
        dest_key,
    }
}

/// A server-side copy of `copy_source` (`<bucket>/<key>`) to `bucket`/`key`.
#[derive(Clone, Debug, PartialEq, Eq)]
pub struct CopyRequest {
    pub copy_source: String,
    pub bucket: String,
    pub key: String,
}

/// Replaces the tag set of object `bucket`/`key` by the one tag
/// `tag_key` = `tag_value`.
#[derive(Clone, Debug, PartialEq, Eq)]
pub struct TagRequest {
    pub bucket: String,
    pub key: String,
    pub tag_key: String,
    pub tag_value: String,
}

/// A call to the storage service.
#[derive(Clone, Debug, PartialEq, Eq)]
pub enum StorageCall {
    Copy(CopyRequest),
    Tag(TagRequest),
}

/// `c` copies the source object of `t` to its destination.
pub open spec fn copy_request_for(t: BackupTask, c: CopyRequest) -> bool {
    &&& c.copy_source@ == t.source_bucket@ + "/"@ + t.source_key@
    &&& c.bucket@ == t.dest_bucket@
    &&& c.key@ == t.dest_key@
}

/// `g` marks the source object of `t` (not the copy) as backed up.
pub open spec fn tag_request_for(t: BackupTask, g: TagRequest) -> bool {
    &&& g.bucket@ == t.source_bucket@
    &&& g.key@ == t.source_key@
    &&& g.tag_key@ == marker_key()
    &&& g.tag_value@ == marker_value()
}

/// The copy call of a task.
pub fn copy_request(t: &BackupTask) -> (r: CopyRequest)
    ensures
        copy_request_for(*t, r),
{
    let copy_source = t.source_bucket.clone().concat("/").concat(t.source_key.as_str());
    CopyRequest { copy_source, bucket: t.dest_bucket.clone(), key: t.dest_key.clone() }
}

/// The tag call of a task.
pub fn tag_request(t: &BackupTask) -> (r: TagRequest)
    ensures
        tag_request_for(*t, r),
{
    TagRequest {
        bucket: t.source_bucket.clone(),
        key: t.source_key.clone(),
        tag_key: String::from_str("backed_up"),
        tag_value: String::from_str("TRUE"),
    }
}

/// Where one backup stands.
#[derive(Clone, Copy, Debug, PartialEq, Eq, Structural)]
pub enum BackupStage {
    /// Nothing done yet; the copy is next.
    Pending,
    /// The copy succeeded; the tag is next.
    Copied,
    /// Copied and tagged.
    Tagged,
    /// Copied, but the tag call failed; the copy stays.
    CopyTaggingFailed,
    /// The copy failed; no tag is attempted.
    CopyFailed,
}

/// The kinds of storage call.
#[derive(Clone, Copy, Debug, PartialEq, Eq, Structural)]
pub enum CallKind {
    Copy,
    Tag,
}

/// No call is left to make.
pub open spec fn is_final(s: BackupStage) -> bool {
    !(s == BackupStage::Pending || s == BackupStage::Copied)
}

/// The call that a stage asks for next.
pub open spec fn call_due(s: BackupStage) -> Option<CallKind> {
    match s {
        BackupStage::Pending => Some(CallKind::Copy),
        BackupStage::Copied => Some(CallKind::Tag),
        _ => None,
    }
}

/// The stage after the due call of `s` succeeded (`ok`) or failed.
pub open spec fn next_stage(s: BackupStage, ok: bool) -> BackupStage {
    match s {
        BackupStage::Pending => if ok { BackupStage::Copied } else { BackupStage::CopyFailed },
        BackupStage::Copied => if ok { BackupStage::Tagged } else { BackupStage::CopyTaggingFailed },
        _ => s,
    }
}

/// The stage after the results `rs` of successive calls, from `Pending`.
pub open spec fn stage_after(rs: Seq<bool>) -> BackupStage
    decreases rs.len(),
{
    if rs.len() == 0 {
        BackupStage::Pending
    } else {
        next_stage(stage_after(rs.drop_last()), rs.last())
    }
}

/// Drives the backup of one object: it names the storage call to make next
/// and takes its result. A copy comes first; the tag is asked for only after
/// the copy succeeded; nothing is undone.
#[derive(Clone, Debug, PartialEq, Eq)]
pub struct BackupOrchestrator {
    pub task: BackupTask,
    pub stage: BackupStage,
}

impl BackupOrchestrator {
    /// A backup of `task` that has not started.
    pub fn new(task: BackupTask) -> (r: BackupOrchestrator)
        ensures
            r.task == task,
            r.stage == BackupStage::Pending,
    {
        BackupOrchestrator { task, stage: BackupStage::Pending }
    }

    /// The storage call to make next, if any.
    pub fn next_call(&self) -> (r: Option<StorageCall>)
        ensures
            match r {
                Some(StorageCall::Copy(c)) => call_due(self.stage) == Some(CallKind::Copy)
                    && copy_request_for(self.task, c),
                Some(StorageCall::Tag(g)) => call_due(self.stage) == Some(CallKind::Tag)
                    && tag_request_for(self.task, g),
                None => call_due(self.stage) is None,
            },
    {
        match self.stage {
            BackupStage::Pending => Some(StorageCall::Copy(copy_request(&self.task))),
            BackupStage::Copied => Some(StorageCall::Tag(tag_request(&self.task))),
            _ => None,
        }
    }

    /// Takes the result of the call that `next_call` named.
    pub fn record_result(&mut self, ok: bool)
        requires
            !is_final(old(self).stage),
        ensures
            final(self).task == old(self).task,
            final(self).stage == next_stage(old(self).stage, ok),
    {
        self.stage = match self.stage {
            BackupStage::Pending => if ok { BackupStage::Copied } else { BackupStage::CopyFailed },
            _ => if ok { BackupStage::Tagged } else { BackupStage::CopyTaggingFailed },
        };
    }

    /// No call is left to make.
    pub fn is_done(&self) -> (r: bool)
        ensures
            r == is_final(self.stage),
    {
        !(self.stage == BackupStage::Pending || self.stage == BackupStage::Copied)
    }
}

/// What the storage service holds, as far as a backup touches it: the
/// objects, each as (bucket, key), and the tag set of each tagged object.
pub struct StoreModel {
    pub objects: Set<(Seq<char>, Seq<char>)>,
    pub tags: Map<(Seq<char>, Seq<char>), Map<Seq<char>, Seq<char>>>,
}

/// The store after call `c` succeeded (`ok`) or failed; a failed call
/// changes nothing.
pub open spec fn after_call(s: StoreModel, c: StorageCall, ok: bool) -> StoreModel {
    if !ok {
        s
    } else {
        match c {
            StorageCall::Copy(r) => StoreModel {
                objects: s.objects.insert((r.bucket@, r.key@)),
                tags: s.tags,
            },
            StorageCall::Tag(g) => StoreModel {
                objects: s.objects,
                tags: s.tags.insert((g.bucket@, g.key@), map![g.tag_key@ => g.tag_value@]),
            },
        }
    }
}

/// A successful copy followed by a successful tag leaves the copy at
/// `backed_up/<key>` in the backup bucket and the source object tagged
/// `backed_up=TRUE`, and the backup ends `Tagged`.
pub proof fn lemma_copy_then_tag_backs_up(
    e: BridgeEvent,
    backup_bucket: Seq<char>,
    t: BackupTask,
    c: CopyRequest,
    g: TagRequest,
    s: StoreModel,
)
    requires
        task_for(e, backup_bucket, t),
        copy_request_for(t, c),
        tag_request_for(t, g),
    ensures
        call_due(BackupStage::Pending) == Some(CallKind::Copy),
        call_due(stage_after(seq![true])) == Some(CallKind::Tag),
        stage_after(seq![true, true]) == BackupStage::Tagged,
        after_call(after_call(s, StorageCall::Copy(c), true), StorageCall::Tag(g), true).objects.contains(
            (backup_bucket, backup_prefix() + e.detail.object.key@),
        ),
        after_call(after_call(s, StorageCall::Copy(c), true), StorageCall::Tag(g), true).tags[(
            e.detail.bucket.name@,
            e.detail.object.key@,
        )] == map![marker_key() => marker_value()],
{
    assert(seq![true].drop_last() =~= Seq::<bool>::empty());
    assert(seq![true, true].drop_last() =~= seq![true]);
    reveal_with_fuel(stage_after, 3);
}

/// Once the copy has failed no tag call is ever due, whatever results
/// follow.
pub proof fn lemma_copy_failure_never_tags(rs: Seq<bool>)
    requires
        rs.len() > 0,
        rs[0] == false,
    ensures
        forall|i: int|
            1 <= i <= rs.len() ==> stage_after(#[trigger] rs.take(i)) == BackupStage::CopyFailed
                && call_due(stage_after(rs.take(i))) is None,
    decreases rs.len(),
{
    if rs.len() > 1 {
        lemma_copy_failure_never_tags(rs.drop_last());
        assert forall|i: int| 1 <= i <= rs.len() implies stage_after(#[trigger] rs.take(i))
            == BackupStage::CopyFailed by {
            if i < rs.len() {
                assert(rs.take(i) =~= rs.drop_last().take(i));
            } else {
                assert(rs.take(i) =~= rs);
                assert(rs.drop_last().take(i - 1) =~= rs.drop_last());
            }
        }
    } else {
        assert(rs.take(1) =~= rs);
        assert(rs.drop_last() =~= Seq::<bool>::empty());
        reveal_with_fuel(stage_after, 2);
    }
}

/// When the copy succeeds and the tag fails, the backup ends
/// `CopyTaggingFailed` with no call left, and the copy still exists: no call
/// removes an object.
pub proof fn lemma_tag_failure_keeps_copy(t: BackupTask, c: CopyRequest, g: TagRequest, s: StoreModel)
    requires
        copy_request_for(t, c),
        tag_request_for(t, g),
    ensures
        stage_after(seq![true, false]) == BackupStage::CopyTaggingFailed,
        call_due(BackupStage::CopyTaggingFailed) is None,
        after_call(after_call(s, StorageCall::Copy(c), true), StorageCall::Tag(g), false).objects.contains(
            (t.dest_bucket@, t.dest_key@),
        ),
        forall|x: StorageCall, ok: bool| s.objects.subset_of(#[trigger] after_call(s, x, ok).objects),
{
    assert(seq![true, false].drop_last() =~= seq![true]);
    assert(seq![true].drop_last() =~= Seq::<bool>::empty());
    reveal_with_fuel(stage_after, 3);
}

} // verus!
