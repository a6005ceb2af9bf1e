use std::collections::{HashMap, HashSet};

use media_lambdas::backup::{
    backup_task_for, BackupOrchestrator, BackupStage, BackupTask, StorageCall,
};
use media_lambdas::batch::{plan_batch, FailurePolicy, RecordPlan};
use media_lambdas::event::{parse_message, ParseError};

/// A storage service in memory, with calls that can be made to fail.
struct FakeStore {
    objects: HashSet<(String, String)>,
    tags: HashMap<(String, String), Vec<(String, String)>>,
    calls: Vec<StorageCall>,
    fail_copy: bool,
    fail_tag: bool,
}

impl FakeStore {
    fn new(fail_copy: bool, fail_tag: bool) -> FakeStore {
        FakeStore { objects: HashSet::new(), tags: HashMap::new(), calls: vec![], fail_copy, fail_tag }
    }

    fn perform(&mut self, call: &StorageCall) -> bool {
        self.calls.push(call.clone());
        match call {
            StorageCall::Copy(c) => {
                if self.fail_copy {
                    return false;
                }
                self.objects.insert((c.bucket.clone(), c.key.clone()));
                true
            }
            StorageCall::Tag(t) => {
                if self.fail_tag {
                    return false;
                }
                self.tags.insert(
                    (t.bucket.clone(), t.key.clone()),
                    vec![(t.tag_key.clone(), t.tag_value.clone())],
                );
                true
            }
        }
    }

    fn run(&mut self, task: BackupTask) -> BackupStage {
        let mut o = BackupOrchestrator::new(task);
        while let Some(call) = o.next_call() {
            let ok = self.perform(&call);
            o.record_result(ok);
        }
        o.stage
    }

    fn tag_calls(&self) -> usize {
        self.calls.iter().filter(|c| matches!(c, StorageCall::Tag(_))).count()
    }
}

fn message(key: &str) -> String {
    format!(
        r#"{{"source":"aws.s3","detail-type":"Object Created","time":"t","detail":{{"version":"0","bucket":{{"name":"videos"}},"object":{{"key":"{}","size":7,"etag":"e","sequencer":"s"}},"request-id":"r","requester":"q","source-ip-address":"1.2.3.4","reason":"PutObject"}}}}"#,
        key
    )
}

fn task(key: &str) -> BackupTask {
    backup_task_for(&parse_message(&message(key)).unwrap(), "backups")
}

#[test]
fn task_targets_backed_up_prefix() {
    let t = task("clip.mov");
    assert_eq!(t.source_bucket, "videos");
    assert_eq!(t.source_key, "clip.mov");
    assert_eq!(t.dest_bucket, "backups");
    assert_eq!(t.dest_key, "backed_up/clip.mov");
}

#[test]
fn copy_request_names_source_path() {
    let o = BackupOrchestrator::new(task("a/b.mov"));
    match o.next_call() {
        Some(StorageCall::Copy(c)) => {
            assert_eq!(c.copy_source, "videos/a/b.mov");
            assert_eq!(c.bucket, "backups");
            assert_eq!(c.key, "backed_up/a/b.mov");
        }
        other => panic!("unexpected call {:?}", other),
    }
}

#[test]
fn copy_then_tag_backs_up_and_marks_source() {
    let mut store = FakeStore::new(false, false);
    assert_eq!(store.run(task("clip.mov")), BackupStage::Tagged);
    assert!(store.objects.contains(&("backups".to_string(), "backed_up/clip.mov".to_string())));
    assert_eq!(
        store.tags.get(&("videos".to_string(), "clip.mov".to_string())),
        Some(&vec![("backed_up".to_string(), "TRUE".to_string())])
    );
    assert!(!store.tags.contains_key(&("backups".to_string(), "backed_up/clip.mov".to_string())));
}

#[test]
fn copy_failure_issues_no_tag() {
    let mut store = FakeStore::new(true, false);
    assert_eq!(store.run(task("clip.mov")), BackupStage::CopyFailed);
    assert_eq!(store.calls.len(), 1);
    assert_eq!(store.tag_calls(), 0);
    assert!(store.tags.is_empty());
}

#[test]
fn tag_failure_keeps_copy() {
    let mut store = FakeStore::new(false, true);
    assert_eq!(store.run(task("clip.mov")), BackupStage::CopyTaggingFailed);
    assert!(store.objects.contains(&("backups".to_string(), "backed_up/clip.mov".to_string())));
    assert_eq!(store.calls.len(), 2);
    assert!(store.tags.is_empty());
}

#[test]
fn orchestrator_is_done_only_at_the_end() {
    let mut o = BackupOrchestrator::new(task("k"));
    assert!(!o.is_done());
    o.record_result(true);
    assert_eq!(o.stage, BackupStage::Copied);
    assert!(!o.is_done());
    o.record_result(true);
    assert!(o.is_done());
    assert_eq!(o.next_call(), None);
}

fn three_records() -> Vec<String> {
    vec![message("one.mov"), "{\"source\": oops".to_string(), message("three.mov")]
}

#[test]
fn malformed_middle_record_is_isolated() {
    let plan = plan_batch(&three_records(), "backups", FailurePolicy::IsolateRecords);
    assert!(!plan.aborted);
    assert_eq!(plan.records.len(), 3);
    assert_eq!(plan.records[1], RecordPlan::Unparsable(ParseError::NotJson));
    let mut store = FakeStore::new(false, false);
    for r in &plan.records {
        if let RecordPlan::Backup(t) = r {
            assert_eq!(store.run(t.clone()), BackupStage::Tagged);
        }
    }
    assert!(store.objects.contains(&("backups".to_string(), "backed_up/one.mov".to_string())));
    assert!(store.objects.contains(&("backups".to_string(), "backed_up/three.mov".to_string())));
}

#[test]
fn malformed_middle_record_aborts_batch() {
    let plan = plan_batch(&three_records(), "backups", FailurePolicy::AbortBatch);
    assert!(plan.aborted);
    assert_eq!(plan.records.len(), 2);
    assert_eq!(plan.records[0], RecordPlan::Backup(task("one.mov")));
    assert_eq!(plan.records[1], RecordPlan::Unparsable(ParseError::NotJson));
    let mut store = FakeStore::new(false, false);
    for r in &plan.records {
        if let RecordPlan::Backup(t) = r {
            store.run(t.clone());
        }
    }
    assert!(store.objects.contains(&("backups".to_string(), "backed_up/one.mov".to_string())));
    assert!(!store.objects.contains(&("backups".to_string(), "backed_up/three.mov".to_string())));
}

#[test]
fn batch_without_failures_is_complete_under_both_policies() {
    let msgs = vec![message("a"), message("b")];
    for policy in [FailurePolicy::AbortBatch, FailurePolicy::IsolateRecords] {
        let plan = plan_batch(&msgs, "backups", policy);
        assert!(!plan.aborted);
        assert_eq!(plan.records, vec![RecordPlan::Backup(task("a")), RecordPlan::Backup(task("b"))]);
    }
}

#[test]
fn empty_batch_plans_nothing() {
    let plan = plan_batch(&vec![], "backups", FailurePolicy::AbortBatch);
    assert!(!plan.aborted);
    assert!(plan.records.is_empty());
}

#[test]
fn schema_mismatch_is_recorded() {
    let plan = plan_batch(&vec!["{}".to_string()], "backups", FailurePolicy::IsolateRecords);
    assert_eq!(plan.records, vec![RecordPlan::Unparsable(ParseError::SchemaMismatch)]);
}

#[test]
fn aborted_batch_fails_the_invocation() {
    let aborted = plan_batch(&three_records(), "backups", FailurePolicy::AbortBatch);
    assert_eq!(aborted.invocation_result(), Err(ParseError::NotJson));
    let isolated = plan_batch(&three_records(), "backups", FailurePolicy::IsolateRecords);
    assert_eq!(isolated.invocation_result(), Ok(()));
}
