use std::sync::{Arc, Mutex};
use copytej::engine::conflict::{
    answer_decision, conflict_action, job_wide_decision, rename_candidate, AskStart,
    ConflictAction, ConflictFacts, ConflictManager, ConflictResolution,
};

fn wait_id(start: AskStart) -> String {
    match start {
        AskStart::Wait { conflict_id } => conflict_id,
        AskStart::Known(_) => panic!("no standing answer yet"),
    }
}

#[test]
fn interactive_resolution_reaches_the_waiting_conflict() {
    let mut cm = ConflictManager::new();
    let id = wait_id(cm.begin_ask("job-456", 0x1234));
    assert_eq!(cm.pending_ids(), vec![id.clone()]);
    assert!(cm.is_pending(&id));
    // No answer yet: finishing the ask collects nothing and changes nothing.
    assert_eq!(cm.finish_ask("job-456".to_string(), &id), None);
    assert!(cm.resolve(&id, ConflictResolution::Rename));
    // Answered once: a second answer finds nothing waiting.
    assert!(!cm.is_pending(&id));
    assert!(!cm.resolve(&id, ConflictResolution::Skip));
    assert!(cm.pending_ids().is_empty());
    assert_eq!(cm.finish_ask("job-456".to_string(), &id), Some(ConflictResolution::Rename));
    assert_eq!(cm.finish_ask("job-456".to_string(), &id), None);
    // A per-file answer does not stick to the job.
    assert_eq!(cm.get_job_resolution("job-456"), None);
}

#[test]
fn job_wide_answer_sticks_to_the_job() {
    let mut cm = ConflictManager::new();
    let c1 = wait_id(cm.begin_ask("job-1", 1));
    assert!(cm.resolve(&c1, ConflictResolution::SkipAll));
    assert_eq!(cm.finish_ask("job-1".to_string(), &c1), Some(ConflictResolution::SkipAll));
    assert_eq!(cm.get_job_resolution("job-1"), Some(ConflictResolution::SkipAll));
    match cm.begin_ask("job-1", 2) {
        AskStart::Known(r) => assert_eq!(r, ConflictResolution::SkipAll),
        AskStart::Wait { .. } => panic!("the standing answer applies"),
    }
    assert!(cm.pending_ids().is_empty());
    assert_eq!(cm.get_job_resolution("job-2"), None);
}

#[test]
fn conflicts_get_version_4_uuids_from_the_random_bits() {
    let mut cm = ConflictManager::new();
    let a = wait_id(cm.begin_ask("job-9", 0));
    let b = wait_id(cm.begin_ask("job-9", u128::MAX));
    assert_eq!(a, "00000000-0000-4000-8000-000000000000");
    assert_eq!(b, "ffffffff-ffff-4fff-bfff-ffffffffffff");
    let r: u128 = 0x0123_4567_89ab_cdef_0123_4567_89ab_cdef;
    let c = wait_id(cm.begin_ask("job-9", r));
    assert_eq!(
        c,
        uuid::Builder::from_random_bytes(r.to_be_bytes()).into_uuid().to_string()
    );
    assert_eq!(uuid::Uuid::parse_str(&c).unwrap().get_version_num(), 4);
    let mut pending = cm.pending_ids();
    pending.sort();
    let mut all = vec![a, b, c];
    all.sort();
    assert_eq!(pending, all);
}

#[test]
fn resolving_an_unknown_conflict_fails() {
    let mut cm = ConflictManager::new();
    assert!(!cm.resolve("nope", ConflictResolution::Overwrite));
}

fn facts(src_size: u64, src_modified: u64, dest_size: u64, dest_modified: u64) -> ConflictFacts {
    ConflictFacts { src_size, src_modified, dest_size, dest_modified }
}

#[test]
fn smart_overwrite_rules() {
    let newer = facts(10, 200, 10, 100);
    let older = facts(10, 100, 10, 200);
    let same = facts(10, 100, 10, 100);
    let bigger = facts(11, 100, 10, 100);
    assert_eq!(answer_decision(ConflictResolution::OverwriteOlder, newer), ConflictResolution::Overwrite);
    assert_eq!(answer_decision(ConflictResolution::OverwriteOlder, older), ConflictResolution::Skip);
    assert_eq!(answer_decision(ConflictResolution::OverwriteOlder, same), ConflictResolution::Skip);
    assert_eq!(answer_decision(ConflictResolution::SkipSameSizeDate, same), ConflictResolution::Skip);
    assert_eq!(answer_decision(ConflictResolution::SkipSameSizeDate, bigger), ConflictResolution::Overwrite);
    assert_eq!(answer_decision(ConflictResolution::RenameAll, same), ConflictResolution::RenameAll);
    assert_eq!(job_wide_decision(ConflictResolution::OverwriteOlderAll, older), Some(ConflictResolution::Skip));
    assert_eq!(job_wide_decision(ConflictResolution::SkipSameSizeDateAll, newer), Some(ConflictResolution::Overwrite));
    assert_eq!(job_wide_decision(ConflictResolution::RenameAll, same), Some(ConflictResolution::Rename));
    assert_eq!(job_wide_decision(ConflictResolution::SkipAll, same), Some(ConflictResolution::Skip));
    assert_eq!(job_wide_decision(ConflictResolution::OverwriteAll, same), Some(ConflictResolution::Overwrite));
    assert_eq!(job_wide_decision(ConflictResolution::Rename, same), None);
    assert_eq!(conflict_action(ConflictResolution::SkipAll), ConflictAction::Skip);
    assert_eq!(conflict_action(ConflictResolution::RenameAll), ConflictAction::Rename);
    assert_eq!(conflict_action(ConflictResolution::OverwriteOlder), ConflictAction::Overwrite);
}

#[test]
fn rename_candidates() {
    assert_eq!(rename_candidate("report", "txt", 1), "report (1).txt");
    assert_eq!(rename_candidate("report", "", 12), "report (12)");
    assert_eq!(rename_candidate("a.b", "tar", 3), "a.b (3).tar");
}

#[test]
fn test_conflict_interactive_resolution() {
    let rt = tokio::runtime::Runtime::new().unwrap();
    rt.block_on(async {
        let cm = Arc::new(Mutex::new(ConflictManager::new()));
        let job_id = "job-456".to_string();
        let file_path = "collision.txt".to_string();

        let cm_clone = Arc::clone(&cm);
        let answerer = tokio::spawn(async move {
            tokio::time::sleep(std::time::Duration::from_millis(50)).await;
            let conflict_id = cm_clone.lock().unwrap().pending_ids()[0].clone();
            let resolved = cm_clone
                .lock()
                .unwrap()
                .resolve(&conflict_id, ConflictResolution::Rename);
            assert!(resolved);
        });

        let start = cm.lock().unwrap().begin_ask(&job_id, 0xfeed_beef);
        let conflict_id = wait_id(start);
        // The question shows the file and both sizes and times.
        let info = copytej::engine::conflict::ConflictInfo {
            conflict_id,
            job_id: job_id.clone(),
            file_path,
            src_size: 100,
            src_modified: 0,
            dest_size: 200,
            dest_modified: 0,
        };
        let res = loop {
            let got = cm.lock().unwrap().finish_ask(job_id.clone(), &info.conflict_id);
            if let Some(answer) = got {
                break answer;
            }
            tokio::time::sleep(std::time::Duration::from_millis(5)).await;
        };
        answerer.await.unwrap();
        assert_eq!(res, ConflictResolution::Rename);
    });
}
