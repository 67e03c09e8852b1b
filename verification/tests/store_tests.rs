use starfish::cfg::Publish;
use starfish::status::BuildStatus;
use starfish::store::BuildStore;
use starfish::worker::{handle_notification, Channel, HandleActions};

fn submit(store: &mut BuildStore, origin: &str, rev: &str, paths: &str, now: i64) -> i32 {
    store.submit_build(origin.to_string(), rev.to_string(), paths, now)
}

#[test]
fn submission_creates_queued_build() {
    let mut store = BuildStore::new();
    let id = submit(&mut store, "https://example.com/r.git", "main", "default.nix", 100);
    assert_eq!(id, 1);
    assert_eq!(store.builds.len(), 1);
    let b = &store.builds[0];
    assert_eq!(b.origin, "https://example.com/r.git");
    assert_eq!(b.rev, "main");
    assert_eq!(b.created_at, 100);
    assert!(matches!(b.status, BuildStatus::Queued));
    assert!(b.finished_at.is_none());
    assert!(b.error_msg.is_none());
    assert_eq!(store.inputs.len(), 1);
    assert_eq!(store.inputs[0].path, "default.nix");
    assert_eq!(store.inputs[0].build_id, id);
}

#[test]
fn submission_splits_trims_and_drops_empty_paths() {
    let mut store = BuildStore::new();
    let id = submit(&mut store, "o", "main", "a.nix, ,b.nix,", 1);
    let paths: Vec<&str> = store
        .inputs
        .iter()
        .filter(|i| i.build_id == id)
        .map(|i| i.path.as_str())
        .collect();
    assert_eq!(paths, vec!["a.nix", "b.nix"]);
}

#[test]
fn output_rows_are_unique_per_input_and_platform() {
    let mut store = BuildStore::new();
    let id = submit(&mut store, "o", "main", "default.nix", 1);
    store.begin_build(id);
    let input_id = store.inputs[0].id;
    let first = store.insert_output(input_id, "x86_64-linux".to_string(), "/nix/store/p1".to_string());
    assert!(first);
    let duplicate =
        store.insert_output(input_id, "x86_64-linux".to_string(), "/nix/store/p2".to_string());
    assert!(!duplicate);
    let other_platform =
        store.insert_output(input_id, "x86_64-darwin".to_string(), "/nix/store/p3".to_string());
    assert!(other_platform);
    assert_eq!(store.outputs.len(), 2);
    assert_eq!(store.outputs[0].store_path, "/nix/store/p1");
}

#[test]
fn terminal_builds_do_not_move_again() {
    let mut store = BuildStore::new();
    let id = submit(&mut store, "o", "main", "default.nix", 1);
    store.begin_build(id);
    let finished = store.finish_build(id, BuildStatus::Failed, 50, None);
    assert!(finished);
    assert!(matches!(store.builds[0].status, BuildStatus::Failed));
    assert_eq!(store.builds[0].finished_at, Some(50));

    // A task-driven write after the terminal transition changes nothing.
    let rev_applied = store.set_rev(id, "0123456789012345678901234567890123456789".to_string());
    assert!(!rev_applied);
    assert_eq!(store.builds[0].rev, "main");
    let refinished = store.finish_build(id, BuildStatus::Succeeded, 60, None);
    assert!(!refinished);
    assert!(matches!(store.builds[0].status, BuildStatus::Failed));
    assert_eq!(store.builds[0].finished_at, Some(50));
    let input_id = store.inputs[0].id;
    let inserted = store.insert_output(input_id, "s".to_string(), "/p".to_string());
    assert!(!inserted);
    assert_eq!(store.outputs.len(), 0);
}

#[test]
fn finish_time_is_recorded_with_the_terminal_status() {
    let mut store = BuildStore::new();
    let id = submit(&mut store, "o", "main", "default.nix", 1);
    store.begin_build(id);
    assert!(store.builds[0].finished_at.is_none());
    store.finish_build(id, BuildStatus::Succeeded, 77, None);
    assert_eq!(store.builds[0].finished_at, Some(77));
}

#[test]
fn error_message_only_accompanies_failure() {
    let mut store = BuildStore::new();
    let id = submit(&mut store, "o", "main", "default.nix", 1);
    store.begin_build(id);
    let wrong = store.finish_build(id, BuildStatus::Succeeded, 9, Some("boom".to_string()));
    assert!(!wrong);
    let right = store.finish_build(id, BuildStatus::Failed, 9, Some("boom".to_string()));
    assert!(right);
    assert_eq!(store.builds[0].error_msg.as_deref(), Some("boom"));
}

#[test]
fn restart_deletes_outputs_and_is_idempotent() {
    let mut store = BuildStore::new();
    let id = submit(&mut store, "o", "main", "a.nix,b.nix", 1);
    store.begin_build(id);
    let other = submit(&mut store, "o2", "main", "c.nix", 2);
    store.begin_build(other);
    for input in 0..2 {
        let input_id = store.inputs[input].id;
        store.insert_output(input_id, "x86_64-linux".to_string(), format!("/nix/store/{input}"));
    }
    let foreign_input = store.inputs[2].id;
    store.insert_output(foreign_input, "x86_64-linux".to_string(), "/nix/store/f".to_string());
    assert_eq!(store.outputs.len(), 3);

    let first = handle_notification(&mut store, Channel::Restarted, id, 10);
    assert_eq!(
        first,
        HandleActions { truncate_log: true, abort_task: true, remove_worktree: false, start_task: true }
    );
    assert_eq!(store.outputs.len(), 1);
    assert_eq!(store.outputs[0].input_id, foreign_input);
    let outputs_after_one = store.outputs.clone();

    let second = handle_notification(&mut store, Channel::Restarted, id, 11);
    assert_eq!(first, second);
    assert_eq!(store.outputs.len(), outputs_after_one.len());
    assert_eq!(store.outputs[0].input_id, foreign_input);
}

#[test]
fn cancellation_finishes_the_build_and_stops_the_task() {
    let mut store = BuildStore::new();
    let id = submit(&mut store, "o", "main", "default.nix", 1);
    store.begin_build(id);
    let actions = handle_notification(&mut store, Channel::Canceled, id, 42);
    assert_eq!(
        actions,
        HandleActions { truncate_log: false, abort_task: true, remove_worktree: true, start_task: false }
    );
    assert!(matches!(store.builds[0].status, BuildStatus::Canceled));
    assert_eq!(store.builds[0].finished_at, Some(42));
}

#[test]
fn queued_notification_only_starts_a_task() {
    let mut store = BuildStore::new();
    let id = submit(&mut store, "o", "main", "default.nix", 1);
    let actions = handle_notification(&mut store, Channel::Queued, id, 5);
    assert_eq!(
        actions,
        HandleActions { truncate_log: false, abort_task: false, remove_worktree: false, start_task: true }
    );
    assert!(matches!(store.builds[0].status, BuildStatus::Queued));
}

#[test]
fn grouping_collects_each_inputs_outputs_in_order() {
    let mut store = BuildStore::new();
    let id = submit(&mut store, "o", "main", "a.nix,b.nix", 1);
    store.begin_build(id);
    let a = store.inputs[0].id;
    let b = store.inputs[1].id;
    store.insert_output(a, "x86_64-linux".to_string(), "/nix/store/a-linux".to_string());
    store.insert_output(b, "x86_64-linux".to_string(), "/nix/store/b-linux".to_string());
    store.insert_output(a, "x86_64-darwin".to_string(), "/nix/store/a-darwin".to_string());
    let grouped = store.get_inputs_and_outputs(id);
    assert_eq!(grouped.len(), 2);
    assert_eq!(grouped[0].input.path, "a.nix");
    let a_paths: Vec<&str> = grouped[0].outputs.iter().map(|o| o.store_path.as_str()).collect();
    assert_eq!(a_paths, vec!["/nix/store/a-linux", "/nix/store/a-darwin"]);
    let b_paths: Vec<&str> = grouped[1].outputs.iter().map(|o| o.store_path.as_str()).collect();
    assert_eq!(b_paths, vec!["/nix/store/b-linux"]);
}

#[test]
fn latest_builds_come_newest_first_and_capped() {
    let mut store = BuildStore::new();
    for i in 0..12 {
        submit(&mut store, "o", "main", "default.nix", 100 + i);
    }
    let latest = store.latest_builds(10);
    assert_eq!(latest.len(), 10);
    let times: Vec<i64> = latest.iter().map(|b| b.created_at).collect();
    assert_eq!(times, vec![111, 110, 109, 108, 107, 106, 105, 104, 103, 102]);
    let few = store.latest_builds(100);
    assert_eq!(few.len(), 12);
}

#[test]
fn publish_clone_matches() {
    let p = Publish::S3 {
        bucket: "b".to_string(),
        region: "r".to_string(),
        access_key: "ak".to_string(),
        secret_key: "sk".to_string(),
        nix_signing_key: "nk".to_string(),
    };
    match p.clone() {
        Publish::S3 { bucket, .. } => assert_eq!(bucket, "b"),
        _ => panic!("wrong variant"),
    }
}
