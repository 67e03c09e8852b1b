use starfish::cfg::{Config, Publish};
use starfish::command::audit_line;
use starfish::revision::is_commit_hash;
use starfish::status::BuildStatus;
use starfish::store::{BuildStore, TaskOp};
use starfish::worker::{
    channels, handle_notification, parse_channel, unfinished_builds, BuildTask, Channel, Event,
    Step,
};

const RESOLVED: &str = "abcdabcdabcdabcdabcdabcdabcdabcdabcdabcd";

fn test_config(platforms: &[&str], publish: Publish) -> Config {
    Config {
        build_shell: "/bin/bash".to_string(),
        git_ssh_key: None,
        builders: vec!["ssh://builder1 x86_64-linux".to_string(), "ssh://builder2".to_string()],
        target_platforms: platforms.iter().map(|p| p.to_string()).collect(),
        log_path: "/var/log/builds".to_string(),
        scm_path: "/var/cache/scm".to_string(),
        publish,
        database_url: "postgres://localhost/builds".to_string(),
    }
}

struct Run {
    status: BuildStatus,
    commands: Vec<String>,
    hook_text: String,
    conf_text: String,
}

/// Drives one build task to completion against the store, answering
/// each step the way a healthy runner would, except that `fail_realize`
/// makes every realize invocation exit non-zero.
fn drive(store: &mut BuildStore, cfg: &Config, id: i32, fail_realize: bool) -> Run {
    let started = BuildTask::start(store, id, cfg, 1000, 2000).expect("build exists");
    let mut commands = Vec::new();
    let mut hook_text = String::new();
    let mut conf_text = String::new();
    let mut cur = started;
    loop {
        let (task, step) = cur;
        let ev = match step {
            Step::CheckRepo { .. } => Event::RepoChecked(false),
            Step::Exec(cmd) => {
                commands.push(audit_line(&cmd));
                Event::ExitOk(true)
            }
            Step::Capture(cmd) => {
                commands.push(audit_line(&cmd));
                if cmd.program == "git" {
                    Event::CmdOutput { ok: true, stdout: format!("{RESOLVED}\n") }
                } else if fail_realize {
                    Event::CmdOutput { ok: false, stdout: String::new() }
                } else {
                    Event::CmdOutput { ok: true, stdout: "/nix/store/abc-result \n".to_string() }
                }
            }
            Step::Setup => Event::Ready {
                home: "/tmp/conf".to_string(),
                signing_key_path: "/tmp/signing-key".to_string(),
            },
            Step::WriteFiles { hook_text: h, conf_text: c, .. } => {
                hook_text = h;
                conf_text = c;
                Event::Written
            }
            Step::Note(_) => Event::Noted,
            Step::Store(op) => {
                let applied = match op {
                    TaskOp::SetRev { id, rev } => store.set_rev(id, rev),
                    TaskOp::InsertOutput { input_id, system, store_path } => {
                        store.insert_output(input_id, system, store_path)
                    }
                    TaskOp::FinishBuild { id, status, now, error_msg } => {
                        store.finish_build(id, status, now, error_msg)
                    }
                };
                Event::Saved(applied)
            }
            Step::Halt { status } => {
                return Run { status, commands, hook_text, conf_text };
            }
        };
        cur = task.step(ev, 500);
    }
}

#[test]
fn successful_build_realizes_each_input_per_platform() {
    let cfg = test_config(&["x86_64-linux"], Publish::Disabled);
    let mut store = BuildStore::new();
    let id = store.submit_build(
        "https://example.com/r.git".to_string(),
        "main".to_string(),
        "default.nix",
        100,
    );
    let run = drive(&mut store, &cfg, id, false);
    assert!(matches!(run.status, BuildStatus::Succeeded));
    assert!(matches!(store.builds[0].status, BuildStatus::Succeeded));
    assert_eq!(store.builds[0].rev, RESOLVED);
    assert!(store.builds[0].finished_at.is_some());
    assert_eq!(store.outputs.len(), 1);
    assert_eq!(store.outputs[0].input_id, store.inputs[0].id);
    assert_eq!(store.outputs[0].system, "x86_64-linux");
    assert_eq!(store.outputs[0].store_path, "/nix/store/abc-result");
    assert!(run
        .commands
        .contains(&"$ nix-build default.nix --argstr system x86_64-linux --keep-going".to_string()));
    assert!(run.commands.contains(&"$ git fetch origin".to_string()));
    assert!(run.commands.contains(&"$ git prune".to_string()));
    assert!(run.commands.contains(&"$ echo Success!".to_string()));
}

#[test]
fn stored_revision_is_canonical_after_success() {
    let cfg = test_config(&["x86_64-linux"], Publish::Disabled);
    let mut store = BuildStore::new();
    let id =
        store.submit_build("o".to_string(), "main".to_string(), "default.nix", 1);
    drive(&mut store, &cfg, id, false);
    assert!(is_commit_hash(store.builds[0].rev.as_str()));
    assert_eq!(store.builds[0].rev.len(), 40);
}

#[test]
fn hash_revision_is_fetched_directly_and_kept() {
    let cfg = test_config(&["x86_64-linux"], Publish::Disabled);
    let mut store = BuildStore::new();
    let id = store.submit_build("o".to_string(), RESOLVED.to_string(), "default.nix", 1);
    let run = drive(&mut store, &cfg, id, false);
    assert!(matches!(run.status, BuildStatus::Succeeded));
    assert_eq!(store.builds[0].rev, RESOLVED);
    assert!(run.commands.contains(&format!("$ git fetch origin {RESOLVED}")));
    // No symbolic resolution ran.
    assert!(!run.commands.iter().any(|c| c.starts_with("$ git rev-parse")));
}

#[test]
fn two_platforms_give_two_outputs_per_input() {
    let cfg = test_config(&["x86_64-linux", "x86_64-darwin"], Publish::Disabled);
    let mut store = BuildStore::new();
    let id = store.submit_build("o".to_string(), "main".to_string(), "a.nix,b.nix", 1);
    let run = drive(&mut store, &cfg, id, false);
    assert!(matches!(run.status, BuildStatus::Succeeded));
    assert_eq!(store.outputs.len(), 4);
    let systems: Vec<&str> = store.outputs.iter().map(|o| o.system.as_str()).collect();
    assert_eq!(systems, vec!["x86_64-linux", "x86_64-darwin", "x86_64-linux", "x86_64-darwin"]);
}

#[test]
fn shell_inputs_run_under_the_shell_realizer() {
    let cfg = test_config(&["x86_64-linux"], Publish::Disabled);
    let mut store = BuildStore::new();
    let id = store.submit_build("o".to_string(), "main".to_string(), "shell.nix", 1);
    let run = drive(&mut store, &cfg, id, false);
    assert!(run.commands.contains(
        &"$ nix-shell shell.nix --run echo $out --argstr system x86_64-linux --keep-going"
            .to_string()
    ));
}

#[test]
fn failed_realize_fails_the_build_and_leaves_no_outputs() {
    let cfg = test_config(&["x86_64-linux"], Publish::Disabled);
    let mut store = BuildStore::new();
    let id = store.submit_build("o".to_string(), "main".to_string(), "default.nix", 1);
    let run = drive(&mut store, &cfg, id, true);
    assert!(matches!(run.status, BuildStatus::Failed));
    assert!(matches!(store.builds[0].status, BuildStatus::Failed));
    assert_eq!(store.outputs.len(), 0);
    // Terminal transitions record the finish time.
    assert!(store.builds[0].finished_at.is_some());
}

#[test]
fn failed_build_still_destroys_its_worktree() {
    let cfg = test_config(&["x86_64-linux"], Publish::Disabled);
    let mut store = BuildStore::new();
    let id = store.submit_build("o".to_string(), "main".to_string(), "default.nix", 1);
    let run = drive(&mut store, &cfg, id, true);
    assert!(matches!(run.status, BuildStatus::Failed));
    // The realize failed, and the worktree was removed afterwards all
    // the same: both the tagged worktree and its directory.
    let realize_at = run
        .commands
        .iter()
        .position(|c| c.starts_with("$ nix-build"))
        .expect("a realize ran");
    let tag = format!("__starfish_build_{id}");
    let removed_at = run
        .commands
        .iter()
        .rposition(|c| *c == format!("$ git worktree remove --force {tag}"))
        .expect("the worktree was removed");
    assert!(removed_at > realize_at);
    let wiped_at = run
        .commands
        .iter()
        .rposition(|c| c.starts_with("$ rm -rf"))
        .expect("the worktree directory was wiped");
    assert!(wiped_at > removed_at);
    // Nothing beyond the cleanup ran: no success marker.
    assert!(!run.commands.contains(&"$ echo Success!".to_string()));
}

#[test]
fn restart_while_building_replaces_the_task() {
    let cfg = test_config(&["x86_64-linux"], Publish::Disabled);
    let mut store = BuildStore::new();
    let id = store.submit_build("o".to_string(), "main".to_string(), "default.nix", 1);
    drive(&mut store, &cfg, id, false);
    assert_eq!(store.outputs.len(), 1);

    let actions = handle_notification(&mut store, Channel::Restarted, id, 10);
    assert!(actions.truncate_log && actions.abort_task && actions.start_task);
    assert_eq!(store.outputs.len(), 0);

    let run = drive(&mut store, &cfg, id, false);
    assert!(matches!(run.status, BuildStatus::Succeeded));
    assert_eq!(store.outputs.len(), 1);
}

#[test]
fn configuration_files_are_rendered_for_the_build() {
    let cfg = test_config(&["x86_64-linux"], Publish::Disabled);
    let mut store = BuildStore::new();
    let id = store.submit_build("o".to_string(), "main".to_string(), "default.nix", 1);
    let run = drive(&mut store, &cfg, id, false);
    assert_eq!(run.hook_text, "#!/bin/sh\nexit 0\n");
    assert_eq!(
        run.conf_text,
        "min-free = 1000\nmax-free = 2000\nbuilders = ssh://builder1 x86_64-linux; ssh://builder2\npost-build-hook = /tmp/conf/post-build.sh\n"
    );
}

#[test]
fn s3_publication_writes_the_upload_hook() {
    let publish = Publish::S3 {
        bucket: "cache-bucket".to_string(),
        region: "us-east-2".to_string(),
        access_key: "AKEXAMPLE".to_string(),
        secret_key: "secret".to_string(),
        nix_signing_key: "signing".to_string(),
    };
    let cfg = test_config(&["x86_64-linux"], publish);
    let mut store = BuildStore::new();
    let id = store.submit_build("o".to_string(), "main".to_string(), "default.nix", 1);
    let run = drive(&mut store, &cfg, id, false);
    assert_eq!(
        run.hook_text,
        "#!/bin/sh\nset -eu\nexport AWS_ACCESS_KEY_ID='AKEXAMPLE'\nexport AWS_SECRET_ACCESS_KEY='secret'\nexec nix copy --to 's3://cache-bucket?region=us-east-2&secret-key=/tmp/signing-key&write-nar-listing=1&ls-compression=br&log-compression=br&parallel-compression=1' $OUT_PATHS\n"
    );
}

#[test]
fn startup_resumes_only_unfinished_builds() {
    let mut store = BuildStore::new();
    let a = store.submit_build("o".to_string(), "main".to_string(), "a.nix", 1);
    let b = store.submit_build("o".to_string(), "main".to_string(), "b.nix", 2);
    let c = store.submit_build("o".to_string(), "main".to_string(), "c.nix", 3);
    store.begin_build(b);
    store.begin_build(c);
    store.finish_build(c, BuildStatus::Failed, 9, None);
    assert_eq!(unfinished_builds(&store), vec![a, b]);
}

#[test]
fn missing_build_starts_nothing() {
    let cfg = test_config(&["x86_64-linux"], Publish::Disabled);
    let mut store = BuildStore::new();
    assert!(BuildTask::start(&mut store, 77, &cfg, 1, 2).is_none());
}

#[test]
fn channel_names_round_trip() {
    let names = channels();
    assert_eq!(names, vec!["build_queued", "build_restarted", "build_canceled"]);
    assert_eq!(parse_channel("build_queued"), Some(Channel::Queued));
    assert_eq!(parse_channel("build_restarted"), Some(Channel::Restarted));
    assert_eq!(parse_channel("build_canceled"), Some(Channel::Canceled));
    assert_eq!(parse_channel("something_else"), None);
}
