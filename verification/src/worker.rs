use vstd::prelude::*;

use crate::cfg::Config;
use crate::cfg::Publish;
use crate::command::Cmd;
use crate::command::CmdView;
use crate::command::spec_git_init_bare;
use crate::command::spec_git_remote_add;
use crate::command::spec_git_fetch;
use crate::command::spec_git_fetch_rev;
use crate::command::spec_git_rev_parse;
use crate::command::spec_git_worktree_remove;
use crate::command::spec_git_worktree_add;
use crate::command::spec_git_prune;
use crate::command::spec_cat;
use crate::command::spec_chmod_exec;
use crate::command::spec_rm_rf;
use crate::command::spec_echo_success;
use crate::command::spec_realize;
use crate::command::spec_fake_audit_line;
use crate::command::git_init_bare;
use crate::command::git_remote_add;
use crate::command::git_fetch;
use crate::command::git_fetch_rev;
use crate::command::git_rev_parse;
use crate::command::git_worktree_remove;
use crate::command::git_worktree_add;
use crate::command::git_prune;
use crate::command::cat_file;
use crate::command::chmod_exec;
use crate::command::rm_rf;
use crate::command::echo_success;
use crate::command::realize_command;
use crate::command::fake_audit_line;
use crate::model::Build;
use crate::model::Input;
use crate::repo::spec_scm_repo_dir;
use crate::repo::spec_worktree_tag;
use crate::repo::scm_repo_dir;
use crate::repo::worktree_tag;
use crate::repo::join_path;
use crate::revision::spec_is_commit_hash;
use crate::revision::spec_resolved_of;
use crate::revision::is_commit_hash;
use crate::revision::resolved_rev;
use crate::scripts::spec_join;
use crate::scripts::spec_nix_conf;
use crate::scripts::spec_post_build_script;
use crate::scripts::join_builders;
use crate::scripts::nix_conf;
use crate::scripts::post_build_script;
use crate::status::BuildStatus;
use crate::store::BuildStore;
use crate::store::TaskOp;
use crate::store::spec_begin_build;
use crate::store::spec_begun;
use crate::store::spec_delete_outputs;
use crate::store::spec_input_of_build;
use crate::store::spec_task_step;
use crate::text::str_eq;
use crate::text::spec_trim_end;
use crate::text::trim_end;
use vstd::utf8::encode_utf8;

verus! {

/// The notification channels the worker listens on. The payload of each
/// is a decimal build id.
#[derive(Debug, Clone, Copy, PartialEq, Eq, Structural)]
pub enum Channel {
    Queued,
    Restarted,
    Canceled,
}

/// The channel names, in subscription order.
pub fn channels() -> (r: Vec<&'static str>)
    ensures
        r@.len() == 3,
        r@[0]@ == "build_queued"@,
        r@[1]@ == "build_restarted"@,
        r@[2]@ == "build_canceled"@,
{
    let mut r: Vec<&'static str> = Vec::new();
    r.push("build_queued");
    r.push("build_restarted");
    r.push("build_canceled");
    r
}

/// Maps a notification's channel name to the channel it names.
pub fn parse_channel(s: &str) -> (r: Option<Channel>)
    ensures
        r == (if s@ == "build_queued"@ {
            Option::Some(Channel::Queued)
        } else if s@ == "build_restarted"@ {
            Option::Some(Channel::Restarted)
        } else if s@ == "build_canceled"@ {
            Option::Some(Channel::Canceled)
        } else {
            Option::<Channel>::None
        }),
{
    if str_eq(s, "build_queued") {
        Some(Channel::Queued)
    } else if str_eq(s, "build_restarted") {
        Some(Channel::Restarted)
    } else if str_eq(s, "build_canceled") {
        Some(Channel::Canceled)
    } else {
        None
    }
}

/// What the runner must do around a notification, besides the store
/// changes already applied.
#[derive(Debug, Clone, Copy, PartialEq, Eq, Structural)]
pub struct HandleActions {
    /// Truncate the build's log file if it exists.
    pub truncate_log: bool,
    /// Abort and drop any in-flight task for this build id.
    pub abort_task: bool,
    /// Remove the build's worktree.
    pub remove_worktree: bool,
    /// Start a fresh build task for this id.
    pub start_task: bool,
}

/// Applies a notification to the store and says what else the runner
/// must do. A queued build starts a task; a restart deletes the build's
/// outputs, truncates its log and replaces any running task; a
/// cancellation aborts the task, removes the worktree and finishes the
/// build as canceled.
pub fn handle_notification(store: &mut BuildStore, channel: Channel, id: i32, now: i64) -> (r:
    HandleActions)
    requires
        old(store)@.wf(),
    ensures
        final(store)@.wf(),
        match channel {
            Channel::Queued => final(store)@ == old(store)@ && r == (HandleActions {
                truncate_log: false,
                abort_task: false,
                remove_worktree: false,
                start_task: true,
            }),
            Channel::Restarted => final(store)@ == spec_delete_outputs(old(store)@, id) && r == (
            HandleActions {
                truncate_log: true,
                abort_task: true,
                remove_worktree: false,
                start_task: true,
            }),
            Channel::Canceled => final(store)@ == spec_task_step(
                old(store)@,
                (TaskOp::FinishBuild {
                    id: id,
                    status: BuildStatus::Canceled,
                    now: now,
                    error_msg: Option::None,
                }),
            ) && r == (HandleActions {
                truncate_log: false,
                abort_task: true,
                remove_worktree: true,
                start_task: false,
            }),
        },
{
    match channel {
        Channel::Queued => HandleActions {
            truncate_log: false,
            abort_task: false,
            remove_worktree: false,
            start_task: true,
        },
        Channel::Restarted => {
            store.delete_outputs_of_build(id);
            HandleActions {
                truncate_log: true,
                abort_task: true,
                remove_worktree: false,
                start_task: true,
            }
        },
        Channel::Canceled => {
            store.finish_build(id, BuildStatus::Canceled, now, None);
            HandleActions {
                truncate_log: false,
                abort_task: true,
                remove_worktree: true,
                start_task: false,
            }
        },
    }
}

/// Whether a build has not finished: it was never picked up or is still
/// in flight.
pub open spec fn spec_is_pending(st: BuildStatus) -> bool {
    st == BuildStatus::Queued || st == BuildStatus::Building || st == BuildStatus::Uploading
}

/// The ids of the pending builds, in table order.
pub open spec fn spec_pending_ids(builds: Seq<Build>) -> Seq<i32>
    decreases builds.len(),
{
    if builds.len() == 0 {
        Seq::empty()
    } else {
        spec_pending_ids(builds.drop_last()) + (if spec_is_pending(builds.last().status) {
            seq![builds.last().id]
        } else {
            Seq::empty()
        })
    }
}

/// The builds to resume at startup, before subscribing: every build
/// whose status is not terminal is treated as if it had just been
/// restarted. A build that died mid-flight is re-driven here too, which
/// discards its existing outputs; that is accepted.
pub fn unfinished_builds(store: &BuildStore) -> (r: Vec<i32>)
    ensures
        r@ == spec_pending_ids(store@.builds),
{
    let n = store.builds.len();
    let mut r: Vec<i32> = Vec::new();
    let mut i: usize = 0;
    proof {
        assert(store@.builds.take(0) =~= Seq::<Build>::empty());
        assert(r@ =~= spec_pending_ids(store@.builds.take(0)));
    }
    while i < n
        invariant
            n == store@.builds.len(),
            0 <= i <= n,
            r@ == spec_pending_ids(store@.builds.take(i as int)),
        decreases n - i,
    {
        proof {
            assert(store@.builds.take(i + 1).drop_last() =~= store@.builds.take(i as int));
            assert(store@.builds.take(i + 1).last() == store@.builds[i as int]);
        }
        let pending = match store.builds[i].status {
            BuildStatus::Queued => true,
            BuildStatus::Building => true,
            BuildStatus::Uploading => true,
            _ => false,
        };
        if pending {
            r.push(store.builds[i].id);
            proof {
                assert(r@ =~= spec_pending_ids(store@.builds.take(i + 1)));
            }
        } else {
            proof {
                assert(r@ =~= spec_pending_ids(store@.builds.take(i + 1)));
            }
        }
        i = i + 1;
    }
    proof {
        assert(store@.builds.take(n as int) =~= store@.builds);
    }
    r
}

/// Where a build task stands: which reply it waits for next.
#[derive(Debug, Clone, Copy, PartialEq, Eq, Structural)]
pub enum Phase {
    /// Waiting to learn whether the origin's bare repository exists.
    ProbeRepo,
    /// `git init --bare` runs; its status is not checked.
    InitRepo,
    /// `git remote add origin -- <url>` runs; failure fails the build.
    AddRemote,
    /// `git fetch origin` runs; failure fails the build.
    Fetch,
    /// The revision is already a commit hash; `git fetch origin <rev>`
    /// runs; failure fails the build.
    FetchRev,
    /// The revision is symbolic; `git rev-parse` resolves it; failure
    /// fails the build.
    RevParse,
    /// The resolved revision is being persisted.
    SaveRev,
    /// A stale worktree with this build's tag is removed; the result is
    /// not checked.
    RemoveStale,
    /// `git worktree add` runs; failure fails the build.
    AddWorktree,
    /// `git prune` runs; failure fails the build.
    Prune,
    /// The runner creates the scoped configuration home and, with S3
    /// publication, the signing key file.
    SettingUp,
    /// The runner writes the post-build hook and the configuration.
    Writing,
    /// The configuration is echoed into the log; result unchecked.
    ShowConf,
    /// The home override is noted in the log.
    MarkHome,
    /// The hook is made executable; result unchecked.
    ChmodHook,
    /// One realize invocation runs for the indexed input and platform;
    /// failure fails the build.
    Realize { input_ix: usize, platform_ix: usize },
    /// The realized store path is being persisted.
    SaveOutput { input_ix: usize, platform_ix: usize },
    /// The worktree is removed after the builds; failure fails the
    /// build, after the defensive directory removal still runs.
    RemoveWorktree,
    /// The worktree directory is removed defensively; failure fails the
    /// build.
    RemoveDir,
    /// A command failed while the worktree stood: it is removed before
    /// the failure is recorded; the result is not checked.
    FailRemoveWorktree,
    /// The worktree directory of a failing build is removed
    /// defensively; the result is not checked.
    FailRemoveDir,
    /// A success marker is echoed into the log; result unchecked.
    LogSuccess,
    /// The terminal status is being persisted.
    Finishing { status: BuildStatus },
    /// The task is over; no further effect is produced.
    Done { status: BuildStatus },
}

/// What the runner reports back to the task.
pub enum Event {
    /// A command run to completion; whether it exited successfully.
    ExitOk(bool),
    /// A command run with captured standard output.
    CmdOutput { ok: bool, stdout: String },
    /// A store write was attempted; whether it was applied.
    Saved(bool),
    /// The repository probe: whether the bare repository directory
    /// exists.
    RepoChecked(bool),
    /// The scoped home is ready; with S3 publication the signing key
    /// file too.
    Ready { home: String, signing_key_path: String },
    /// The hook and configuration files are written.
    Written,
    /// The log note was appended.
    Noted,
}

/// What the runner must do next for the task.
pub enum Step {
    /// Check whether the directory exists; reply `RepoChecked`.
    CheckRepo { dir: String },
    /// Run the command with both streams tee'd to the log; reply
    /// `ExitOk`.
    Exec(Cmd),
    /// Run the command with stderr tee'd to the log and stdout captured
    /// and then appended to the log; reply `CmdOutput`.
    Capture(Cmd),
    /// Create the scoped configuration home (and the signing key file
    /// with S3 publication); reply `Ready`.
    Setup,
    /// Write the hook and configuration files, making their parents;
    /// reply `Written`.
    WriteFiles { hook_path: String, hook_text: String, conf_path: String, conf_text: String },
    /// Append this line to the log; reply `Noted`.
    Note(String),
    /// Apply this write to the store; reply `Saved`.
    Store(TaskOp),
    /// The task is over with this status; nothing further runs.
    Halt { status: BuildStatus },
}

/// One build task: the machinery that drives a single build through its
/// subprocesses and store writes. The runner performs each `Step` and
/// feeds the outcome back through `step`.
pub struct BuildTask {
    pub build: Build,
    pub inputs: Vec<Input>,
    pub platforms: Vec<String>,
    /// The configured builder list, pre-joined for the configuration.
    pub builders: String,
    pub build_shell: String,
    pub ssh_cmd: String,
    pub publish: Publish,
    pub scm_dir: String,
    pub build_tag: String,
    pub min_free: u64,
    pub max_free: u64,
    /// The scoped configuration home; empty until `SettingUp` is over.
    pub home: String,
    pub hook_path: String,
    pub conf_path: String,
    pub phase: Phase,
}

impl BuildTask {
    /// Cursor bounds: a realize phase always points at a real input and
    /// platform.
    pub open spec fn wf(self) -> bool {
        match self.phase {
            Phase::Realize { input_ix, platform_ix } => input_ix < self.inputs@.len()
                && platform_ix < self.platforms@.len(),
            Phase::SaveOutput { input_ix, platform_ix } => input_ix < self.inputs@.len()
                && platform_ix < self.platforms@.len(),
            _ => true,
        }
    }

    /// Whether the task is past revision resolution on its way to
    /// success. A failure can strike before resolution, so a failing or
    /// failed task is not counted.
    pub open spec fn resolved_phase(self) -> bool {
        match self.phase {
            Phase::ProbeRepo => false,
            Phase::InitRepo => false,
            Phase::AddRemote => false,
            Phase::Fetch => false,
            Phase::RevParse => false,
            Phase::Finishing { status } => status == BuildStatus::Succeeded,
            Phase::Done { status } => status == BuildStatus::Succeeded,
            _ => true,
        }
    }

    /// Revision canonicalization, as an invariant: past resolution, the
    /// build's revision is a 40-digit commit hash.
    pub open spec fn rev_canonical(self) -> bool {
        self.resolved_phase() ==> spec_is_commit_hash(self.build.rev@)
    }

    /// The worktree directory the build is checked out into.
    pub open spec fn spec_worktree_dir(self) -> Seq<char> {
        self.scm_dir@ + seq!['/'] + self.build_tag@
    }
}

/// Which reply shape a phase waits for.
pub open spec fn spec_event_matches(phase: Phase, ev: Event) -> bool {
    match phase {
        Phase::ProbeRepo => ev is RepoChecked,
        Phase::InitRepo => ev is ExitOk,
        Phase::AddRemote => ev is ExitOk,
        Phase::Fetch => ev is ExitOk,
        Phase::FetchRev => ev is ExitOk,
        Phase::RevParse => ev is CmdOutput,
        Phase::SaveRev => ev is Saved,
        Phase::RemoveStale => ev is ExitOk,
        Phase::AddWorktree => ev is ExitOk,
        Phase::Prune => ev is ExitOk,
        Phase::SettingUp => ev is Ready,
        Phase::Writing => ev is Written,
        Phase::ShowConf => ev is ExitOk,
        Phase::MarkHome => ev is Noted,
        Phase::ChmodHook => ev is ExitOk,
        Phase::Realize { .. } => ev is CmdOutput,
        Phase::SaveOutput { .. } => ev is Saved,
        Phase::RemoveWorktree => ev is ExitOk,
        Phase::RemoveDir => ev is ExitOk,
        Phase::FailRemoveWorktree => ev is ExitOk,
        Phase::FailRemoveDir => ev is ExitOk,
        Phase::LogSuccess => ev is ExitOk,
        Phase::Finishing { .. } => ev is Saved,
        Phase::Done { .. } => true,
    }
}

/// If the task resolves the revision in this step, the resolver printed
/// a commit hash. This is what `git rev-parse` prints on success; a
/// resolver that printed anything else would leave a non-canonical
/// revision behind, exactly as the stored output dictates.
pub open spec fn spec_rev_event_ok(t: BuildTask, ev: Event) -> bool {
    t.phase is RevParse ==> match ev {
        Event::CmdOutput { ok, stdout } => ok ==> spec_is_commit_hash(spec_resolved_of(stdout@)),
        _ => true,
    }
}

/// The fields `step` never changes.
pub open spec fn spec_frame(pre: BuildTask, post: BuildTask) -> bool {
    &&& post.inputs == pre.inputs
    &&& post.platforms == pre.platforms
    &&& post.builders == pre.builders
    &&& post.build_shell == pre.build_shell
    &&& post.ssh_cmd == pre.ssh_cmd
    &&& post.publish == pre.publish
    &&& post.scm_dir == pre.scm_dir
    &&& post.build_tag == pre.build_tag
    &&& post.min_free == pre.min_free
    &&& post.max_free == pre.max_free
}

/// The fields only `SettingUp` changes.
pub open spec fn spec_keeps(pre: BuildTask, post: BuildTask) -> bool {
    &&& post.build == pre.build
    &&& post.home == pre.home
    &&& post.hook_path == pre.hook_path
    &&& post.conf_path == pre.conf_path
}

pub open spec fn spec_emits_exec(act: Step, c: CmdView) -> bool {
    match act {
        Step::Exec(cmd) => cmd@ == c,
        _ => false,
    }
}

pub open spec fn spec_emits_capture(act: Step, c: CmdView) -> bool {
    match act {
        Step::Capture(cmd) => cmd@ == c,
        _ => false,
    }
}

/// A command failed while the worktree stood: the worktree is destroyed
/// before the failure is recorded, as it is on every exit from the
/// build.
pub open spec fn spec_fail_cleanup(pre: BuildTask, post: BuildTask, act: Step) -> bool {
    &&& spec_keeps(pre, post)
    &&& post.phase == Phase::FailRemoveWorktree
    &&& spec_emits_exec(act, spec_git_worktree_remove(pre.scm_dir@, pre.build_tag@))
}

/// The build is failed: its finish time is recorded, with no error
/// message beyond the log trail. Reached directly where no worktree
/// exists yet, and after the cleanup where one did.
pub open spec fn spec_failed(pre: BuildTask, now: i64, post: BuildTask, act: Step) -> bool {
    &&& spec_keeps(pre, post)
    &&& post.phase == (Phase::Finishing { status: BuildStatus::Failed })
    &&& act == Step::Store(
        TaskOp::FinishBuild {
            id: pre.build.id,
            status: BuildStatus::Failed,
            now: now,
            error_msg: Option::None,
        },
    )
}

/// The cursor advance of the realize loop: the next (input, platform)
/// pair, or the cleanup once every pair is realized.
pub open spec fn spec_advance(
    pre: BuildTask,
    post: BuildTask,
    act: Step,
    input_ix: int,
    platform_ix: int,
) -> bool {
    if input_ix < pre.inputs@.len() && platform_ix < pre.platforms@.len() {
        &&& post.phase == (Phase::Realize {
            input_ix: input_ix as usize,
            platform_ix: platform_ix as usize,
        })
        &&& spec_emits_capture(
            act,
            spec_realize(
                pre.inputs@[input_ix].path@,
                pre.platforms@[platform_ix]@,
                pre.spec_worktree_dir(),
                pre.build_shell@,
                pre.ssh_cmd@,
                pre.home@,
            ),
        )
    } else {
        &&& post.phase == Phase::RemoveWorktree
        &&& spec_emits_exec(act, spec_git_worktree_remove(pre.scm_dir@, pre.build_tag@))
    }
}

/// The full transition relation of a build task: for each phase and
/// reply, the next phase and the step handed back to the runner.
pub open spec fn spec_step_ok(
    pre: BuildTask,
    ev: Event,
    now: i64,
    post: BuildTask,
    act: Step,
) -> bool {
    &&& spec_frame(pre, post)
    &&& match pre.phase {
        Phase::ProbeRepo => match ev {
            Event::RepoChecked(true) => spec_keeps(pre, post) && post.phase == Phase::Fetch
                && spec_emits_exec(act, spec_git_fetch(pre.scm_dir@, pre.ssh_cmd@)),
            Event::RepoChecked(false) => spec_keeps(pre, post) && post.phase == Phase::InitRepo
                && spec_emits_exec(act, spec_git_init_bare(pre.scm_dir@)),
            _ => true,
        },
        Phase::InitRepo => spec_keeps(pre, post) && post.phase == Phase::AddRemote
            && spec_emits_exec(act, spec_git_remote_add(pre.scm_dir@, pre.build.origin@)),
        Phase::AddRemote => match ev {
            Event::ExitOk(true) => spec_keeps(pre, post) && post.phase == Phase::Fetch
                && spec_emits_exec(act, spec_git_fetch(pre.scm_dir@, pre.ssh_cmd@)),
            Event::ExitOk(false) => spec_failed(pre, now, post, act),
            _ => true,
        },
        Phase::Fetch => match ev {
            Event::ExitOk(true) => spec_keeps(pre, post) && (if spec_is_commit_hash(
                pre.build.rev@,
            ) {
                post.phase == Phase::FetchRev && spec_emits_exec(
                    act,
                    spec_git_fetch_rev(pre.scm_dir@, pre.ssh_cmd@, pre.build.rev@),
                )
            } else {
                post.phase == Phase::RevParse && spec_emits_capture(
                    act,
                    spec_git_rev_parse(pre.scm_dir@, pre.build.rev@),
                )
            }),
            Event::ExitOk(false) => spec_failed(pre, now, post, act),
            _ => true,
        },
        Phase::FetchRev => match ev {
            Event::ExitOk(true) => spec_keeps(pre, post) && post.phase == Phase::RemoveStale
                && spec_emits_exec(act, spec_git_worktree_remove(pre.scm_dir@, pre.build_tag@)),
            Event::ExitOk(false) => spec_failed(pre, now, post, act),
            _ => true,
        },
        Phase::RevParse => match ev {
            Event::CmdOutput { ok: true, stdout } => {
                let res = spec_resolved_of(stdout@);
                if res != pre.build.rev@ {
                    &&& post.build.id == pre.build.id
                    &&& post.build.origin == pre.build.origin
                    &&& post.build.rev@ == res
                    &&& post.build.created_at == pre.build.created_at
                    &&& post.build.status == pre.build.status
                    &&& post.build.finished_at == pre.build.finished_at
                    &&& post.build.error_msg == pre.build.error_msg
                    &&& post.home == pre.home
                    &&& post.hook_path == pre.hook_path
                    &&& post.conf_path == pre.conf_path
                    &&& post.phase == Phase::SaveRev
                    &&& match act {
                        Step::Store(TaskOp::SetRev { id, rev }) => id == pre.build.id && rev@
                            == res,
                        _ => false,
                    }
                } else {
                    &&& spec_keeps(pre, post)
                    &&& post.phase == Phase::RemoveStale
                    &&& spec_emits_exec(
                        act,
                        spec_git_worktree_remove(pre.scm_dir@, pre.build_tag@),
                    )
                }
            },
            Event::CmdOutput { ok: false, stdout } => spec_failed(pre, now, post, act),
            _ => true,
        },
        Phase::SaveRev => spec_keeps(pre, post) && post.phase == Phase::RemoveStale
            && spec_emits_exec(act, spec_git_worktree_remove(pre.scm_dir@, pre.build_tag@)),
        Phase::RemoveStale => spec_keeps(pre, post) && post.phase == Phase::AddWorktree
            && spec_emits_exec(
            act,
            spec_git_worktree_add(pre.scm_dir@, pre.build_tag@, pre.build.rev@),
        ),
        Phase::AddWorktree => match ev {
            Event::ExitOk(true) => spec_keeps(pre, post) && post.phase == Phase::Prune
                && spec_emits_exec(act, spec_git_prune(pre.scm_dir@)),
            Event::ExitOk(false) => spec_failed(pre, now, post, act),
            _ => true,
        },
        Phase::Prune => match ev {
            Event::ExitOk(true) => spec_keeps(pre, post) && post.phase == Phase::SettingUp && act
                is Setup,
            Event::ExitOk(false) => spec_fail_cleanup(pre, post, act),
            _ => true,
        },
        Phase::SettingUp => match ev {
            Event::Ready { home, signing_key_path } => {
                &&& post.build == pre.build
                &&& post.home == home
                &&& post.hook_path@ == home@ + seq!['/'] + "post-build.sh"@
                &&& post.conf_path@ == home@ + seq!['/'] + "nix/nix.conf"@
                &&& post.phase == Phase::Writing
                &&& match act {
                    Step::WriteFiles { hook_path, hook_text, conf_path, conf_text } => {
                        &&& hook_path@ == post.hook_path@
                        &&& conf_path@ == post.conf_path@
                        &&& hook_text@ == spec_post_build_script(pre.publish, signing_key_path@)
                        &&& conf_text@ == spec_nix_conf(
                            pre.min_free as int,
                            pre.max_free as int,
                            pre.builders@,
                            post.hook_path@,
                        )
                    },
                    _ => false,
                }
            },
            _ => true,
        },
        Phase::Writing => spec_keeps(pre, post) && post.phase == Phase::ShowConf
            && spec_emits_exec(act, spec_cat(pre.conf_path@)),
        Phase::ShowConf => spec_keeps(pre, post) && post.phase == Phase::MarkHome && match act {
            Step::Note(line) => line@ == spec_fake_audit_line("export HOME="@ + pre.home@),
            _ => false,
        },
        Phase::MarkHome => spec_keeps(pre, post) && post.phase == Phase::ChmodHook
            && spec_emits_exec(act, spec_chmod_exec(pre.hook_path@)),
        Phase::ChmodHook => spec_keeps(pre, post) && spec_advance(pre, post, act, 0, 0),
        Phase::Realize { input_ix, platform_ix } => match ev {
            Event::CmdOutput { ok: true, stdout } => {
                &&& spec_keeps(pre, post)
                &&& post.phase == (Phase::SaveOutput { input_ix, platform_ix })
                &&& match act {
                    Step::Store(TaskOp::InsertOutput { input_id, system, store_path }) => {
                        &&& input_id == pre.inputs@[input_ix as int].id
                        &&& system@ == pre.platforms@[platform_ix as int]@
                        &&& store_path@ == spec_trim_end(stdout@)
                    },
                    _ => false,
                }
            },
            Event::CmdOutput { ok: false, stdout } => spec_fail_cleanup(pre, post, act),
            _ => true,
        },
        Phase::SaveOutput { input_ix, platform_ix } => spec_keeps(pre, post) && (if platform_ix
            + 1 < pre.platforms@.len() {
            spec_advance(pre, post, act, input_ix as int, platform_ix + 1)
        } else {
            spec_advance(pre, post, act, input_ix + 1, 0)
        }),
        Phase::RemoveWorktree => match ev {
            Event::ExitOk(true) => spec_keeps(pre, post) && post.phase == Phase::RemoveDir
                && spec_emits_exec(act, spec_rm_rf(pre.spec_worktree_dir())),
            Event::ExitOk(false) => spec_keeps(pre, post) && post.phase == Phase::FailRemoveDir
                && spec_emits_exec(act, spec_rm_rf(pre.spec_worktree_dir())),
            _ => true,
        },
        Phase::RemoveDir => match ev {
            Event::ExitOk(true) => spec_keeps(pre, post) && post.phase == Phase::LogSuccess
                && spec_emits_exec(act, spec_echo_success()),
            Event::ExitOk(false) => spec_failed(pre, now, post, act),
            _ => true,
        },
        Phase::FailRemoveWorktree => spec_keeps(pre, post) && post.phase == Phase::FailRemoveDir
            && spec_emits_exec(act, spec_rm_rf(pre.spec_worktree_dir())),
        Phase::FailRemoveDir => spec_failed(pre, now, post, act),
        Phase::LogSuccess => {
            &&& spec_keeps(pre, post)
            &&& post.phase == (Phase::Finishing { status: BuildStatus::Succeeded })
            &&& act == Step::Store(
                TaskOp::FinishBuild {
                    id: pre.build.id,
                    status: BuildStatus::Succeeded,
                    now: now,
                    error_msg: Option::None,
                },
            )
        },
        Phase::Finishing { status } => spec_keeps(pre, post) && post.phase == (Phase::Done {
            status,
        }) && act == (Step::Halt { status }),
        Phase::Done { status } => post == pre && act == (Step::Halt { status }),
    }
}

impl BuildTask {
    /// Drives the task one step further: consumes the runner's reply to
    /// the previous step and hands back the next one. Once the task is
    /// done it stays done, whatever arrives.
    pub fn step(self, ev: Event, now: i64) -> (r: (BuildTask, Step))
        requires
            self.wf(),
            spec_event_matches(self.phase, ev),
        ensures
            r.0.wf(),
            spec_step_ok(self, ev, now, r.0, r.1),
            self.rev_canonical() && spec_rev_event_ok(self, ev) ==> r.0.rev_canonical(),
    {
        let mut t = self;
        let phase = t.phase;
        match phase {
            Phase::ProbeRepo => match ev {
                Event::RepoChecked(true) => {
                    let act = Step::Exec(git_fetch(t.scm_dir.as_str(), t.ssh_cmd.as_str()));
                    t.phase = Phase::Fetch;
                    (t, act)
                },
                Event::RepoChecked(false) => {
                    let act = Step::Exec(git_init_bare(t.scm_dir.as_str()));
                    t.phase = Phase::InitRepo;
                    (t, act)
                },
                _ => {
                    proof {
                        assert(false);
                    }
                    (t, Step::Halt { status: BuildStatus::Failed })
                },
            },
            Phase::InitRepo => {
                let act = Step::Exec(
                    git_remote_add(t.scm_dir.as_str(), t.build.origin.as_str()),
                );
                t.phase = Phase::AddRemote;
                (t, act)
            },
            Phase::AddRemote => match ev {
                Event::ExitOk(true) => {
                    let act = Step::Exec(git_fetch(t.scm_dir.as_str(), t.ssh_cmd.as_str()));
                    t.phase = Phase::Fetch;
                    (t, act)
                },
                Event::ExitOk(false) => t.failed(now),
                _ => {
                    proof {
                        assert(false);
                    }
                    (t, Step::Halt { status: BuildStatus::Failed })
                },
            },
            Phase::Fetch => match ev {
                Event::ExitOk(true) => {
                    if is_commit_hash(t.build.rev.as_str()) {
                        let act = Step::Exec(
                            git_fetch_rev(
                                t.scm_dir.as_str(),
                                t.ssh_cmd.as_str(),
                                t.build.rev.as_str(),
                            ),
                        );
                        t.phase = Phase::FetchRev;
                        (t, act)
                    } else {
                        let act = Step::Capture(
                            git_rev_parse(t.scm_dir.as_str(), t.build.rev.as_str()),
                        );
                        t.phase = Phase::RevParse;
                        (t, act)
                    }
                },
                Event::ExitOk(false) => t.failed(now),
                _ => {
                    proof {
                        assert(false);
                    }
                    (t, Step::Halt { status: BuildStatus::Failed })
                },
            },
            Phase::FetchRev => match ev {
                Event::ExitOk(true) => t.to_remove_stale(),
                Event::ExitOk(false) => t.failed(now),
                _ => {
                    proof {
                        assert(false);
                    }
                    (t, Step::Halt { status: BuildStatus::Failed })
                },
            },
            Phase::RevParse => match ev {
                Event::CmdOutput { ok: true, stdout } => {
                    let res = resolved_rev(stdout.as_str());
                    if !str_eq(res.as_str(), t.build.rev.as_str()) {
                        t.build.rev = res.clone();
                        let act = Step::Store(TaskOp::SetRev { id: t.build.id, rev: res });
                        t.phase = Phase::SaveRev;
                        (t, act)
                    } else {
                        t.to_remove_stale()
                    }
                },
                Event::CmdOutput { ok: false, stdout: _ } => t.failed(now),
                _ => {
                    proof {
                        assert(false);
                    }
                    (t, Step::Halt { status: BuildStatus::Failed })
                },
            },
            Phase::SaveRev => match ev {
                Event::Saved(_) => t.to_remove_stale(),
                _ => {
                    proof {
                        assert(false);
                    }
                    (t, Step::Halt { status: BuildStatus::Failed })
                },
            },
            Phase::RemoveStale => {
                let act = Step::Exec(
                    git_worktree_add(
                        t.scm_dir.as_str(),
                        t.build_tag.as_str(),
                        t.build.rev.as_str(),
                    ),
                );
                t.phase = Phase::AddWorktree;
                (t, act)
            },
            Phase::AddWorktree => match ev {
                Event::ExitOk(true) => {
                    let act = Step::Exec(git_prune(t.scm_dir.as_str()));
                    t.phase = Phase::Prune;
                    (t, act)
                },
                Event::ExitOk(false) => t.failed(now),
                _ => {
                    proof {
                        assert(false);
                    }
                    (t, Step::Halt { status: BuildStatus::Failed })
                },
            },
            Phase::Prune => match ev {
                Event::ExitOk(true) => {
                    t.phase = Phase::SettingUp;
                    (t, Step::Setup)
                },
                Event::ExitOk(false) => t.fail_cleanup(),
                _ => {
                    proof {
                        assert(false);
                    }
                    (t, Step::Halt { status: BuildStatus::Failed })
                },
            },
            Phase::SettingUp => match ev {
                Event::Ready { home, signing_key_path } => {
                    let hook_path = join_path(home.as_str(), "post-build.sh");
                    let conf_path = join_path(home.as_str(), "nix/nix.conf");
                    let hook_text = post_build_script(&t.publish, signing_key_path.as_str());
                    let conf_text = nix_conf(
                        t.min_free,
                        t.max_free,
                        t.builders.as_str(),
                        hook_path.as_str(),
                    );
                    t.home = home;
                    t.hook_path = hook_path.clone();
                    t.conf_path = conf_path.clone();
                    t.phase = Phase::Writing;
                    let act = Step::WriteFiles { hook_path, hook_text, conf_path, conf_text };
                    (t, act)
                },
                _ => {
                    proof {
                        assert(false);
                    }
                    (t, Step::Halt { status: BuildStatus::Failed })
                },
            },
            Phase::Writing => {
                let act = Step::Exec(cat_file(t.conf_path.as_str()));
                t.phase = Phase::ShowConf;
                (t, act)
            },
            Phase::ShowConf => {
                let mut text = String::from_str("export HOME=");
                text.append(t.home.as_str());
                proof {
                    assert(text@ =~= "export HOME="@ + t.home@);
                }
                let act = Step::Note(fake_audit_line(text.as_str()));
                t.phase = Phase::MarkHome;
                (t, act)
            },
            Phase::MarkHome => {
                let act = Step::Exec(chmod_exec(t.hook_path.as_str()));
                t.phase = Phase::ChmodHook;
                (t, act)
            },
            Phase::ChmodHook => t.advance(0, 0),
            Phase::Realize { input_ix, platform_ix } => match ev {
                Event::CmdOutput { ok: true, stdout } => {
                    let store_path = trim_end(stdout.as_str());
                    let act = Step::Store(
                        TaskOp::InsertOutput {
                            input_id: t.inputs[input_ix].id,
                            system: t.platforms[platform_ix].clone(),
                            store_path,
                        },
                    );
                    t.phase = Phase::SaveOutput { input_ix, platform_ix };
                    (t, act)
                },
                Event::CmdOutput { ok: false, stdout: _ } => t.fail_cleanup(),
                _ => {
                    proof {
                        assert(false);
                    }
                    (t, Step::Halt { status: BuildStatus::Failed })
                },
            },
            Phase::SaveOutput { input_ix, platform_ix } => {
                // the cursor sits inside both tables, so advancing it
                // cannot overflow: the lengths bound it
                let plat_n = t.platforms.len();
                let _in_n = t.inputs.len();
                if platform_ix + 1 < plat_n {
                    t.advance(input_ix, platform_ix + 1)
                } else {
                    t.advance(input_ix + 1, 0)
                }
            },
            Phase::RemoveWorktree => match ev {
                Event::ExitOk(true) => {
                    let dir = join_path(t.scm_dir.as_str(), t.build_tag.as_str());
                    let act = Step::Exec(rm_rf(dir.as_str()));
                    t.phase = Phase::RemoveDir;
                    (t, act)
                },
                Event::ExitOk(false) => {
                    let dir = join_path(t.scm_dir.as_str(), t.build_tag.as_str());
                    let act = Step::Exec(rm_rf(dir.as_str()));
                    t.phase = Phase::FailRemoveDir;
                    (t, act)
                },
                _ => {
                    proof {
                        assert(false);
                    }
                    (t, Step::Halt { status: BuildStatus::Failed })
                },
            },
            Phase::RemoveDir => match ev {
                Event::ExitOk(true) => {
                    let act = Step::Exec(echo_success());
                    t.phase = Phase::LogSuccess;
                    (t, act)
                },
                Event::ExitOk(false) => t.failed(now),
                _ => {
                    proof {
                        assert(false);
                    }
                    (t, Step::Halt { status: BuildStatus::Failed })
                },
            },
            Phase::FailRemoveWorktree => {
                let dir = join_path(t.scm_dir.as_str(), t.build_tag.as_str());
                let act = Step::Exec(rm_rf(dir.as_str()));
                t.phase = Phase::FailRemoveDir;
                (t, act)
            },
            Phase::FailRemoveDir => t.failed(now),
            Phase::LogSuccess => {
                let act = Step::Store(
                    TaskOp::FinishBuild {
                        id: t.build.id,
                        status: BuildStatus::Succeeded,
                        now,
                        error_msg: None,
                    },
                );
                t.phase = Phase::Finishing { status: BuildStatus::Succeeded };
                (t, act)
            },
            Phase::Finishing { status } => {
                t.phase = Phase::Done { status };
                (t, Step::Halt { status })
            },
            Phase::Done { status } => (t, Step::Halt { status }),
        }
    }

    fn to_remove_stale(self) -> (r: (BuildTask, Step))
        ensures
            spec_frame(self, r.0),
            spec_keeps(self, r.0),
            r.0.phase == Phase::RemoveStale,
            spec_emits_exec(r.1, spec_git_worktree_remove(self.scm_dir@, self.build_tag@)),
            r.0.wf(),
    {
        let mut t = self;
        let act = Step::Exec(
            git_worktree_remove(t.scm_dir.as_str(), t.build_tag.as_str()),
        );
        t.phase = Phase::RemoveStale;
        (t, act)
    }

    fn failed(self, now: i64) -> (r: (BuildTask, Step))
        ensures
            spec_frame(self, r.0),
            spec_failed(self, now, r.0, r.1),
            r.0.wf(),
    {
        let mut t = self;
        let act = Step::Store(
            TaskOp::FinishBuild {
                id: t.build.id,
                status: BuildStatus::Failed,
                now,
                error_msg: None,
            },
        );
        t.phase = Phase::Finishing { status: BuildStatus::Failed };
        (t, act)
    }

    fn fail_cleanup(self) -> (r: (BuildTask, Step))
        ensures
            spec_frame(self, r.0),
            spec_fail_cleanup(self, r.0, r.1),
            r.0.wf(),
    {
        let mut t = self;
        let act = Step::Exec(
            git_worktree_remove(t.scm_dir.as_str(), t.build_tag.as_str()),
        );
        t.phase = Phase::FailRemoveWorktree;
        (t, act)
    }

    fn advance(self, input_ix: usize, platform_ix: usize) -> (r: (BuildTask, Step))
        requires
            platform_ix == 0 || platform_ix < self.platforms@.len(),
        ensures
            spec_frame(self, r.0),
            spec_keeps(self, r.0),
            spec_advance(self, r.0, r.1, input_ix as int, platform_ix as int),
            r.0.wf(),
    {
        let mut t = self;
        if input_ix < t.inputs.len() && platform_ix < t.platforms.len() {
            let worktree_dir = join_path(t.scm_dir.as_str(), t.build_tag.as_str());
            let act = Step::Capture(
                realize_command(
                    t.inputs[input_ix].path.as_str(),
                    t.platforms[platform_ix].as_str(),
                    worktree_dir.as_str(),
                    t.build_shell.as_str(),
                    t.ssh_cmd.as_str(),
                    t.home.as_str(),
                ),
            );
            t.phase = Phase::Realize { input_ix, platform_ix };
            (t, act)
        } else {
            let act = Step::Exec(
                git_worktree_remove(t.scm_dir.as_str(), t.build_tag.as_str()),
            );
            t.phase = Phase::RemoveWorktree;
            (t, act)
        }
    }

    /// Starts a task for a build: re-enters the build's lifecycle in the
    /// store, copies its row and inputs, and derives the repository
    /// cache locations. A missing build changes nothing and starts
    /// nothing.
    pub fn start(
        store: &mut BuildStore,
        id: i32,
        cfg: &Config,
        min_free: u64,
        max_free: u64,
    ) -> (r: Option<(BuildTask, Step)>)
        requires
            old(store)@.wf(),
        ensures
            final(store)@.wf(),
            !old(store)@.has_build(id) ==> r is None && final(store)@ == old(store)@,
            old(store)@.has_build(id) ==> final(store)@ == spec_begin_build(old(store)@, id)
                && match r {
                Option::Some(pair) => {
                    let t = pair.0;
                    &&& t.build == spec_begun(old(store)@.build_of(id))
                    &&& t.inputs@ == old(store)@.inputs.filter(spec_input_of_build(id))
                    &&& t.platforms@ == cfg.target_platforms@
                    &&& t.builders@ == spec_join(cfg.builders.deep_view(), "; "@)
                    &&& t.build_shell@ == cfg.build_shell@
                    &&& t.publish == cfg.publish
                    &&& t.scm_dir@ == spec_scm_repo_dir(
                        cfg.scm_path@,
                        encode_utf8(old(store)@.build_of(id).origin@),
                    )
                    &&& t.build_tag@ == spec_worktree_tag(id as int)
                    &&& t.min_free == min_free
                    &&& t.max_free == max_free
                    &&& t.phase == Phase::ProbeRepo
                    &&& t.wf()
                    &&& t.rev_canonical()
                    &&& match pair.1 {
                        Step::CheckRepo { dir } => dir@ == t.scm_dir@,
                        _ => false,
                    }
                },
                Option::None => false,
            },
    {
        let build = match store.get_build(id) {
            Some(b) => b.clone(),
            None => {
                return None;
            },
        };
        let inputs = store.inputs_of(id);
        store.begin_build(id);
        let mut task_build = build;
        task_build.status = BuildStatus::Building;
        task_build.finished_at = None;
        task_build.error_msg = None;
        let scm_dir = scm_repo_dir(cfg.scm_path.as_str(), task_build.origin.as_str());
        let build_tag = worktree_tag(id);
        let ssh_cmd = cfg.ssh_command();
        let builders = join_builders(&cfg.builders);
        let platforms = clone_strings(&cfg.target_platforms);
        let probe = Step::CheckRepo { dir: scm_dir.clone() };
        let task = BuildTask {
            build: task_build,
            inputs,
            platforms,
            builders,
            build_shell: cfg.build_shell.clone(),
            ssh_cmd,
            publish: cfg.publish.clone(),
            scm_dir,
            build_tag,
            min_free,
            max_free,
            home: String::new(),
            hook_path: String::new(),
            conf_path: String::new(),
            phase: Phase::ProbeRepo,
        };
        Some((task, probe))
    }
}

/// Revision canonicalization: a task that finished successfully holds a
/// 40-digit commit hash as its revision. `step` preserves
/// `rev_canonical` whenever the resolver's output was a hash, so this
/// covers every successful run whose resolution behaved as `git
/// rev-parse` does.
pub proof fn lemma_revision_canonical(t: BuildTask)
    requires
        t.rev_canonical(),
        t.phase == (Phase::Done { status: BuildStatus::Succeeded }),
    ensures
        spec_is_commit_hash(t.build.rev@),
{
}

fn clone_strings(v: &Vec<String>) -> (r: Vec<String>)
    ensures
        r@ == v@,
{
    let n = v.len();
    let mut r: Vec<String> = Vec::new();
    let mut i: usize = 0;
    while i < n
        invariant
            n == v@.len(),
            0 <= i <= n,
            r@ == v@.take(i as int),
        decreases n - i,
    {
        let s = v[i].clone();
        r.push(s);
        proof {
            assert(r@ =~= v@.take(i + 1));
        }
        i = i + 1;
    }
    proof {
        assert(v@.take(n as int) =~= v@);
    }
    r
}

} // verus!
