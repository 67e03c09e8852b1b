use vstd::prelude::*;

verus! {

/// A subprocess invocation, described as plain data. The runner spawns the
/// program with these arguments, working directory and environment, tee'ing
/// its streams to the per-build log.
pub struct Cmd {
    pub program: String,
    pub args: Vec<String>,
    pub cwd: Option<String>,
    pub env: Vec<(String, String)>,
    /// When set, the child starts from an empty environment and receives
    /// only the pairs in `env` (plus the PATH the runner forwards).
    pub env_clear: bool,
}

/// The mathematical image of a `Cmd`.
pub struct CmdView {
    pub program: Seq<char>,
    pub args: Seq<Seq<char>>,
    pub cwd: Option<Seq<char>>,
    pub env: Seq<(Seq<char>, Seq<char>)>,
    pub env_clear: bool,
}

impl View for Cmd {
    type V = CmdView;

    open spec fn view(&self) -> CmdView {
        CmdView {
            program: self.program@,
            args: Seq::new(self.args@.len(), |i: int| self.args@[i]@),
            cwd: match self.cwd {
                Option::Some(d) => Option::Some(d@),
                Option::None => Option::None,
            },
            env: Seq::new(self.env@.len(), |i: int| (self.env@[i].0@, self.env@[i].1@)),
            env_clear: self.env_clear,
        }
    }
}

pub open spec fn spec_git_init_bare(dir: Seq<char>) -> CmdView {
    CmdView {
        program: "git"@,
        args: seq!["init"@, "--bare"@],
        cwd: Option::Some(dir),
        env: Seq::empty(),
        env_clear: false,
    }
}

pub open spec fn spec_git_remote_add(dir: Seq<char>, origin: Seq<char>) -> CmdView {
    CmdView {
        program: "git"@,
        args: seq!["remote"@, "add"@, "origin"@, "--"@, origin],
        cwd: Option::Some(dir),
        env: Seq::empty(),
        env_clear: false,
    }
}

pub open spec fn spec_git_fetch(dir: Seq<char>, ssh_cmd: Seq<char>) -> CmdView {
    CmdView {
        program: "git"@,
        args: seq!["fetch"@, "origin"@],
        cwd: Option::Some(dir),
        env: seq![("GIT_SSH_COMMAND"@, ssh_cmd)],
        env_clear: false,
    }
}

pub open spec fn spec_git_fetch_rev(dir: Seq<char>, ssh_cmd: Seq<char>, rev: Seq<char>) -> CmdView {
    CmdView {
        program: "git"@,
        args: seq!["fetch"@, "origin"@, rev],
        cwd: Option::Some(dir),
        env: seq![("GIT_SSH_COMMAND"@, ssh_cmd)],
        env_clear: false,
    }
}

/// The ref under which a symbolic revision is resolved.
pub open spec fn spec_remote_ref(rev: Seq<char>) -> Seq<char> {
    "remotes/origin/"@ + rev
}

pub open spec fn spec_git_rev_parse(dir: Seq<char>, rev: Seq<char>) -> CmdView {
    CmdView {
        program: "git"@,
        args: seq!["rev-parse"@, spec_remote_ref(rev)],
        cwd: Option::Some(dir),
        env: Seq::empty(),
        env_clear: false,
    }
}

pub open spec fn spec_git_worktree_remove(dir: Seq<char>, tag: Seq<char>) -> CmdView {
    CmdView {
        program: "git"@,
        args: seq!["worktree"@, "remove"@, "--force"@, tag],
        cwd: Option::Some(dir),
        env: Seq::empty(),
        env_clear: false,
    }
}

pub open spec fn spec_git_worktree_add(dir: Seq<char>, tag: Seq<char>, rev: Seq<char>) -> CmdView {
    CmdView {
        program: "git"@,
        args: seq!["worktree"@, "add"@, tag, rev],
        cwd: Option::Some(dir),
        env: Seq::empty(),
        env_clear: false,
    }
}

pub open spec fn spec_git_prune(dir: Seq<char>) -> CmdView {
    CmdView {
        program: "git"@,
        args: seq!["prune"@],
        cwd: Option::Some(dir),
        env: Seq::empty(),
        env_clear: false,
    }
}

pub open spec fn spec_cat(path: Seq<char>) -> CmdView {
    CmdView {
        program: "cat"@,
        args: seq![path],
        cwd: Option::None,
        env: Seq::empty(),
        env_clear: false,
    }
}

pub open spec fn spec_chmod_exec(path: Seq<char>) -> CmdView {
    CmdView {
        program: "chmod"@,
        args: seq!["+x"@, path],
        cwd: Option::None,
        env: Seq::empty(),
        env_clear: false,
    }
}

pub open spec fn spec_rm_rf(path: Seq<char>) -> CmdView {
    CmdView {
        program: "rm"@,
        args: seq!["-rf"@, path],
        cwd: Option::None,
        env: Seq::empty(),
        env_clear: false,
    }
}

pub open spec fn spec_echo_success() -> CmdView {
    CmdView {
        program: "echo"@,
        args: seq!["Success!"@],
        cwd: Option::None,
        env: Seq::empty(),
        env_clear: false,
    }
}

/// Whether an input expression is realized through the build shell rather
/// than a plain build: inputs named `shell.nix` realize the shell's
/// environment, whose result is echoed instead of printed by the builder.
pub open spec fn spec_is_shell_input(path: Seq<char>) -> bool {
    path.len() >= "shell.nix"@.len() && path.subrange(
        path.len() - "shell.nix"@.len(),
        path.len() as int,
    ) == "shell.nix"@
}

/// The realize invocation for one input and one target platform: a shell
/// input runs under `nix-shell` with an `echo $out` command, any other
/// input under `nix-build`; both are pinned to the platform and keep going
/// past independent failures. The child sees a cleared environment with
/// only the build shell override, the SSH command and a controlled HOME.
pub open spec fn spec_realize(
    input_path: Seq<char>,
    platform: Seq<char>,
    worktree_dir: Seq<char>,
    build_shell: Seq<char>,
    ssh_cmd: Seq<char>,
    home: Seq<char>,
) -> CmdView {
    CmdView {
        program: if spec_is_shell_input(input_path) {
            "nix-shell"@
        } else {
            "nix-build"@
        },
        args: (if spec_is_shell_input(input_path) {
            seq![input_path, "--run"@, "echo $out"@]
        } else {
            seq![input_path]
        }) + seq!["--argstr"@, "system"@, platform, "--keep-going"@],
        cwd: Option::Some(worktree_dir),
        env: seq![
            ("NIX_BUILD_SHELL"@, build_shell),
            ("GIT_SSH_COMMAND"@, ssh_cmd),
            ("HOME"@, home),
        ],
        env_clear: true,
    }
}

/// The audit line written to the log before a spawn: the program and its
/// arguments, space-separated and unquoted, behind a `$ ` marker.
pub open spec fn spec_audit_args(args: Seq<Seq<char>>) -> Seq<char>
    decreases args.len(),
{
    if args.len() == 0 {
        Seq::empty()
    } else {
        spec_audit_args(args.drop_last()) + seq![' '] + args.last()
    }
}

pub open spec fn spec_audit_line(c: CmdView) -> Seq<char> {
    seq!['$', ' '] + c.program + spec_audit_args(c.args)
}

/// The audit line for an action that is not a spawn, such as an
/// environment override the runner applies itself.
pub open spec fn spec_fake_audit_line(text: Seq<char>) -> Seq<char> {
    seq!['$', ' '] + text
}

fn push_arg(args: &mut Vec<String>, s: &str)
    ensures
        final(args)@.len() == old(args)@.len() + 1,
        forall|i: int| 0 <= i < old(args)@.len() ==> final(args)@[i] == old(args)@[i],
        final(args)@.last()@ == s@,
{
    args.push(String::from_str(s));
}

fn empty_env() -> (r: Vec<(String, String)>)
    ensures
        r@.len() == 0,
{
    Vec::new()
}

pub fn git_init_bare(dir: &str) -> (r: Cmd)
    ensures
        r@ == spec_git_init_bare(dir@),
{
    let mut args: Vec<String> = Vec::new();
    push_arg(&mut args, "init");
    push_arg(&mut args, "--bare");
    let r = Cmd {
        program: String::from_str("git"),
        args,
        cwd: Some(String::from_str(dir)),
        env: empty_env(),
        env_clear: false,
    };
    proof {
        assert(r@.args =~= spec_git_init_bare(dir@).args);
        assert(r@.env =~= spec_git_init_bare(dir@).env);
        assert(r@ == spec_git_init_bare(dir@));
    }
    r
}

pub fn git_remote_add(dir: &str, origin: &str) -> (r: Cmd)
    ensures
        r@ == spec_git_remote_add(dir@, origin@),
{
    let mut args: Vec<String> = Vec::new();
    push_arg(&mut args, "remote");
    push_arg(&mut args, "add");
    push_arg(&mut args, "origin");
    push_arg(&mut args, "--");
    push_arg(&mut args, origin);
    let r = Cmd {
        program: String::from_str("git"),
        args,
        cwd: Some(String::from_str(dir)),
        env: empty_env(),
        env_clear: false,
    };
    proof {
        assert(r@.args =~= spec_git_remote_add(dir@, origin@).args);
        assert(r@.env =~= spec_git_remote_add(dir@, origin@).env);
        assert(r@ == spec_git_remote_add(dir@, origin@));
    }
    r
}

fn ssh_env(ssh_cmd: &str) -> (r: Vec<(String, String)>)
    ensures
        r@.len() == 1,
        r@[0].0@ == "GIT_SSH_COMMAND"@,
        r@[0].1@ == ssh_cmd@,
{
    let mut env: Vec<(String, String)> = Vec::new();
    env.push((String::from_str("GIT_SSH_COMMAND"), String::from_str(ssh_cmd)));
    env
}

pub fn git_fetch(dir: &str, ssh_cmd: &str) -> (r: Cmd)
    ensures
        r@ == spec_git_fetch(dir@, ssh_cmd@),
{
    let mut args: Vec<String> = Vec::new();
    push_arg(&mut args, "fetch");
    push_arg(&mut args, "origin");
    let r = Cmd {
        program: String::from_str("git"),
        args,
        cwd: Some(String::from_str(dir)),
        env: ssh_env(ssh_cmd),
        env_clear: false,
    };
    proof {
        assert(r@.args =~= spec_git_fetch(dir@, ssh_cmd@).args);
        assert(r@.env =~= spec_git_fetch(dir@, ssh_cmd@).env);
        assert(r@ == spec_git_fetch(dir@, ssh_cmd@));
    }
    r
}

pub fn git_fetch_rev(dir: &str, ssh_cmd: &str, rev: &str) -> (r: Cmd)
    ensures
        r@ == spec_git_fetch_rev(dir@, ssh_cmd@, rev@),
{
    let mut args: Vec<String> = Vec::new();
    push_arg(&mut args, "fetch");
    push_arg(&mut args, "origin");
    push_arg(&mut args, rev);
    let r = Cmd {
        program: String::from_str("git"),
        args,
        cwd: Some(String::from_str(dir)),
        env: ssh_env(ssh_cmd),
        env_clear: false,
    };
    proof {
        assert(r@.args =~= spec_git_fetch_rev(dir@, ssh_cmd@, rev@).args);
        assert(r@.env =~= spec_git_fetch_rev(dir@, ssh_cmd@, rev@).env);
        assert(r@ == spec_git_fetch_rev(dir@, ssh_cmd@, rev@));
    }
    r
}

pub fn git_rev_parse(dir: &str, rev: &str) -> (r: Cmd)
    ensures
        r@ == spec_git_rev_parse(dir@, rev@),
{
    let mut remote_ref = String::from_str("remotes/origin/");
    remote_ref.append(rev);
    let mut args: Vec<String> = Vec::new();
    push_arg(&mut args, "rev-parse");
    args.push(remote_ref);
    let r = Cmd {
        program: String::from_str("git"),
        args,
        cwd: Some(String::from_str(dir)),
        env: empty_env(),
        env_clear: false,
    };
    proof {
        assert(r@.args =~= spec_git_rev_parse(dir@, rev@).args);
        assert(r@.env =~= spec_git_rev_parse(dir@, rev@).env);
        assert(r@ == spec_git_rev_parse(dir@, rev@));
    }
    r
}

pub fn git_worktree_remove(dir: &str, tag: &str) -> (r: Cmd)
    ensures
        r@ == spec_git_worktree_remove(dir@, tag@),
{
    let mut args: Vec<String> = Vec::new();
    push_arg(&mut args, "worktree");
    push_arg(&mut args, "remove");
    push_arg(&mut args, "--force");
    push_arg(&mut args, tag);
    let r = Cmd {
        program: String::from_str("git"),
        args,
        cwd: Some(String::from_str(dir)),
        env: empty_env(),
        env_clear: false,
    };
    proof {
        assert(r@.args =~= spec_git_worktree_remove(dir@, tag@).args);
        assert(r@.env =~= spec_git_worktree_remove(dir@, tag@).env);
        assert(r@ == spec_git_worktree_remove(dir@, tag@));
    }
    r
}

pub fn git_worktree_add(dir: &str, tag: &str, rev: &str) -> (r: Cmd)
    ensures
        r@ == spec_git_worktree_add(dir@, tag@, rev@),
{
    let mut args: Vec<String> = Vec::new();
    push_arg(&mut args, "worktree");
    push_arg(&mut args, "add");
    push_arg(&mut args, tag);
    push_arg(&mut args, rev);
    let r = Cmd {
        program: String::from_str("git"),
        args,
        cwd: Some(String::from_str(dir)),
        env: empty_env(),
        env_clear: false,
    };
    proof {
        assert(r@.args =~= spec_git_worktree_add(dir@, tag@, rev@).args);
        assert(r@.env =~= spec_git_worktree_add(dir@, tag@, rev@).env);
        assert(r@ == spec_git_worktree_add(dir@, tag@, rev@));
    }
    r
}

pub fn git_prune(dir: &str) -> (r: Cmd)
    ensures
        r@ == spec_git_prune(dir@),
{
    let mut args: Vec<String> = Vec::new();
    push_arg(&mut args, "prune");
    let r = Cmd {
        program: String::from_str("git"),
        args,
        cwd: Some(String::from_str(dir)),
        env: empty_env(),
        env_clear: false,
    };
    proof {
        assert(r@.args =~= spec_git_prune(dir@).args);
        assert(r@.env =~= spec_git_prune(dir@).env);
        assert(r@ == spec_git_prune(dir@));
    }
    r
}

pub fn cat_file(path: &str) -> (r: Cmd)
    ensures
        r@ == spec_cat(path@),
{
    let mut args: Vec<String> = Vec::new();
    push_arg(&mut args, path);
    let r = Cmd {
        program: String::from_str("cat"),
        args,
        cwd: None,
        env: empty_env(),
        env_clear: false,
    };
    proof {
        assert(r@.args =~= spec_cat(path@).args);
        assert(r@.env =~= spec_cat(path@).env);
        assert(r@ == spec_cat(path@));
    }
    r
}

pub fn chmod_exec(path: &str) -> (r: Cmd)
    ensures
        r@ == spec_chmod_exec(path@),
{
    let mut args: Vec<String> = Vec::new();
    push_arg(&mut args, "+x");
    push_arg(&mut args, path);
    let r = Cmd {
        program: String::from_str("chmod"),
        args,
        cwd: None,
        env: empty_env(),
        env_clear: false,
    };
    proof {
        assert(r@.args =~= spec_chmod_exec(path@).args);
        assert(r@.env =~= spec_chmod_exec(path@).env);
        assert(r@ == spec_chmod_exec(path@));
    }
    r
}

pub fn rm_rf(path: &str) -> (r: Cmd)
    ensures
        r@ == spec_rm_rf(path@),
{
    let mut args: Vec<String> = Vec::new();
    push_arg(&mut args, "-rf");
    push_arg(&mut args, path);
    let r = Cmd {
        program: String::from_str("rm"),
        args,
        cwd: None,
        env: empty_env(),
        env_clear: false,
    };
    proof {
        assert(r@.args =~= spec_rm_rf(path@).args);
        assert(r@.env =~= spec_rm_rf(path@).env);
        assert(r@ == spec_rm_rf(path@));
    }
    r
}

pub fn echo_success() -> (r: Cmd)
    ensures
        r@ == spec_echo_success(),
{
    let mut args: Vec<String> = Vec::new();
    push_arg(&mut args, "Success!");
    let r = Cmd {
        program: String::from_str("echo"),
        args,
        cwd: None,
        env: empty_env(),
        env_clear: false,
    };
    proof {
        assert(r@.args =~= spec_echo_success().args);
        assert(r@.env =~= spec_echo_success().env);
        assert(r@ == spec_echo_success());
    }
    r
}

/// Whether `s` ends with `suffix`.
pub fn str_ends_with(s: &str, suffix: &str) -> (r: bool)
    ensures
        r == (s@.len() >= suffix@.len() && s@.subrange(
            s@.len() - suffix@.len(),
            s@.len() as int,
        ) == suffix@),
{
    let n = s.unicode_len();
    let m = suffix.unicode_len();
    if n < m {
        return false;
    }
    let mut i: usize = 0;
    while i < m
        invariant
            m <= n,
            n == s@.len(),
            m == suffix@.len(),
            0 <= i <= m,
            forall|j: int| 0 <= j < i ==> s@[n - m + j] == suffix@[j],
        decreases m - i,
    {
        if s.get_char(n - m + i) != suffix.get_char(i) {
            proof {
                assert(s@.subrange(n - m, n as int)[i as int] != suffix@[i as int]);
            }
            return false;
        }
        i = i + 1;
    }
    proof {
        assert(s@.subrange(n - m, n as int) =~= suffix@);
    }
    true
}

/// Chooses the realize invocation for one input and one platform.
pub fn realize_command(
    input_path: &str,
    platform: &str,
    worktree_dir: &str,
    build_shell: &str,
    ssh_cmd: &str,
    home: &str,
) -> (r: Cmd)
    ensures
        r@ == spec_realize(input_path@, platform@, worktree_dir@, build_shell@, ssh_cmd@, home@),
{
    let shell = str_ends_with(input_path, "shell.nix");
    let mut args: Vec<String> = Vec::new();
    let program = if shell {
        push_arg(&mut args, input_path);
        push_arg(&mut args, "--run");
        push_arg(&mut args, "echo $out");
        String::from_str("nix-shell")
    } else {
        push_arg(&mut args, input_path);
        String::from_str("nix-build")
    };
    push_arg(&mut args, "--argstr");
    push_arg(&mut args, "system");
    push_arg(&mut args, platform);
    push_arg(&mut args, "--keep-going");
    let mut env: Vec<(String, String)> = Vec::new();
    env.push((String::from_str("NIX_BUILD_SHELL"), String::from_str(build_shell)));
    env.push((String::from_str("GIT_SSH_COMMAND"), String::from_str(ssh_cmd)));
    env.push((String::from_str("HOME"), String::from_str(home)));
    let r = Cmd {
        program,
        args,
        cwd: Some(String::from_str(worktree_dir)),
        env,
        env_clear: true,
    };
    proof {
        let sv = spec_realize(
            input_path@,
            platform@,
            worktree_dir@,
            build_shell@,
            ssh_cmd@,
            home@,
        );
        assert(r@.args =~= sv.args);
        assert(r@.env =~= sv.env);
        assert(r@ == sv);
    }
    r
}

/// Renders the audit line for a spawn: `$ <program> <arg> <arg> …`.
pub fn audit_line(c: &Cmd) -> (r: String)
    ensures
        r@ == spec_audit_line(c@),
{
    proof {
        reveal_strlit("$ ");
    }
    let mut r = String::from_str("$ ");
    r.append(c.program.as_str());
    proof {
        assert(r@ =~= seq!['$', ' '] + c@.program + spec_audit_args(c@.args.take(0)));
    }
    let n = c.args.len();
    let mut i: usize = 0;
    while i < n
        invariant
            n == c.args@.len(),
            0 <= i <= n,
            r@ == seq!['$', ' '] + c@.program + spec_audit_args(c@.args.take(i as int)),
        decreases n - i,
    {
        proof {
            reveal_strlit(" ");
        }
        r.append(" ");
        r.append(c.args[i].as_str());
        proof {
            assert(c@.args.take(i + 1).drop_last() =~= c@.args.take(i as int));
            assert(c@.args.take(i + 1).last() == c@.args[i as int]);
            assert(" "@ =~= seq![' ']);
            assert(r@ =~= seq!['$', ' '] + c@.program + spec_audit_args(c@.args.take(i + 1)));
        }
        i = i + 1;
    }
    proof {
        assert(c@.args.take(n as int) =~= c@.args);
    }
    r
}

/// Renders the audit line for an action the runner performs itself.
pub fn fake_audit_line(text: &str) -> (r: String)
    ensures
        r@ == spec_fake_audit_line(text@),
{
    proof {
        reveal_strlit("$ ");
    }
    let mut r = String::from_str("$ ");
    r.append(text);
    proof {
        assert(r@ =~= spec_fake_audit_line(text@));
    }
    r
}

} // verus!
