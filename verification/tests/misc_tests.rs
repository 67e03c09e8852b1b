use starfish::cfg::{default_target_platforms, Config, Publish};
use starfish::command::{audit_line, fake_audit_line, git_remote_add, realize_command, str_ends_with};
use starfish::config::{config_file_path, Component, WorkerConfig};
use starfish::numbers::{i32_to_string, parse_i32, u64_to_string};
use starfish::paths::parse_paths;
use starfish::repo::{join_path, logfile_path, scm_repo_dir, worktree_tag};
use starfish::revision::{is_commit_hash, resolved_rev};
use starfish::scripts::{cache_uri, disk_reserve, join_builders, nix_conf, none_script, S3};
use starfish::text::{trim, trim_end};
use starfish::web_cfg;

#[test]
fn decimal_formatting() {
    assert_eq!(u64_to_string(0), "0");
    assert_eq!(u64_to_string(907), "907");
    assert_eq!(i32_to_string(-45), "-45");
    assert_eq!(i32_to_string(i32::MIN), "-2147483648");
    assert_eq!(i32_to_string(i32::MAX), "2147483647");
}

#[test]
fn decimal_parsing() {
    assert_eq!(parse_i32("0"), Some(0));
    assert_eq!(parse_i32("00012"), Some(12));
    assert_eq!(parse_i32("2147483647"), Some(i32::MAX));
    assert_eq!(parse_i32("2147483648"), None);
    assert_eq!(parse_i32(""), None);
    assert_eq!(parse_i32("12a"), None);
    assert_eq!(parse_i32("-5"), None);
}

#[test]
fn format_then_parse_returns_the_id() {
    for id in [0, 1, 7, 1000, i32::MAX] {
        assert_eq!(parse_i32(i32_to_string(id).as_str()), Some(id));
    }
}

#[test]
fn commit_hash_recognition() {
    assert!(is_commit_hash("abcdabcdabcdabcdabcdabcdabcdabcdabcdabcd"));
    assert!(is_commit_hash("ABCDABCDABCDABCDABCDABCDABCDABCDABCDABCD"));
    assert!(!is_commit_hash("main"));
    assert!(!is_commit_hash("abcdabcdabcdabcdabcdabcdabcdabcdabcdabc"));
    assert!(!is_commit_hash("abcdabcdabcdabcdabcdabcdabcdabcdabcdabcz"));
    assert!(!is_commit_hash(""));
}

#[test]
fn resolver_output_takes_first_line_trimmed() {
    assert_eq!(resolved_rev("abc123\n"), "abc123");
    assert_eq!(resolved_rev("abc123  \nwarning: junk\n"), "abc123");
    assert_eq!(resolved_rev("abc123"), "abc123");
    assert_eq!(resolved_rev(""), "");
}

#[test]
fn trimming() {
    assert_eq!(trim("  a b \t"), "a b");
    assert_eq!(trim("\n\r x"), "x");
    assert_eq!(trim("   "), "");
    assert_eq!(trim_end("x \n"), "x");
}

#[test]
fn path_lists_are_cleaned() {
    let paths = parse_paths("a.nix, ,b.nix,");
    assert_eq!(paths, vec!["a.nix".to_string(), "b.nix".to_string()]);
    assert_eq!(parse_paths(""), Vec::<String>::new());
    assert_eq!(parse_paths(" , ,, "), Vec::<String>::new());
    assert_eq!(parse_paths("one.nix"), vec!["one.nix".to_string()]);
    assert_eq!(
        parse_paths(" nested/dir/x.nix ,y.nix"),
        vec!["nested/dir/x.nix".to_string(), "y.nix".to_string()]
    );
}

#[test]
fn repository_directory_uses_the_origin_hash() {
    // SHA-1 of "abc" is the classic test vector.
    assert_eq!(
        scm_repo_dir("/scm", "abc"),
        "/scm/a9993e364706816aba3e25717850c26c9cd0d89d"
    );
    assert_eq!(
        scm_repo_dir("/scm", ""),
        "/scm/da39a3ee5e6b4b0d3255bfef95601890afd80709"
    );
}

#[test]
fn worktree_tags_and_paths() {
    assert_eq!(worktree_tag(17), "__starfish_build_17");
    assert_eq!(join_path("/a", "b"), "/a/b");
    assert_eq!(logfile_path("/var/log/builds", 9), "/var/log/builds/9.log");
}

#[test]
fn logfile_helpers_agree() {
    let wc = WorkerConfig {
        log_path: "/logs".to_string(),
        scm_path: "/scm".to_string(),
        cache_bucket: String::new(),
        s3_region: String::new(),
        lockfile: String::new(),
        signing_key: String::new(),
        aws_access_key: String::new(),
        aws_secret_key: String::new(),
        ssh_private_key: String::new(),
        shell: String::new(),
        builders: vec![],
    };
    assert_eq!(wc.logfile(3), "/logs/3.log");
    let web = web_cfg::Config {
        log_path: "/logs".to_string(),
        static_root: "dist".to_string(),
        database_url: String::new(),
        listen_address: "127.0.0.1".to_string(),
        listen_port: 8080,
    };
    assert_eq!(web.logfile(3), "/logs/3.log");
    let worker = Config {
        build_shell: String::new(),
        git_ssh_key: None,
        builders: vec![],
        target_platforms: vec![],
        log_path: "/logs".to_string(),
        scm_path: "/scm".to_string(),
        publish: Publish::Disabled,
        database_url: String::new(),
    };
    assert_eq!(worker.logfile(3), "/logs/3.log");
}

#[test]
fn ssh_command_uses_the_configured_key() {
    let mut cfg = Config {
        build_shell: String::new(),
        git_ssh_key: None,
        builders: vec![],
        target_platforms: vec![],
        log_path: String::new(),
        scm_path: String::new(),
        publish: Publish::Disabled,
        database_url: String::new(),
    };
    assert_eq!(cfg.ssh_command(), "ssh");
    cfg.git_ssh_key = Some("/etc/keys/deploy".to_string());
    assert_eq!(
        cfg.ssh_command(),
        "ssh -i /etc/keys/deploy -o IdentitiesOnly=yes -o StrictHostKeyChecking=no"
    );
}

#[test]
fn default_platforms() {
    assert_eq!(
        default_target_platforms(),
        vec!["x86_64-linux".to_string(), "x86_64-darwin".to_string()]
    );
}

#[test]
fn component_names_and_config_paths() {
    assert_eq!(Component::Web.name(), "web");
    assert_eq!(Component::Worker.name(), "worker");
    assert_eq!(config_file_path("config/dev", Component::Worker), "config/dev/worker.toml");
    assert_eq!(config_file_path("config/dev", Component::Web), "config/dev/web.toml");
}

#[test]
fn disk_band_is_fifteen_percent_to_half() {
    assert_eq!(disk_reserve(1000), (150, 500));
    assert_eq!(disk_reserve(0), (0, 0));
    // Values near the top of the range must not overflow.
    assert_eq!(disk_reserve(u64::MAX), (2767011611056432742, u64::MAX / 2));
}

#[test]
fn cache_uri_shape() {
    assert_eq!(
        cache_uri("bkt", "eu-west-1", "/tmp/key"),
        "s3://bkt?region=eu-west-1&secret-key=/tmp/key&write-nar-listing=1&ls-compression=br&log-compression=br&parallel-compression=1"
    );
}

#[test]
fn scripts_render() {
    assert_eq!(none_script(), "#!/bin/sh\nexit 0\n");
    let s3 = S3 {
        key: "k".to_string(),
        secret: "s".to_string(),
        cache_uri: "s3://b".to_string(),
    };
    assert_eq!(
        s3.render(),
        "#!/bin/sh\nset -eu\nexport AWS_ACCESS_KEY_ID='k'\nexport AWS_SECRET_ACCESS_KEY='s'\nexec nix copy --to 's3://b' $OUT_PATHS\n"
    );
}

#[test]
fn builder_lists_join_with_semicolons() {
    assert_eq!(join_builders(&vec![]), "");
    assert_eq!(join_builders(&vec!["a".to_string()]), "a");
    assert_eq!(join_builders(&vec!["a".to_string(), "b".to_string()]), "a; b");
}

#[test]
fn nix_conf_lists_every_option() {
    assert_eq!(
        nix_conf(7, 9, "a; b", "/h/hook.sh"),
        "min-free = 7\nmax-free = 9\nbuilders = a; b\npost-build-hook = /h/hook.sh\n"
    );
}

#[test]
fn audit_lines_are_unquoted() {
    let cmd = git_remote_add("/scm/x", "https://example.com/r a.git");
    assert_eq!(audit_line(&cmd), "$ git remote add origin -- https://example.com/r a.git");
    assert_eq!(fake_audit_line("export HOME=/tmp"), "$ export HOME=/tmp");
}

#[test]
fn realize_command_selection() {
    assert!(str_ends_with("sub/shell.nix", "shell.nix"));
    assert!(!str_ends_with("default.nix", "shell.nix"));
    let shell = realize_command("shell.nix", "p", "/w", "/bin/sh", "ssh", "/h");
    assert_eq!(shell.program, "nix-shell");
    assert_eq!(shell.args, vec!["shell.nix", "--run", "echo $out", "--argstr", "system", "p", "--keep-going"]);
    assert!(shell.env_clear);
    assert_eq!(
        shell.env,
        vec![
            ("NIX_BUILD_SHELL".to_string(), "/bin/sh".to_string()),
            ("GIT_SSH_COMMAND".to_string(), "ssh".to_string()),
            ("HOME".to_string(), "/h".to_string()),
        ]
    );
    let build = realize_command("default.nix", "p", "/w", "/bin/sh", "ssh", "/h");
    assert_eq!(build.program, "nix-build");
    assert_eq!(build.args, vec!["default.nix", "--argstr", "system", "p", "--keep-going"]);
}
