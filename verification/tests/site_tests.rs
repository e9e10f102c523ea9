use hugo_server::cmd::{
    clone, command_output, has_remote_update, hugo_build, required_programs, CmdFailure,
};
use hugo_server::website::{
    init_action, init_start, init_step, update_action, update_start, update_step, InitAction,
    InitPhase, UpdateAction, UpdatePhase,
};

#[test]
fn output_is_trimmed_on_success() {
    let r = command_output(true, b"  3f2a9c\n", b"");
    assert_eq!(r.ok().unwrap(), "3f2a9c");
}

#[test]
fn stderr_is_reported_on_failure() {
    match command_output(false, b"", b"fatal: not a git repository") {
        Err(CmdFailure::Failed { stderr }) => assert_eq!(stderr, "fatal: not a git repository"),
        _ => panic!("expected a failure"),
    }
}

#[test]
fn invalid_utf8_is_an_error() {
    assert!(matches!(command_output(true, &[0xff, 0xfe], b""), Err(CmdFailure::InvalidUtf8)));
    assert!(matches!(command_output(false, b"", &[0xc3]), Err(CmdFailure::InvalidUtf8)));
}

#[test]
fn commands_have_their_arguments() {
    let c = clone("https://github.com/u/blog.git", "/srv");
    assert_eq!(c.program, "git");
    assert_eq!(c.args, vec!["clone", "https://github.com/u/blog.git"]);
    assert_eq!(c.dir, "/srv");
    let h = hugo_build("/srv/blog", "/srv/blog/public");
    assert_eq!(h.program, "hugo");
    assert_eq!(
        h.args,
        vec!["build", "--minify", "--quiet", "--cleanDestinationDir", "--destination", "/srv/blog/public"]
    );
    assert_eq!(h.dir, "/srv/blog");
}

fn run_update(local: &str, remote: &str) -> (Vec<String>, UpdatePhase) {
    let mut phase = update_start();
    let mut done = Vec::new();
    loop {
        match update_action(&phase, "/srv/blog", "/srv/blog/public") {
            UpdateAction::Run(c) => {
                done.push(format!("{} {}", c.program, c.args.join(" ")));
                let out = if c.args == vec!["rev-parse", "HEAD"] {
                    local.to_string()
                } else if c.args == vec!["rev-parse", "origin/main"] {
                    remote.to_string()
                } else {
                    String::new()
                };
                phase = update_step(phase, Ok(out));
            }
            UpdateAction::UploadRecords => {
                done.push("upload".to_string());
                phase = update_step(phase, Ok(String::new()));
            }
            UpdateAction::Stop => return (done, phase),
        }
    }
}

#[test]
fn a_changed_remote_is_pulled_and_rebuilt() {
    let (done, end) = run_update("aaa", "bbb");
    assert_eq!(
        done,
        vec![
            "git fetch",
            "git rev-parse HEAD",
            "git rev-parse origin/main",
            "git pull",
            "hugo build --minify --quiet --cleanDestinationDir --destination /srv/blog/public",
            "upload",
        ]
    );
    assert!(matches!(end, UpdatePhase::Finished { updated: true }));
}

#[test]
fn an_unchanged_remote_is_left_alone() {
    let (done, end) = run_update("aaa", "aaa");
    assert_eq!(done, vec!["git fetch", "git rev-parse HEAD", "git rev-parse origin/main"]);
    assert!(matches!(end, UpdatePhase::Finished { updated: false }));
}

#[test]
fn a_failed_step_ends_the_update() {
    let p = update_step(UpdatePhase::Pull, Err("merge conflict".to_string()));
    match &p {
        UpdatePhase::Failed { message } => assert_eq!(message, "merge conflict"),
        _ => panic!("expected a failure"),
    }
    assert!(matches!(update_action(&p, "/r", "/b"), UpdateAction::Stop));
    assert!(matches!(update_step(p, Ok(String::new())), UpdatePhase::Failed { .. }));
}

fn run_init(repo_exists: bool, records_exist: bool) -> (Vec<String>, InitPhase) {
    let mut phase = init_start();
    let mut done = Vec::new();
    loop {
        let a = init_action(
            &phase,
            "https://github.com/u/blog.git",
            "/srv",
            "/srv/blog",
            "/srv/blog/public",
            "/srv/blog/public/algolia.json",
        );
        match a {
            InitAction::CheckIsDir(p) => {
                done.push(format!("is_dir {p}"));
                phase = init_step(phase, Ok(repo_exists));
            }
            InitAction::RemoveDir(p) => {
                done.push(format!("remove {p}"));
                phase = init_step(phase, Ok(true));
            }
            InitAction::Run(c) => {
                done.push(format!("{} {}", c.program, c.args.join(" ")));
                phase = init_step(phase, Ok(true));
            }
            InitAction::CheckIsFile(p) => {
                done.push(format!("is_file {p}"));
                phase = init_step(phase, Ok(records_exist));
            }
            InitAction::UploadRecords => {
                done.push("upload".to_string());
                phase = init_step(phase, Ok(true));
            }
            InitAction::Stop => return (done, phase),
        }
    }
}

#[test]
fn an_old_clone_is_removed_first() {
    let (done, end) = run_init(true, true);
    assert_eq!(
        done,
        vec![
            "is_dir /srv/blog",
            "remove /srv/blog",
            "git clone https://github.com/u/blog.git",
            "hugo build --minify --quiet --cleanDestinationDir --destination /srv/blog/public",
            "is_file /srv/blog/public/algolia.json",
            "upload",
        ]
    );
    assert!(matches!(end, InitPhase::Finished { uploaded: true }));
}

#[test]
fn records_are_uploaded_only_when_built() {
    let (done, end) = run_init(false, false);
    assert_eq!(
        done,
        vec![
            "is_dir /srv/blog",
            "git clone https://github.com/u/blog.git",
            "hugo build --minify --quiet --cleanDestinationDir --destination /srv/blog/public",
            "is_file /srv/blog/public/algolia.json",
        ]
    );
    assert!(matches!(end, InitPhase::Finished { uploaded: false }));
}

#[test]
fn differing_heads_mean_an_update() {
    assert!(has_remote_update(&"3f2a9c".to_string(), &"8e1b07".to_string()));
    assert!(!has_remote_update(&"3f2a9c".to_string(), &"3f2a9c".to_string()));
}

#[test]
fn git_is_looked_for_before_hugo() {
    assert_eq!(required_programs(), vec!["git", "hugo"]);
}
