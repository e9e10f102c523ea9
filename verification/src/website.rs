//! The set-up and the periodic update of the website, as state machines that
//! a driver runs step by step.

use vstd::prelude::*;

use crate::cmd::{clone, git_fetch, git_rev_parse, has_remote_update, hugo_build, pull, CommandSpec};

verus! {

/// Where a periodic update of the website stands. An update fetches the
/// remote, compares the local and remote heads, and only when they differ
/// pulls, rebuilds the site and uploads the search records.
pub enum UpdatePhase {
    Fetch,
    ReadLocalHead,
    ReadRemoteHead { local: String },
    Pull,
    Build,
    Upload,
    Finished { updated: bool },
    Failed { message: String },
}

/// What the driver of an update does next.
pub enum UpdateAction {
    Run(CommandSpec),
    UploadRecords,
    Stop,
}

pub open spec fn is_update_done(p: UpdatePhase) -> bool {
    p is Finished || p is Failed
}

/// How many steps an update has left at most.
pub open spec fn update_rank(p: UpdatePhase) -> nat {
    match p {
        UpdatePhase::Fetch => 6,
        UpdatePhase::ReadLocalHead => 5,
        UpdatePhase::ReadRemoteHead { .. } => 4,
        UpdatePhase::Pull => 3,
        UpdatePhase::Build => 2,
        UpdatePhase::Upload => 1,
        _ => 0,
    }
}

/// The phase after `phase` when it ended with `outcome`.
pub open spec fn update_next(phase: UpdatePhase, outcome: Result<String, String>) -> UpdatePhase {
    if is_update_done(phase) {
        phase
    } else {
        match outcome {
            Err(message) => UpdatePhase::Failed { message },
            Ok(out) => match phase {
                UpdatePhase::Fetch => UpdatePhase::ReadLocalHead,
                UpdatePhase::ReadLocalHead => UpdatePhase::ReadRemoteHead { local: out },
                UpdatePhase::ReadRemoteHead { local } => if local@ != out@ {
                    UpdatePhase::Pull
                } else {
                    UpdatePhase::Finished { updated: false }
                },
                UpdatePhase::Pull => UpdatePhase::Build,
                UpdatePhase::Build => UpdatePhase::Upload,
                UpdatePhase::Upload => UpdatePhase::Finished { updated: true },
                _ => phase,
            },
        }
    }
}

/// The phase reached from `phase` when its steps end with `outcomes`, in
/// order.
pub open spec fn update_run(phase: UpdatePhase, outcomes: Seq<Result<String, String>>) -> UpdatePhase
    decreases outcomes.len(),
{
    if outcomes.len() == 0 {
        phase
    } else {
        update_run(update_next(phase, outcomes[0]), outcomes.drop_first())
    }
}

/// The first phase of an update.
pub fn update_start() -> (r: UpdatePhase)
    ensures
        r is Fetch,
{
    UpdatePhase::Fetch
}

/// The next phase once the current one has run: `outcome` is the command's
/// output (or that the upload succeeded), or the error that ended it. An
/// error ends the update with that error; the heads decide whether the site
/// is pulled and rebuilt; a finished update stays finished.
pub fn update_step(phase: UpdatePhase, outcome: Result<String, String>) -> (r: UpdatePhase)
    ensures
        r == update_next(phase, outcome),
        is_update_done(phase) ==> r == phase,
        !is_update_done(phase) ==> update_rank(r) < update_rank(phase),
        !is_update_done(phase) && outcome is Err ==> (r matches UpdatePhase::Failed { message }
            && message == outcome->Err_0),
        outcome is Ok ==> match phase {
            UpdatePhase::Fetch => r is ReadLocalHead,
            UpdatePhase::ReadLocalHead => (r matches UpdatePhase::ReadRemoteHead { local }
                && local == outcome->Ok_0),
            UpdatePhase::ReadRemoteHead { local } => if local@ != (outcome->Ok_0)@ {
                r is Pull
            } else {
                r == (UpdatePhase::Finished { updated: false })
            },
            UpdatePhase::Pull => r is Build,
            UpdatePhase::Build => r is Upload,
            UpdatePhase::Upload => r == (UpdatePhase::Finished { updated: true }),
            _ => r == phase,
        },
{
    match phase {
        UpdatePhase::Finished { .. } | UpdatePhase::Failed { .. } => phase,
        _ => match outcome {
            Err(message) => UpdatePhase::Failed { message },
            Ok(out) => match phase {
                UpdatePhase::Fetch => UpdatePhase::ReadLocalHead,
                UpdatePhase::ReadLocalHead => UpdatePhase::ReadRemoteHead { local: out },
                UpdatePhase::ReadRemoteHead { local } => {
                    if has_remote_update(&local, &out) {
                        UpdatePhase::Pull
                    } else {
                        UpdatePhase::Finished { updated: false }
                    }
                },
                UpdatePhase::Pull => UpdatePhase::Build,
                UpdatePhase::Build => UpdatePhase::Upload,
                UpdatePhase::Upload => UpdatePhase::Finished { updated: true },
                _ => phase,
            },
        },
    }
}

/// The command (or upload) that the phase runs, given the repository and
/// build directories.
pub fn update_action(phase: &UpdatePhase, repo_dst: &str, build_dst: &str) -> (r: UpdateAction)
    ensures
        *phase is Fetch ==> (r matches UpdateAction::Run(c) && c.program@ == "git"@
            && c.spec_args() == seq!["fetch"@] && c.dir@ == repo_dst@),
        *phase is ReadLocalHead ==> (r matches UpdateAction::Run(c) && c.program@ == "git"@
            && c.spec_args() == seq!["rev-parse"@, "HEAD"@] && c.dir@ == repo_dst@),
        *phase is ReadRemoteHead ==> (r matches UpdateAction::Run(c) && c.program@ == "git"@
            && c.spec_args() == seq!["rev-parse"@, "origin/main"@] && c.dir@ == repo_dst@),
        *phase is Pull ==> (r matches UpdateAction::Run(c) && c.program@ == "git"@
            && c.spec_args() == seq!["pull"@] && c.dir@ == repo_dst@),
        *phase is Build ==> (r matches UpdateAction::Run(c) && c.program@ == "hugo"@
            && c.spec_args() == seq![
            "build"@,
            "--minify"@,
            "--quiet"@,
            "--cleanDestinationDir"@,
            "--destination"@,
            build_dst@,
        ] && c.dir@ == repo_dst@),
        *phase is Upload ==> r is UploadRecords,
        is_update_done(*phase) ==> r is Stop,
{
    match phase {
        UpdatePhase::Fetch => UpdateAction::Run(git_fetch(repo_dst)),
        UpdatePhase::ReadLocalHead => UpdateAction::Run(git_rev_parse(repo_dst, "HEAD")),
        UpdatePhase::ReadRemoteHead { .. } => UpdateAction::Run(
            git_rev_parse(repo_dst, "origin/main"),
        ),
        UpdatePhase::Pull => UpdateAction::Run(pull(repo_dst)),
        UpdatePhase::Build => UpdateAction::Run(hugo_build(repo_dst, build_dst)),
        UpdatePhase::Upload => UpdateAction::UploadRecords,
        _ => UpdateAction::Stop,
    }
}

/// Where the first set-up of the website stands: an old clone is removed,
/// the repository is cloned and built, and the search records are uploaded
/// when the build produced them.
pub enum InitPhase {
    CheckRepoDir,
    RemoveRepoDir,
    Clone,
    Build,
    CheckRecords,
    Upload,
    Finished { uploaded: bool },
    Failed { message: String },
}

/// What the driver of the set-up does next.
pub enum InitAction {
    /// Tell whether this path is a directory.
    CheckIsDir(String),
    /// Remove this directory and everything in it.
    RemoveDir(String),
    Run(CommandSpec),
    /// Tell whether this path is a file.
    CheckIsFile(String),
    UploadRecords,
    Stop,
}

pub open spec fn is_init_done(p: InitPhase) -> bool {
    p is Finished || p is Failed
}

/// How many steps the set-up has left at most.
pub open spec fn init_rank(p: InitPhase) -> nat {
    match p {
        InitPhase::CheckRepoDir => 6,
        InitPhase::RemoveRepoDir => 5,
        InitPhase::Clone => 4,
        InitPhase::Build => 3,
        InitPhase::CheckRecords => 2,
        InitPhase::Upload => 1,
        _ => 0,
    }
}

/// The phase after `phase` when it ended with `outcome`.
pub open spec fn init_next(phase: InitPhase, outcome: Result<bool, String>) -> InitPhase {
    if is_init_done(phase) {
        phase
    } else {
        match outcome {
            Err(message) => InitPhase::Failed { message },
            Ok(yes) => match phase {
                InitPhase::CheckRepoDir => if yes {
                    InitPhase::RemoveRepoDir
                } else {
                    InitPhase::Clone
                },
                InitPhase::RemoveRepoDir => InitPhase::Clone,
                InitPhase::Clone => InitPhase::Build,
                InitPhase::Build => InitPhase::CheckRecords,
                InitPhase::CheckRecords => if yes {
                    InitPhase::Upload
                } else {
                    InitPhase::Finished { uploaded: false }
                },
                InitPhase::Upload => InitPhase::Finished { uploaded: true },
                _ => phase,
            },
        }
    }
}

/// The phase reached from `phase` when its steps end with `outcomes`, in
/// order.
pub open spec fn init_run(phase: InitPhase, outcomes: Seq<Result<bool, String>>) -> InitPhase
    decreases outcomes.len(),
{
    if outcomes.len() == 0 {
        phase
    } else {
        init_run(init_next(phase, outcomes[0]), outcomes.drop_first())
    }
}

/// The first phase of the set-up.
pub fn init_start() -> (r: InitPhase)
    ensures
        r is CheckRepoDir,
{
    InitPhase::CheckRepoDir
}

/// The next phase once the current one has run: `outcome` is the answer of a
/// check (and `Ok` of anything for the other steps), or the error that ended
/// it. An existing repository directory is removed before cloning; the
/// records are uploaded only when the records file exists.
pub fn init_step(phase: InitPhase, outcome: Result<bool, String>) -> (r: InitPhase)
    ensures
        r == init_next(phase, outcome),
        is_init_done(phase) ==> r == phase,
        !is_init_done(phase) ==> init_rank(r) < init_rank(phase),
        !is_init_done(phase) && outcome is Err ==> (r matches InitPhase::Failed { message }
            && message == outcome->Err_0),
        outcome is Ok ==> match phase {
            InitPhase::CheckRepoDir => if outcome->Ok_0 {
                r is RemoveRepoDir
            } else {
                r is Clone
            },
            InitPhase::RemoveRepoDir => r is Clone,
            InitPhase::Clone => r is Build,
            InitPhase::Build => r is CheckRecords,
            InitPhase::CheckRecords => if outcome->Ok_0 {
                r is Upload
            } else {
                r == (InitPhase::Finished { uploaded: false })
            },
            InitPhase::Upload => r == (InitPhase::Finished { uploaded: true }),
            _ => r == phase,
        },
{
    match phase {
        InitPhase::Finished { .. } | InitPhase::Failed { .. } => phase,
        _ => match outcome {
            Err(message) => InitPhase::Failed { message },
            Ok(yes) => match phase {
                InitPhase::CheckRepoDir => if yes {
                    InitPhase::RemoveRepoDir
                } else {
                    InitPhase::Clone
                },
                InitPhase::RemoveRepoDir => InitPhase::Clone,
                InitPhase::Clone => InitPhase::Build,
                InitPhase::Build => InitPhase::CheckRecords,
                InitPhase::CheckRecords => if yes {
                    InitPhase::Upload
                } else {
                    InitPhase::Finished { uploaded: false }
                },
                InitPhase::Upload => InitPhase::Finished { uploaded: true },
                _ => phase,
            },
        },
    }
}

/// The check, removal, command or upload that the phase performs.
pub fn init_action(
    phase: &InitPhase,
    repo_url: &str,
    cwd: &str,
    repo_dst: &str,
    build_dst: &str,
    records_file: &str,
) -> (r: InitAction)
    ensures
        *phase is CheckRepoDir ==> (r matches InitAction::CheckIsDir(p) && p@ == repo_dst@),
        *phase is RemoveRepoDir ==> (r matches InitAction::RemoveDir(p) && p@ == repo_dst@),
        *phase is Clone ==> (r matches InitAction::Run(c) && c.program@ == "git"@
            && c.spec_args() == seq!["clone"@, repo_url@] && c.dir@ == cwd@),
        *phase is Build ==> (r matches InitAction::Run(c) && c.program@ == "hugo"@
            && c.spec_args() == seq![
            "build"@,
            "--minify"@,
            "--quiet"@,
            "--cleanDestinationDir"@,
            "--destination"@,
            build_dst@,
        ] && c.dir@ == repo_dst@),
        *phase is CheckRecords ==> (r matches InitAction::CheckIsFile(p) && p@ == records_file@),
        *phase is Upload ==> r is UploadRecords,
        is_init_done(*phase) ==> r is Stop,
{
    match phase {
        InitPhase::CheckRepoDir => InitAction::CheckIsDir(String::from_str(repo_dst)),
        InitPhase::RemoveRepoDir => InitAction::RemoveDir(String::from_str(repo_dst)),
        InitPhase::Clone => InitAction::Run(clone(repo_url, cwd)),
        InitPhase::Build => InitAction::Run(hugo_build(repo_dst, build_dst)),
        InitPhase::CheckRecords => InitAction::CheckIsFile(String::from_str(records_file)),
        InitPhase::Upload => InitAction::UploadRecords,
        _ => InitAction::Stop,
    }
}

/// An update always ends: whatever its steps yield, it is finished or failed
/// once as many steps as its rank have run (six from the start).
pub proof fn lemma_update_ends(phase: UpdatePhase, outcomes: Seq<Result<String, String>>)
    requires
        outcomes.len() >= update_rank(phase),
    ensures
        is_update_done(update_run(phase, outcomes)),
    decreases outcomes.len(),
{
    if outcomes.len() > 0 {
        let next = update_next(phase, outcomes[0]);
        assert(is_update_done(phase) ==> next == phase);
        lemma_update_ends(next, outcomes.drop_first());
    }
}

/// The site is pulled and rebuilt exactly when the remote head differs from
/// the local head: after the fetch and both reads succeed, the next phase is
/// the pull if the heads differ and an unchanged finish otherwise.
pub proof fn lemma_update_pulls_iff_remote_moved(fetched: String, local: String, remote: String)
    ensures
        update_run(UpdatePhase::Fetch, seq![Ok(fetched), Ok(local), Ok(remote)]) == (if local@
            != remote@ {
            UpdatePhase::Pull
        } else {
            UpdatePhase::Finished { updated: false }
        }),
{
    reveal_with_fuel(update_run, 4);
    let o: Seq<Result<String, String>> = seq![Ok(fetched), Ok(local), Ok(remote)];
    assert(o.drop_first() =~= seq![Ok(local), Ok(remote)]);
    assert(o.drop_first().drop_first() =~= seq![Ok(remote)]);
    assert(o.drop_first().drop_first().drop_first() =~= Seq::<Result<String, String>>::empty());
}

/// A changed site that builds and uploads is reported as updated after the
/// pull, the build and the upload.
pub proof fn lemma_update_after_pull(pulled: String, built: String, uploaded: String)
    ensures
        update_run(UpdatePhase::Pull, seq![Ok(pulled), Ok(built), Ok(uploaded)])
            == (UpdatePhase::Finished { updated: true }),
{
    reveal_with_fuel(update_run, 4);
    let o: Seq<Result<String, String>> = seq![Ok(pulled), Ok(built), Ok(uploaded)];
    assert(o.drop_first() =~= seq![Ok(built), Ok(uploaded)]);
    assert(o.drop_first().drop_first() =~= seq![Ok(uploaded)]);
    assert(o.drop_first().drop_first().drop_first() =~= Seq::<Result<String, String>>::empty());
}

/// A failed update stays failed with its message, whatever comes after.
pub proof fn lemma_update_failure_is_final(message: String, outcomes: Seq<Result<String, String>>)
    ensures
        update_run(UpdatePhase::Failed { message }, outcomes) == (UpdatePhase::Failed { message }),
    decreases outcomes.len(),
{
    if outcomes.len() > 0 {
        lemma_update_failure_is_final(message, outcomes.drop_first());
    }
}

/// The set-up always ends: it is finished or failed once as many steps as
/// its rank have run (six from the start).
pub proof fn lemma_init_ends(phase: InitPhase, outcomes: Seq<Result<bool, String>>)
    requires
        outcomes.len() >= init_rank(phase),
    ensures
        is_init_done(init_run(phase, outcomes)),
    decreases outcomes.len(),
{
    if outcomes.len() > 0 {
        let next = init_next(phase, outcomes[0]);
        assert(is_init_done(phase) ==> next == phase);
        lemma_init_ends(next, outcomes.drop_first());
    }
}

/// An existing repository directory is removed before the repository is
/// cloned again: a found directory leads to its removal, and only then to
/// the clone.
pub proof fn lemma_init_removes_old_clone(removed: bool)
    ensures
        init_next(InitPhase::CheckRepoDir, Ok(true)) is RemoveRepoDir,
        init_next(InitPhase::CheckRepoDir, Ok(false)) is Clone,
        init_run(InitPhase::CheckRepoDir, seq![Ok(true), Ok(removed)]) is Clone,
{
    reveal_with_fuel(init_run, 3);
    let o: Seq<Result<bool, String>> = seq![Ok(true), Ok(removed)];
    assert(o.drop_first() =~= seq![Ok(removed)]);
    assert(o.drop_first().drop_first() =~= Seq::<Result<bool, String>>::empty());
}

/// The search records are uploaded exactly when the build produced the
/// records file.
pub proof fn lemma_init_uploads_iff_records_exist(exists: bool, uploaded: bool)
    ensures
        init_run(InitPhase::CheckRecords, seq![Ok(exists), Ok(uploaded)]) == (InitPhase::Finished {
            uploaded: exists,
        }),
{
    reveal_with_fuel(init_run, 3);
    let o: Seq<Result<bool, String>> = seq![Ok(exists), Ok(uploaded)];
    assert(o.drop_first() =~= seq![Ok(uploaded)]);
    assert(o.drop_first().drop_first() =~= Seq::<Result<bool, String>>::empty());
}

} // verus!
