//! The Git and Hugo commands the server runs, and how their output is read.

use vstd::prelude::*;

use crate::text::{trim_white_space, trim_ws};
use vstd::utf8::{decode_utf8, valid_utf8};

verus! {

/// A program to run, with its arguments and its working directory.
pub struct CommandSpec {
    pub program: String,
    pub args: Vec<String>,
    pub dir: String,
}

pub open spec fn views(v: Seq<String>) -> Seq<Seq<char>> {
    v.map_values(|s: String| s@)
}

impl CommandSpec {
    pub open spec fn spec_args(&self) -> Seq<Seq<char>> {
        views(self.args@)
    }
}

/// Why a finished command gives no output to use.
pub enum CmdFailure {
    /// What it wrote is not UTF-8.
    InvalidUtf8,
    /// It exited unsuccessfully and wrote `stderr`.
    Failed { stderr: String },
}

/// `simdutf8::basic::from_utf8`, which (like `std::str::from_utf8`) accepts
/// exactly the valid UTF-8 byte sequences and reads them as text.
#[verifier::external_body]
fn utf8_text(bytes: &[u8]) -> (r: Option<String>)
    ensures
        r is Some <==> valid_utf8(bytes@),
        r matches Some(s) ==> s@ == decode_utf8(bytes@),
{
    match simdutf8::basic::from_utf8(bytes) {
        Ok(s) => Some(s.to_string()),
        Err(_) => None,
    }
}

/// What a finished command yields: on success its standard output as text
/// without surrounding white space; on failure its standard error.
pub fn command_output(success: bool, stdout: &[u8], stderr: &[u8]) -> (r: Result<String, CmdFailure>)
    ensures
        success && valid_utf8(stdout@) ==> (r matches Ok(s) && s@ == trim_ws(
            decode_utf8(stdout@),
        )),
        success && !valid_utf8(stdout@) ==> r matches Err(CmdFailure::InvalidUtf8),
        !success && valid_utf8(stderr@) ==> (r matches Err(CmdFailure::Failed { stderr: e })
            && e@ == decode_utf8(stderr@)),
        !success && !valid_utf8(stderr@) ==> r matches Err(CmdFailure::InvalidUtf8),
{
    if !success {
        return match utf8_text(stderr) {
            Some(e) => Err(CmdFailure::Failed { stderr: e }),
            None => Err(CmdFailure::InvalidUtf8),
        };
    }
    match utf8_text(stdout) {
        Some(out) => {
            Ok(trim_white_space(out.as_str()))
        },
        None => Err(CmdFailure::InvalidUtf8),
    }
}

fn command(program: &str, dir: &str) -> (r: CommandSpec)
    ensures
        r.program@ == program@,
        r.dir@ == dir@,
        r.args@.len() == 0,
{
    CommandSpec { program: String::from_str(program), args: Vec::new(), dir: String::from_str(dir) }
}

fn push_arg(c: &mut CommandSpec, arg: &str)
    ensures
        final(c).program == old(c).program,
        final(c).dir == old(c).dir,
        final(c).spec_args() == old(c).spec_args().push(arg@),
{
    c.args.push(String::from_str(arg));
    proof {
        assert(views(final(c).args@) =~= views(old(c).args@).push(arg@));
    }
}

/// `git clone <repo_url>` in the working directory.
pub fn clone(repo_url: &str, cwd: &str) -> (r: CommandSpec)
    ensures
        r.program@ == "git"@,
        r.spec_args() == seq!["clone"@, repo_url@],
        r.dir@ == cwd@,
{
    let mut c = command("git", cwd);
    push_arg(&mut c, "clone");
    push_arg(&mut c, repo_url);
    assert(c.spec_args() =~= seq!["clone"@, repo_url@]);
    c
}

/// `git fetch` in the repository.
pub fn git_fetch(repo_dst: &str) -> (r: CommandSpec)
    ensures
        r.program@ == "git"@,
        r.spec_args() == seq!["fetch"@],
        r.dir@ == repo_dst@,
{
    let mut c = command("git", repo_dst);
    push_arg(&mut c, "fetch");
    assert(c.spec_args() =~= seq!["fetch"@]);
    c
}

/// `git rev-parse <rev>` in the repository.
pub fn git_rev_parse(repo_dst: &str, rev: &str) -> (r: CommandSpec)
    ensures
        r.program@ == "git"@,
        r.spec_args() == seq!["rev-parse"@, rev@],
        r.dir@ == repo_dst@,
{
    let mut c = command("git", repo_dst);
    push_arg(&mut c, "rev-parse");
    push_arg(&mut c, rev);
    assert(c.spec_args() =~= seq!["rev-parse"@, rev@]);
    c
}

/// `git pull` in the repository.
pub fn pull(repo_dst: &str) -> (r: CommandSpec)
    ensures
        r.program@ == "git"@,
        r.spec_args() == seq!["pull"@],
        r.dir@ == repo_dst@,
{
    let mut c = command("git", repo_dst);
    push_arg(&mut c, "pull");
    assert(c.spec_args() =~= seq!["pull"@]);
    c
}

/// `hugo build --minify --quiet --cleanDestinationDir --destination
/// <build_dst>` in the repository.
pub fn hugo_build(repo_dst: &str, build_dst: &str) -> (r: CommandSpec)
    ensures
        r.program@ == "hugo"@,
        r.spec_args() == seq![
            "build"@,
            "--minify"@,
            "--quiet"@,
            "--cleanDestinationDir"@,
            "--destination"@,
            build_dst@,
        ],
        r.dir@ == repo_dst@,
{
    let mut c = command("hugo", repo_dst);
    push_arg(&mut c, "build");
    push_arg(&mut c, "--minify");
    push_arg(&mut c, "--quiet");
    push_arg(&mut c, "--cleanDestinationDir");
    push_arg(&mut c, "--destination");
    push_arg(&mut c, build_dst);
    assert(c.spec_args() =~= seq![
        "build"@,
        "--minify"@,
        "--quiet"@,
        "--cleanDestinationDir"@,
        "--destination"@,
        build_dst@,
    ]);
    c
}


/// Whether the remote branch has moved: the local and remote heads (as
/// `git rev-parse` printed them) differ.
pub fn has_remote_update(local_head: &String, remote_head: &String) -> (r: bool)
    ensures
        r == (local_head@ != remote_head@),
{
    !(*local_head == *remote_head)
}

/// The programs the server needs, in the order they are looked for: Git,
/// then Hugo. The first one missing is the one reported.
pub fn required_programs() -> (r: Vec<&'static str>)
    ensures
        r@.len() == 2,
        r@[0]@ == "git"@,
        r@[1]@ == "hugo"@,
{
    let mut v: Vec<&'static str> = Vec::new();
    v.push("git");
    v.push("hugo");
    v
}

} // verus!
