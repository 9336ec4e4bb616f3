//! A decoy `.git/config` with a deploy token in the remote URL.

use vstd::prelude::*;

use super::alphabet::{all_in, push_random, Alphabet};
use super::render::{ends_with_pair, listed, pick_name, segments_end_with};
use crate::domain::generator::PayloadGenerator;
use crate::domain::payload::{text_payload, Payload, PayloadView};
use crate::domain::request::{Request, RequestView};
use crate::domain::request_url::path_segments;
use crate::text::{owned, push_str};

verus! {

/// Serves `.git/config` in any directory.
#[derive(Clone, Copy)]
pub struct GitConfigGenerator;

/// The organisations a decoy repository belongs to.
pub open spec fn git_orgs() -> Seq<&'static str> {
    seq!["acme", "globex", "initech", "umbrella", "hooli"]
}

/// The names of decoy repositories.
pub open spec fn git_repos() -> Seq<&'static str> {
    seq!["backend", "api", "webapp", "infra", "platform"]
}

/// The users a decoy token belongs to.
pub open spec fn git_users() -> Seq<&'static str> {
    seq!["deploy", "ci-bot", "jenkins", "gitlab-runner", "svc-build"]
}

/// The values filled into a decoy `.git/config`.
pub struct GitConfigFields {
    pub user: Seq<char>,
    pub token: Seq<char>,
    pub org: Seq<char>,
    pub repo: Seq<char>,
}

/// The fields a decoy may hold: listed names and a GitHub-style token,
/// `ghp_` and 36 letters or digits.
pub open spec fn git_fields_ok(f: GitConfigFields) -> bool {
    &&& listed(git_users(), f.user)
    &&& listed(git_orgs(), f.org)
    &&& listed(git_repos(), f.repo)
    &&& f.token.len() == 40
    &&& f.token.take(4) == "ghp_"@
    &&& all_in(Alphabet::Alphanumeric, f.token.skip(4))
}

/// The text of a decoy `.git/config`.
pub open spec fn gitconfig_text(f: GitConfigFields) -> Seq<char> {
    "[core]\n\trepositoryformatversion = 0\n\tfilemode = true\n\tbare = false\n\tlogallrefupdates = true\n[remote \"origin\"]\n\turl = https://"@
        + f.user + ":"@ + f.token + "@github.com/"@ + f.org + "/"@ + f.repo
        + ".git\n\tfetch = +refs/heads/*:refs/remotes/origin/*\n[branch \"main\"]\n\tremote = origin\n\tmerge = refs/heads/main\n"@
}

/// Draws the fields and renders the decoy.
fn build_gitconfig() -> (text: String)
    ensures
        exists|f: GitConfigFields| git_fields_ok(f) && text@ == gitconfig_text(f),
{
    let orgs: [&'static str; 5] = ["acme", "globex", "initech", "umbrella", "hooli"];
    let repos: [&'static str; 5] = ["backend", "api", "webapp", "infra", "platform"];
    let users: [&'static str; 5] = ["deploy", "ci-bot", "jenkins", "gitlab-runner", "svc-build"];
    assert(orgs@ == git_orgs());
    assert(repos@ == git_repos());
    assert(users@ == git_users());
    let user = pick_name(&users);
    let mut token = owned("ghp_");
    proof {
        reveal_strlit("ghp_");
    }
    push_random(&mut token, Alphabet::Alphanumeric, 36);
    let org = pick_name(&orgs);
    let repo = pick_name(&repos);

    let mut text = owned(
        "[core]\n\trepositoryformatversion = 0\n\tfilemode = true\n\tbare = false\n\tlogallrefupdates = true\n[remote \"origin\"]\n\turl = https://",
    );
    push_str(&mut text, user);
    push_str(&mut text, ":");
    push_str(&mut text, token.as_str());
    push_str(&mut text, "@github.com/");
    push_str(&mut text, org);
    push_str(&mut text, "/");
    push_str(&mut text, repo);
    push_str(
        &mut text,
        ".git\n\tfetch = +refs/heads/*:refs/remotes/origin/*\n[branch \"main\"]\n\tremote = origin\n\tmerge = refs/heads/main\n",
    );
    let ghost f = GitConfigFields { user: user@, token: token@, org: org@, repo: repo@ };
    assert(git_fields_ok(f));
    assert(text@ == gitconfig_text(f));
    text
}

impl GitConfigGenerator {
    /// The generator.
    pub fn new() -> Self {
        GitConfigGenerator
    }
}

impl Default for GitConfigGenerator {
    fn default() -> (g: Self)
        ensures
            g == GitConfigGenerator,
    {
        GitConfigGenerator
    }
}

impl PayloadGenerator for GitConfigGenerator {
    open spec fn spec_name(&self) -> Seq<char> {
        "gitconfig"@
    }

    open spec fn handles(&self, request: RequestView) -> bool {
        ends_with_pair(path_segments(request.url.path), ".git"@, "config"@)
    }

    open spec fn produces(&self, request: RequestView, payload: PayloadView) -> bool {
        exists|f: GitConfigFields| git_fields_ok(f) && payload == text_payload(gitconfig_text(f))
    }

    fn name(&self) -> (n: &'static str) {
        "gitconfig"
    }

    fn supports(&self, request: &Request) -> (b: bool) {
        let segs = request.url().segments();
        segments_end_with(&segs, ".git", "config")
    }

    fn generate(&self, request: &Request) -> (p: Payload) {
        Payload::text(build_gitconfig())
    }
}

} // verus!

verus! {

/// `.git/config` is recognised in any directory.
pub proof fn lemma_git_config_in_any_directory(
    g: GitConfigGenerator,
    request: RequestView,
    dir: Seq<char>,
)
    requires
        request.url.path == dir + "/.git/config"@,
    ensures
        g.handles(request),
{
    reveal_strlit("/.git/config");
    reveal_strlit(".git");
    reveal_strlit("config");
    assert(!".git"@.contains('/'));
    assert(!"config"@.contains('/'));
    assert(dir + "/.git/config"@ == dir + seq!['/'] + ".git"@ + seq!['/'] + "config"@);
    super::render::lemma_pair_in_any_directory(dir, ".git"@, "config"@);
}

} // verus!
