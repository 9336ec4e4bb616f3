//! A decoy `~/.aws/credentials` with long lived and temporary keys.

use vstd::prelude::*;

use super::alphabet::{all_in, push_random, Alphabet};
use super::random::{random_between, random_ratio, sample_indices};
use super::render::{ends_with_pair, listed, pick_name, segments_end_with};
use crate::domain::generator::PayloadGenerator;
use crate::domain::payload::{text_payload, Payload, PayloadView};
use crate::domain::request::{Request, RequestView};
use crate::domain::request_url::path_segments;
use crate::text::{owned, push_str};

verus! {

/// Serves `.aws/credentials` in any directory.
#[derive(Clone, Copy)]
pub struct AwsCredentialsGenerator;

/// The regions of decoy profiles.
pub open spec fn aws_regions() -> Seq<&'static str> {
    seq!["us-east-1", "us-east-2", "us-west-2", "eu-west-1", "eu-central-1", "ap-southeast-1"]
}

/// The names of the profiles added after `default`.
pub open spec fn extra_profiles() -> Seq<&'static str> {
    seq!["prod", "production", "staging", "dev", "terraform", "deploy", "backup", "s3-uploader"]
}

/// One profile of a decoy credentials file.
pub struct CredentialsProfile {
    pub name: Seq<char>,
    pub temporary: bool,
    pub key_suffix: Seq<char>,
    pub secret: Seq<char>,
    pub token: Seq<char>,
    pub region: Seq<char>,
}

/// A profile's keys have the shapes AWS gives them: a key id suffix of 16
/// base32 characters, a 40 character secret and, for temporary credentials
/// only, a 356 character session token.
pub open spec fn profile_ok(p: CredentialsProfile) -> bool {
    &&& p.key_suffix.len() == 16 && all_in(Alphabet::Base32, p.key_suffix)
    &&& p.secret.len() == 40 && all_in(Alphabet::Base64, p.secret)
    &&& p.temporary ==> p.token.len() == 356 && all_in(Alphabet::Base64, p.token)
    &&& listed(aws_regions(), p.region)
}

/// The profiles of a decoy: `default`, then one or two distinct profiles of
/// `extra_profiles`, at the positions `at` of that list.
pub open spec fn credentials_ok(at: Seq<int>, ps: Seq<CredentialsProfile>) -> bool {
    &&& 1 <= at.len() <= 2
    &&& ps.len() == at.len() + 1
    &&& ps[0].name == "default"@
    &&& forall|k: int| 0 <= k < at.len() ==> 0 <= #[trigger] at[k] < 8 && ps[k + 1].name == extra_profiles()[at[k]]@
    &&& forall|k: int, l: int| 0 <= k < l < at.len() ==> #[trigger] at[k] != #[trigger] at[l]
    &&& forall|k: int| 0 <= k < ps.len() ==> profile_ok(#[trigger] ps[k])
}

/// The access key id of a profile: `ASIA` for temporary credentials, `AKIA`
/// for long lived ones, then the suffix.
pub open spec fn access_key_id(p: CredentialsProfile) -> Seq<char> {
    (if p.temporary { "ASIA"@ } else { "AKIA"@ }) + p.key_suffix
}

/// The section of one profile.
pub open spec fn profile_text(p: CredentialsProfile) -> Seq<char> {
    "["@ + p.name + "]\naws_access_key_id = "@ + access_key_id(p) + "\naws_secret_access_key = "@
        + p.secret + "\n"@ + (if p.temporary {
        "aws_session_token = "@ + p.token + "\n"@
    } else {
        Seq::<char>::empty()
    }) + "region = "@ + p.region + "\n\n"@
}

/// The text of a decoy credentials file: its profiles' sections in order.
pub open spec fn credentials_text(ps: Seq<CredentialsProfile>) -> Seq<char>
    decreases ps.len(),
{
    if ps.len() == 0 {
        Seq::<char>::empty()
    } else {
        credentials_text(ps.drop_last()) + profile_text(ps.last())
    }
}

/// Draws one profile's keys and region and appends its section.
fn push_profile(text: &mut String, name: &str, regions: &[&'static str]) -> (p: Ghost<CredentialsProfile>)
    requires
        regions@ == aws_regions(),
    ensures
        p@.name == name@,
        profile_ok(p@),
        final(text)@ == old(text)@ + profile_text(p@),
{
    // Temporary STS credentials are short lived so only a minority of the
    // profiles carry a session token, the rest are long lived IAM users.
    let temporary = random_ratio(1, 4);
    let mut suffix = String::new();
    push_random(&mut suffix, Alphabet::Base32, 16);
    assert(suffix@.skip(0) == suffix@);
    let mut secret = String::new();
    push_random(&mut secret, Alphabet::Base64, 40);
    assert(secret@.skip(0) == secret@);
    let mut token = String::new();
    if temporary {
        push_random(&mut token, Alphabet::Base64, 356);
        assert(token@.skip(0) == token@);
    }
    let region = pick_name(regions);

    push_str(text, "[");
    push_str(text, name);
    push_str(text, "]\naws_access_key_id = ");
    if temporary {
        push_str(text, "ASIA");
    } else {
        push_str(text, "AKIA");
    }
    push_str(text, suffix.as_str());
    push_str(text, "\naws_secret_access_key = ");
    push_str(text, secret.as_str());
    push_str(text, "\n");
    let ghost mid = text@;
    if temporary {
        push_str(text, "aws_session_token = ");
        push_str(text, token.as_str());
        push_str(text, "\n");
    }
    push_str(text, "region = ");
    push_str(text, region);
    push_str(text, "\n\n");
    let ghost p = CredentialsProfile {
        name: name@,
        temporary,
        key_suffix: suffix@,
        secret: secret@,
        token: token@,
        region: region@,
    };
    assert(text@ == old(text)@ + profile_text(p));
    Ghost(p)
}

/// Draws the profiles and renders the decoy.
fn build_credentials() -> (text: String)
    ensures
        exists|at: Seq<int>, ps: Seq<CredentialsProfile>|
            credentials_ok(at, ps) && text@ == credentials_text(ps),
{
    let regions: [&'static str; 6] = [
        "us-east-1",
        "us-east-2",
        "us-west-2",
        "eu-west-1",
        "eu-central-1",
        "ap-southeast-1",
    ];
    let extra: [&'static str; 8] = [
        "prod",
        "production",
        "staging",
        "dev",
        "terraform",
        "deploy",
        "backup",
        "s3-uploader",
    ];
    assert(regions@ == aws_regions());
    assert(extra@ == extra_profiles());

    let extra_count = random_between(1, 2) as usize;
    let at = sample_indices(8, extra_count);

    let mut text = String::new();
    let first = push_profile(&mut text, "default", &regions);
    let ghost mut ps: Seq<CredentialsProfile> = seq![first@];
    assert(ps.drop_last() == Seq::<CredentialsProfile>::empty());
    assert(Seq::<char>::empty() + profile_text(first@) == profile_text(first@));
    assert(credentials_text(Seq::<CredentialsProfile>::empty()) == Seq::<char>::empty());
    assert(ps.last() == first@);
    assert(credentials_text(ps) == profile_text(first@));
    let mut k: usize = 0;
    while k < at.len()
        invariant
            k <= at.len() == extra_count,
            1 <= extra_count <= 2,
            regions@ == aws_regions(),
            extra@ == extra_profiles(),
            forall|i: int| 0 <= i < at@.len() ==> #[trigger] at@[i] < 8,
            ps.len() == k + 1,
            ps[0].name == "default"@,
            forall|i: int| 0 <= i < k ==> ps[i + 1].name == extra_profiles()[#[trigger] at@[i] as int]@,
            forall|i: int| 0 <= i < ps.len() ==> profile_ok(#[trigger] ps[i]),
            text@ == credentials_text(ps),
        decreases at.len() - k,
    {
        let name = extra[at[k]];
        let p = push_profile(&mut text, name, &regions);
        proof {
            let old_ps = ps;
            ps = ps.push(p@);
            assert(ps.drop_last() == old_ps);
        }
        k = k + 1;
    }
    let ghost positions = at@.map_values(|i: usize| i as int);
    assert(credentials_ok(positions, ps));
    text
}

impl AwsCredentialsGenerator {
    /// The generator.
    pub fn new() -> Self {
        AwsCredentialsGenerator
    }
}

impl Default for AwsCredentialsGenerator {
    fn default() -> (g: Self)
        ensures
            g == AwsCredentialsGenerator,
    {
        AwsCredentialsGenerator
    }
}

impl PayloadGenerator for AwsCredentialsGenerator {
    open spec fn spec_name(&self) -> Seq<char> {
        "aws_credentials"@
    }

    open spec fn handles(&self, request: RequestView) -> bool {
        ends_with_pair(path_segments(request.url.path), ".aws"@, "credentials"@)
    }

    open spec fn produces(&self, request: RequestView, payload: PayloadView) -> bool {
        exists|at: Seq<int>, ps: Seq<CredentialsProfile>|
            credentials_ok(at, ps) && payload == text_payload(credentials_text(ps))
    }

    fn name(&self) -> (n: &'static str) {
        "aws_credentials"
    }

    fn supports(&self, request: &Request) -> (b: bool) {
        let segs = request.url().segments();
        segments_end_with(&segs, ".aws", "credentials")
    }

    fn generate(&self, request: &Request) -> (p: Payload) {
        Payload::text(build_credentials())
    }
}

} // verus!

verus! {

/// Every decoy holds the `default` profile and at least one more.
pub proof fn lemma_credentials_have_several_profiles(at: Seq<int>, ps: Seq<CredentialsProfile>)
    requires
        credentials_ok(at, ps),
    ensures
        ps.len() >= 2,
        ps[0].name == "default"@,
{
}

/// Access key ids have the shape of AWS's: twenty characters, `AKIA` or
/// `ASIA` and then base32; secrets have forty characters.
pub proof fn lemma_keys_have_realistic_shapes(at: Seq<int>, ps: Seq<CredentialsProfile>, k: int)
    requires
        credentials_ok(at, ps),
        0 <= k < ps.len(),
    ensures
        access_key_id(ps[k]).len() == 20,
        access_key_id(ps[k]).take(4) == "AKIA"@ || access_key_id(ps[k]).take(4) == "ASIA"@,
        all_in(Alphabet::Base32, access_key_id(ps[k]).skip(4)),
        ps[k].secret.len() == 40,
{
    reveal_strlit("AKIA");
    reveal_strlit("ASIA");
    let p = ps[k];
    assert(profile_ok(p));
    let prefix = if p.temporary { "ASIA"@ } else { "AKIA"@ };
    assert((prefix + p.key_suffix).take(4) =~= prefix);
    assert((prefix + p.key_suffix).skip(4) =~= p.key_suffix);
}

/// Only temporary credentials carry a session token, and those are exactly
/// the ones whose key id starts with `ASIA`.
pub proof fn lemma_session_tokens_only_with_temporary_keys(p: CredentialsProfile)
    ensures
        p.temporary <==> access_key_id(p).take(4) == "ASIA"@,
        profile_text(p) == "["@ + p.name + "]\naws_access_key_id = "@ + access_key_id(p)
            + "\naws_secret_access_key = "@ + p.secret + "\n"@ + (if p.temporary {
            "aws_session_token = "@ + p.token + "\n"@
        } else {
            Seq::<char>::empty()
        }) + "region = "@ + p.region + "\n\n"@,
{
    reveal_strlit("AKIA");
    reveal_strlit("ASIA");
    let prefix = if p.temporary { "ASIA"@ } else { "AKIA"@ };
    assert((prefix + p.key_suffix).take(4) =~= prefix);
    if !p.temporary {
        assert("AKIA"@[1] != "ASIA"@[1]);
    }
}

} // verus!

verus! {

/// `.aws/credentials` is recognised in any directory.
pub proof fn lemma_credentials_in_any_directory(
    g: AwsCredentialsGenerator,
    request: RequestView,
    dir: Seq<char>,
)
    requires
        request.url.path == dir + "/.aws/credentials"@,
    ensures
        g.handles(request),
{
    reveal_strlit("/.aws/credentials");
    reveal_strlit(".aws");
    reveal_strlit("credentials");
    assert(!".aws"@.contains('/'));
    assert(!"credentials"@.contains('/'));
    assert(dir + "/.aws/credentials"@ == dir + seq!['/'] + ".aws"@ + seq!['/'] + "credentials"@);
    super::render::lemma_pair_in_any_directory(dir, ".aws"@, "credentials"@);
}

} // verus!
