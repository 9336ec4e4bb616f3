//! A decoy `~/.aws/config` with profiles that assume roles, either through
//! IAM Identity Center or from the default credentials.

use vstd::prelude::*;

use super::alphabet::{all_in, decimal, push_decimal, random_text, Alphabet};
use super::aws_credentials::aws_regions;
use super::ini::{render_sections, sections_text, sections_view, Section, SectionView};
use super::random::{random_between, random_ratio, sample_indices};
use super::render::{ends_with_pair, listed, pick_name, segments_end_with};
use crate::domain::generator::PayloadGenerator;
use crate::domain::payload::{text_payload, Payload, PayloadView};
use crate::domain::request::{Request, RequestView};
use crate::domain::request_url::path_segments;
use crate::text::{has_prefix, owned, push_str};

verus! {

/// Serves `.aws/config` in any directory.
#[derive(Clone, Copy)]
pub struct AwsConfigGenerator;

/// The names of decoy profiles.
pub open spec fn config_profiles() -> Seq<&'static str> {
    seq!["prod", "production", "staging", "dev", "terraform", "deploy", "backup", "s3-uploader"]
}

/// The roles decoy profiles assume.
pub open spec fn config_roles() -> Seq<&'static str> {
    seq![
        "OrganizationAccountAccessRole",
        "AdministratorAccess",
        "PowerUserAccess",
        "TerraformExecutionRole",
        "DeploymentRole",
    ]
}

/// The organisations decoys belong to.
pub open spec fn config_orgs() -> Seq<&'static str> {
    seq!["acme", "globex", "initech", "umbrella", "hooli"]
}

/// The users whose MFA devices decoy profiles name.
pub open spec fn config_users() -> Seq<&'static str> {
    seq!["jenkins", "svc-build", "m.novak", "a.schmidt", "ops"]
}

/// What was drawn for one profile.
pub struct ProfileDraw {
    /// The position of its name in `config_profiles`.
    pub at: int,
    pub region: Seq<char>,
    pub account: nat,
    pub role: Seq<char>,
    pub mfa_user: Option<Seq<char>>,
}

/// What was drawn for a decoy.
pub struct AwsConfigDraws {
    pub org: Seq<char>,
    pub home_region: Seq<char>,
    /// With IAM Identity Center: the hexadecimal id in its start URL.
    pub sso_id: Option<Seq<char>>,
    pub profiles: Seq<ProfileDraw>,
}

/// AWS account ids are twelve digit numbers.
pub open spec fn is_account_id(n: nat) -> bool {
    100_000_000_000 <= n <= 999_999_999_999
}

/// The draws a decoy may be made of: listed names, one to three distinct
/// profiles, twelve digit account ids, and MFA devices only for profiles
/// that assume their role from the default credentials.
pub open spec fn draws_ok(d: AwsConfigDraws) -> bool {
    &&& listed(config_orgs(), d.org)
    &&& listed(aws_regions(), d.home_region)
    &&& (d.sso_id matches Some(id) ==> id.len() == 10 && all_in(Alphabet::Hex, id))
    &&& 1 <= d.profiles.len() <= 3
    &&& forall|k: int| 0 <= k < d.profiles.len() ==> profile_draw_ok(d, #[trigger] d.profiles[k])
    &&& forall|k: int, l: int|
        0 <= k < l < d.profiles.len() ==> #[trigger] d.profiles[k].at != #[trigger] d.profiles[l].at
}

/// One profile's draws.
pub open spec fn profile_draw_ok(d: AwsConfigDraws, p: ProfileDraw) -> bool {
    &&& 0 <= p.at < 8
    &&& listed(aws_regions(), p.region)
    &&& is_account_id(p.account)
    &&& listed(config_roles(), p.role)
    &&& (p.mfa_user matches Some(u) ==> d.sso_id is None && listed(config_users(), u))
}

/// The name of the shared IAM Identity Center session.
pub open spec fn session_name(d: AwsConfigDraws) -> Seq<char> {
    d.org + "-sso"@
}

/// The `[default]` section.
pub open spec fn default_section(d: AwsConfigDraws) -> SectionView {
    SectionView { header: "default"@, settings: seq![("region"@, d.home_region), ("output"@, "json"@)] }
}

/// The `[sso-session ...]` section, emitted once and referenced by every
/// profile.
pub open spec fn session_section(d: AwsConfigDraws, id: Seq<char>) -> SectionView {
    SectionView {
        header: "sso-session "@ + session_name(d),
        settings: seq![
            ("sso_start_url"@, "https://d-"@ + id + ".awsapps.com/start"@),
            ("sso_region"@, d.home_region),
            ("sso_registration_scopes"@, "sso:account:access"@),
        ],
    }
}

/// The ARN of an IAM resource of an account.
pub open spec fn iam_arn(account: nat, kind: Seq<char>, name: Seq<char>) -> Seq<char> {
    "arn:aws:iam::"@ + decimal(account) + ":"@ + kind + "/"@ + name
}

/// How a profile obtains its role.
pub open spec fn access_settings(d: AwsConfigDraws, p: ProfileDraw) -> Seq<(Seq<char>, Seq<char>)> {
    match d.sso_id {
        Some(_) => seq![
            ("sso_session"@, session_name(d)),
            ("sso_account_id"@, decimal(p.account)),
            ("sso_role_name"@, p.role),
        ],
        None => seq![
            ("role_arn"@, iam_arn(p.account, "role"@, p.role)),
            ("source_profile"@, "default"@),
        ] + match p.mfa_user {
            Some(u) => seq![("mfa_serial"@, iam_arn(p.account, "mfa"@, u))],
            None => Seq::empty(),
        },
    }
}

/// A `[profile ...]` section.
pub open spec fn profile_section(d: AwsConfigDraws, p: ProfileDraw) -> SectionView {
    SectionView {
        header: "profile "@ + config_profiles()[p.at]@,
        settings: access_settings(d, p) + seq![("region"@, p.region), ("output"@, "json"@)],
    }
}

/// The sections of a decoy: `default`, the session if there is one, then
/// the profiles.
pub open spec fn config_sections(d: AwsConfigDraws) -> Seq<SectionView> {
    seq![default_section(d)] + match d.sso_id {
        Some(id) => seq![session_section(d, id)],
        None => Seq::empty(),
    } + d.profiles.map_values(|p: ProfileDraw| profile_section(d, p))
}

/// The section of one profile, built from its draws.
fn build_profile(
    name: &str,
    session: &Option<String>,
    regions: &[&'static str],
    roles: &[&'static str],
    users: &[&'static str],
    d: Ghost<AwsConfigDraws>,
    at: Ghost<int>,
) -> (r: (Section, Ghost<ProfileDraw>))
    requires
        regions@ == aws_regions(),
        roles@ == config_roles(),
        users@ == config_users(),
        0 <= at@ < 8,
        name@ == config_profiles()[at@]@,
        match *session {
            Some(s) => d@.sso_id is Some && s@ == session_name(d@),
            None => d@.sso_id is None,
        },
    ensures
        r.1@.at == at@,
        profile_draw_ok(d@, r.1@),
        r.0@ == profile_section(d@, r.1@),
{
    let region = pick_name(regions);
    let account = random_between(100_000_000_000, 999_999_999_999);
    let mut header = owned("profile ");
    push_str(&mut header, name);
    let section = Section::new(header);
    let mut mfa_user: Option<&'static str> = None;
    let role;
    let section = match session {
        Some(s) => {
            let mut id = String::new();
            push_decimal(&mut id, account);
            role = pick_name(roles);
            section.with("sso_session", s.clone()).with("sso_account_id", id).with(
                "sso_role_name",
                owned(role),
            )
        },
        None => {
            role = pick_name(roles);
            let mut arn = owned("arn:aws:iam::");
            push_decimal(&mut arn, account);
            push_str(&mut arn, ":");
            push_str(&mut arn, "role");
            push_str(&mut arn, "/");
            push_str(&mut arn, role);
            let section = section.with("role_arn", arn).with("source_profile", owned("default"));
            if random_ratio(2, 5) {
                let user = pick_name(users);
                mfa_user = Some(user);
                let mut serial = owned("arn:aws:iam::");
                push_decimal(&mut serial, account);
                push_str(&mut serial, ":");
                push_str(&mut serial, "mfa");
                push_str(&mut serial, "/");
                push_str(&mut serial, user);
                section.with("mfa_serial", serial)
            } else {
                section
            }
        },
    };
    let section = section.with("region", owned(region)).with("output", owned("json"));
    let ghost p = ProfileDraw {
        at: at@,
        region: region@,
        account: account as nat,
        role: role@,
        mfa_user: match mfa_user {
            Some(u) => Some(u@),
            None => None,
        },
    };
    assert(section@.settings =~= profile_section(d@, p).settings);
    (section, Ghost(p))
}

/// Draws the sections of a decoy.
fn build_sections() -> (secs: Vec<Section>)
    ensures
        exists|d: AwsConfigDraws| draws_ok(d) && sections_view(secs@) == config_sections(d),
{
    let regions: [&'static str; 6] = [
        "us-east-1",
        "us-east-2",
        "us-west-2",
        "eu-west-1",
        "eu-central-1",
        "ap-southeast-1",
    ];
    let profiles: [&'static str; 8] = [
        "prod",
        "production",
        "staging",
        "dev",
        "terraform",
        "deploy",
        "backup",
        "s3-uploader",
    ];
    let roles: [&'static str; 5] = [
        "OrganizationAccountAccessRole",
        "AdministratorAccess",
        "PowerUserAccess",
        "TerraformExecutionRole",
        "DeploymentRole",
    ];
    let orgs: [&'static str; 5] = ["acme", "globex", "initech", "umbrella", "hooli"];
    let users: [&'static str; 5] = ["jenkins", "svc-build", "m.novak", "a.schmidt", "ops"];
    assert(regions@ == aws_regions());
    assert(profiles@ == config_profiles());
    assert(roles@ == config_roles());
    assert(orgs@ == config_orgs());
    assert(users@ == config_users());

    let org = pick_name(&orgs);
    let home_region = pick_name(&regions);

    let mut sections: Vec<Section> = Vec::new();
    let first = Section::new(owned("default")).with("region", owned(home_region)).with(
        "output",
        owned("json"),
    );
    assert(first@.settings =~= seq![("region"@, home_region@), ("output"@, "json"@)]);
    sections.push(first);

    // AWS Identity Center pushes everything through a single shared session so
    // the session section is emitted once and referenced by every profile
    // belonging to it.
    let mut sso_id: Option<String> = None;
    let mut session: Option<String> = None;
    if random_ratio(1, 2) {
        let mut name = owned(org);
        push_str(&mut name, "-sso");
        let id = random_text(Alphabet::Hex, 10);
        let mut url = owned("https://d-");
        push_str(&mut url, id.as_str());
        push_str(&mut url, ".awsapps.com/start");
        let mut header = owned("sso-session ");
        push_str(&mut header, name.as_str());
        let session_sec = Section::new(header).with("sso_start_url", url).with(
            "sso_region",
            owned(home_region),
        ).with("sso_registration_scopes", owned("sso:account:access"));
        assert(session_sec@.settings =~= seq![
            ("sso_start_url"@, "https://d-"@ + id@ + ".awsapps.com/start"@),
            ("sso_region"@, home_region@),
            ("sso_registration_scopes"@, "sso:account:access"@),
        ]);
        sections.push(session_sec);
        sso_id = Some(id);
        session = Some(name);
    }
    let ghost mut d = AwsConfigDraws {
        org: org@,
        home_region: home_region@,
        sso_id: match sso_id {
            Some(id) => Some(id@),
            None => None,
        },
        profiles: Seq::empty(),
    };
    let ghost head = sections_view(sections@);
    proof {
        assert(sections@[0]@ == default_section(d));
        if sso_id is Some {
            assert(sections@[1]@ == session_section(d, d.sso_id->0));
        }
        assert(head =~= config_sections(d));
    }

    let profile_count = random_between(1, 3) as usize;
    let at = sample_indices(8, profile_count);
    let mut k: usize = 0;
    while k < at.len()
        invariant
            k <= at.len() == profile_count,
            1 <= profile_count <= 3,
            regions@ == aws_regions(),
            profiles@ == config_profiles(),
            roles@ == config_roles(),
            users@ == config_users(),
            forall|i: int| 0 <= i < at@.len() ==> #[trigger] at@[i] < 8,
            forall|i: int, j: int| 0 <= i < j < at@.len() ==> #[trigger] at@[i] != #[trigger] at@[j],
            d.org == org@,
            d.home_region == home_region@,
            listed(config_orgs(), d.org),
            listed(aws_regions(), d.home_region),
            d.sso_id matches Some(id) ==> id.len() == 10 && all_in(Alphabet::Hex, id),
            match session {
                Some(s) => d.sso_id is Some && s@ == session_name(d),
                None => d.sso_id is None,
            },
            d.profiles.len() == k,
            forall|i: int| 0 <= i < k ==> (#[trigger] d.profiles[i]).at == at@[i] as int,
            forall|i: int| 0 <= i < k ==> profile_draw_ok(d, #[trigger] d.profiles[i]),
            sections_view(sections@) == head + d.profiles.map_values(
                |p: ProfileDraw| profile_section(d, p),
            ),
            head == config_sections(AwsConfigDraws { profiles: Seq::empty(), ..d }),
        decreases at.len() - k,
    {
        let name = profiles[at[k]];
        let ghost d0 = d;
        let ghost old_sections = sections@;
        let (section, p) = build_profile(name, &session, &regions, &roles, &users, Ghost(d), Ghost(at@[k as int] as int));
        sections.push(section);
        proof {
            d = AwsConfigDraws { profiles: d.profiles.push(p@), ..d };
            assert(profile_draw_ok(d, p@));
            assert forall|i: int| 0 <= i < k + 1 implies profile_draw_ok(d, #[trigger] d.profiles[i]) by {
                if i < k {
                    assert(d.profiles[i] == d0.profiles[i]);
                    assert(profile_draw_ok(d0, d0.profiles[i]));
                }
            }
            assert(profile_section(d, p@) == profile_section(d0, p@));
            assert(d.profiles.map_values(|q: ProfileDraw| profile_section(d, q)) =~= d0.profiles.map_values(
                |q: ProfileDraw| profile_section(d0, q),
            ).push(profile_section(d0, p@)));
            assert(sections_view(sections@) =~= sections_view(old_sections).push(section@));
            assert(sections_view(sections@) =~= head + d.profiles.map_values(
                |q: ProfileDraw| profile_section(d, q),
            ));
        }
        k = k + 1;
    }
    assert(draws_ok(d));
    assert(sections_view(sections@) =~= config_sections(d));
    sections
}

impl AwsConfigGenerator {
    /// The generator.
    pub fn new() -> Self {
        AwsConfigGenerator
    }
}

impl Default for AwsConfigGenerator {
    fn default() -> (g: Self)
        ensures
            g == AwsConfigGenerator,
    {
        AwsConfigGenerator
    }
}

impl PayloadGenerator for AwsConfigGenerator {
    open spec fn spec_name(&self) -> Seq<char> {
        "aws_config"@
    }

    open spec fn handles(&self, request: RequestView) -> bool {
        ends_with_pair(path_segments(request.url.path), ".aws"@, "config"@)
    }

    open spec fn produces(&self, request: RequestView, payload: PayloadView) -> bool {
        exists|d: AwsConfigDraws|
            draws_ok(d) && payload == text_payload(sections_text(config_sections(d)))
    }

    fn name(&self) -> (n: &'static str) {
        "aws_config"
    }

    fn supports(&self, request: &Request) -> (b: bool) {
        let segs = request.url().segments();
        segments_end_with(&segs, ".aws", "config")
    }

    fn generate(&self, request: &Request) -> (p: Payload) {
        let sections = build_sections();
        Payload::text(render_sections(&sections))
    }
}

} // verus!

verus! {

/// Section headers are named the way the AWS config file names them:
/// `default`, `profile <name>` or `sso-session <name>`.
pub proof fn lemma_headers_are_config_headers(d: AwsConfigDraws, i: int)
    requires
        draws_ok(d),
        0 <= i < config_sections(d).len(),
    ensures
        config_sections(d)[i].header == "default"@ || has_prefix(
            config_sections(d)[i].header,
            "profile "@,
        ) || has_prefix(config_sections(d)[i].header, "sso-session "@),
{
    let secs = config_sections(d);
    let n_head: int = if d.sso_id is Some { 2 } else { 1 };
    if i >= n_head {
        let p = d.profiles[i - n_head];
        assert(secs[i] == profile_section(d, p));
        let h = "profile "@ + config_profiles()[p.at]@;
        assert(h.take("profile "@.len() as int) =~= "profile "@);
    } else if i == 1 {
        let h = "sso-session "@ + session_name(d);
        assert(h.take("sso-session "@.len() as int) =~= "sso-session "@);
    }
}

proof fn lemma_setting_keys_differ()
    ensures
        "region"@ != "sso_session"@,
        "output"@ != "sso_session"@,
        "sso_start_url"@ != "sso_session"@,
        "sso_region"@ != "sso_session"@,
        "sso_registration_scopes"@ != "sso_session"@,
        "sso_account_id"@ != "sso_session"@,
        "sso_role_name"@ != "sso_session"@,
        "role_arn"@ != "sso_session"@,
        "source_profile"@ != "sso_session"@,
        "mfa_serial"@ != "sso_session"@,
{
    reveal_strlit("sso_session");
    reveal_strlit("region");
    reveal_strlit("output");
    reveal_strlit("sso_start_url");
    reveal_strlit("sso_region");
    reveal_strlit("sso_registration_scopes");
    reveal_strlit("sso_account_id");
    reveal_strlit("sso_role_name");
    reveal_strlit("role_arn");
    reveal_strlit("source_profile");
    reveal_strlit("mfa_serial");
    assert("sso_session"@.len() == 11);
    assert("region"@.len() == 6);
    assert("output"@.len() == 6);
}

/// A profile only refers to an `sso_session` that the file declares in an
/// `[sso-session ...]` section.
pub proof fn lemma_sessions_are_declared(d: AwsConfigDraws, i: int, j: int)
    requires
        draws_ok(d),
        0 <= i < config_sections(d).len(),
        0 <= j < config_sections(d)[i].settings.len(),
        config_sections(d)[i].settings[j].0 == "sso_session"@,
    ensures
        exists|k: int|
            0 <= k < config_sections(d).len() && #[trigger] config_sections(d)[k].header
                == "sso-session "@ + config_sections(d)[i].settings[j].1,
{
    lemma_setting_keys_differ();
    let secs = config_sections(d);
    let n_head: int = if d.sso_id is Some { 2 } else { 1 };
    if i >= n_head {
        let p = d.profiles[i - n_head];
        assert(secs[i] == profile_section(d, p));
        let access = access_settings(d, p);
        let settings = access + seq![("region"@, p.region), ("output"@, "json"@)];
        if j >= access.len() {
            assert(settings[j] == seq![("region"@, p.region), ("output"@, "json"@)][j
                - access.len()]);
        } else {
            match d.sso_id {
                Some(id) => {
                    if j == 0 {
                        assert(settings[j].1 == session_name(d));
                        assert(secs[1] == session_section(d, id));
                        assert(secs[1].header == "sso-session "@ + settings[j].1);
                    }
                },
                None => {
                    assert(access[j] == settings[j]);
                    if j >= 2 {
                        assert(access[j].0 == "mfa_serial"@);
                    }
                },
            }
        }
    }
}

/// Account ids have twelve digits.
pub proof fn lemma_account_ids_have_twelve_digits(account: nat)
    requires
        is_account_id(account),
    ensures
        decimal(account).len() == 12,
        forall|i: int| 0 <= i < 12 ==> '0' <= #[trigger] decimal(account)[i] && decimal(account)[i] <= '9',
{
    reveal_with_fuel(vstd::arithmetic::power::pow, 13);
    assert(vstd::arithmetic::power::pow(10, 11) == 100_000_000_000);
    assert(vstd::arithmetic::power::pow(10, 12) == 1_000_000_000_000);
    super::alphabet::lemma_decimal_length(account, 12);
    super::alphabet::lemma_decimal_digits(account);
}

/// Role and MFA settings are IAM ARNs of a twelve digit account, and
/// `sso_account_id` is a twelve digit account id.
pub proof fn lemma_arns_name_accounts(d: AwsConfigDraws, p: ProfileDraw)
    requires
        draws_ok(d),
        d.profiles.contains(p),
    ensures
        is_account_id(p.account),
        match d.sso_id {
            Some(_) => access_settings(d, p)[1] == ("sso_account_id"@, decimal(p.account)),
            None => access_settings(d, p)[0] == ("role_arn"@, iam_arn(p.account, "role"@, p.role))
                && (p.mfa_user matches Some(u) ==> access_settings(d, p)[2] == (
                "mfa_serial"@,
                iam_arn(p.account, "mfa"@, u),
            )),
        },
{
    let k = choose|k: int| 0 <= k < d.profiles.len() && d.profiles[k] == p;
    assert(profile_draw_ok(d, d.profiles[k]));
}

} // verus!

verus! {

/// `.aws/config` is recognised in any directory.
pub proof fn lemma_config_in_any_directory(
    g: AwsConfigGenerator,
    request: RequestView,
    dir: Seq<char>,
)
    requires
        request.url.path == dir + "/.aws/config"@,
    ensures
        g.handles(request),
{
    reveal_strlit("/.aws/config");
    reveal_strlit(".aws");
    reveal_strlit("config");
    assert(!".aws"@.contains('/'));
    assert(!"config"@.contains('/'));
    assert(dir + "/.aws/config"@ == dir + seq!['/'] + ".aws"@ + seq!['/'] + "config"@);
    super::render::lemma_pair_in_any_directory(dir, ".aws"@, "config"@);
}

} // verus!

verus! {

/// Without IAM Identity Center every profile assumes its role from the
/// `[default]` credentials: its second setting is `source_profile = default`,
/// and the file's first section is `[default]`.
pub proof fn lemma_roles_are_assumed_from_default(d: AwsConfigDraws, i: int)
    requires
        draws_ok(d),
        d.sso_id is None,
        1 <= i < config_sections(d).len(),
    ensures
        config_sections(d)[0].header == "default"@,
        has_prefix(config_sections(d)[i].header, "profile "@),
        config_sections(d)[i].settings[1] == ("source_profile"@, "default"@),
{
    let secs = config_sections(d);
    let p = d.profiles[i - 1];
    assert(secs[0] == default_section(d));
    assert(secs[i] == profile_section(d, p));
    let head = "profile "@;
    let name = config_profiles()[p.at]@;
    assert((head + name).take(head.len() as int) == head);
}

} // verus!
