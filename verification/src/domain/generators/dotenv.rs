//! A decoy `.env` file full of credentials.

use vstd::prelude::*;

use super::alphabet::{
    all_in, decimal, padded_base64, push_decimal, push_random, random_padded_base64, random_text,
    Alphabet,
};
use super::random::random_between;
use super::render::{listed, pick_name};
use crate::domain::generator::PayloadGenerator;
use crate::domain::payload::{text_payload, Payload, PayloadView};
use crate::domain::request::{Request, RequestView};
use crate::domain::request_url::last_segment;
use crate::text::{chars_of, has_prefix, owned, push_str, starts_with};

verus! {

/// Serves `.env` files and their variants (`.env.production`, `.env.bak`, ...)
/// in any directory.
#[derive(Clone, Copy)]
pub struct DotEnvGenerator;

/// The application names of decoys.
pub open spec fn env_apps() -> Seq<&'static str> {
    seq!["acme-api", "shop-backend", "billing", "dashboard", "gateway"]
}

/// The deployment environments of decoys.
pub open spec fn env_envs() -> Seq<&'static str> {
    seq!["production", "staging", "prod"]
}

/// `s` with every `-` written as `_`.
pub open spec fn underscored(s: Seq<char>) -> Seq<char> {
    s.map_values(|c: char| if c == '-' { '_' } else { c })
}

/// The values filled into a decoy `.env`.
pub struct DotEnvFields {
    pub app: Seq<char>,
    pub env: Seq<char>,
    pub app_key: Seq<char>,
    pub db_octet3: nat,
    pub db_octet4: nat,
    pub db_pass: Seq<char>,
    pub redis_pass: Seq<char>,
    pub aws_key_suffix: Seq<char>,
    pub aws_secret: Seq<char>,
    pub mail_pass: Seq<char>,
    pub jwt: Seq<char>,
    pub stripe_pub: Seq<char>,
    pub stripe_secret: Seq<char>,
}

/// The values a decoy may hold.
pub open spec fn dotenv_fields_ok(f: DotEnvFields) -> bool {
    &&& listed(env_apps(), f.app)
    &&& listed(env_envs(), f.env)
    &&& f.db_octet3 <= 254
    &&& 1 <= f.db_octet4 <= 254
    &&& padded_base64(f.app_key, 32)
    &&& padded_base64(f.aws_secret, 30)
    &&& padded_base64(f.jwt, 48)
    &&& f.aws_key_suffix.len() == 16 && all_in(Alphabet::Base32, f.aws_key_suffix)
    &&& f.db_pass.len() == 24 && all_in(Alphabet::Alphanumeric, f.db_pass)
    &&& f.redis_pass.len() == 24 && all_in(Alphabet::Alphanumeric, f.redis_pass)
    &&& f.mail_pass.len() == 20 && all_in(Alphabet::Alphanumeric, f.mail_pass)
    &&& f.stripe_pub.len() == 24 && all_in(Alphabet::Alphanumeric, f.stripe_pub)
    &&& f.stripe_secret.len() == 24 && all_in(Alphabet::Alphanumeric, f.stripe_secret)
}

/// The text of a decoy `.env`.
pub open spec fn dotenv_text(f: DotEnvFields) -> Seq<char> {
    "APP_NAME="@ + f.app + "\nAPP_ENV="@ + f.env + "\nAPP_KEY=base64:"@ + f.app_key
        + "\nAPP_DEBUG=false\nAPP_URL=http://localhost\n\nLOG_CHANNEL=stack\n\nDB_CONNECTION=mysql\nDB_HOST=10.0."@
        + decimal(f.db_octet3) + "."@ + decimal(f.db_octet4) + "\nDB_PORT=3306\nDB_DATABASE="@
        + underscored(f.app) + "_"@ + f.env + "\nDB_USERNAME="@ + underscored(f.app)
        + "_user\nDB_PASSWORD="@ + f.db_pass + "\n\nREDIS_HOST=127.0.0.1\nREDIS_PASSWORD="@
        + f.redis_pass + "\nREDIS_PORT=6379\n\nAWS_ACCESS_KEY_ID=AKIA"@ + f.aws_key_suffix
        + "\nAWS_SECRET_ACCESS_KEY="@ + f.aws_secret
        + "\nAWS_DEFAULT_REGION=us-east-1\n\nMAIL_MAILER=smtp\nMAIL_HOST=smtp.mailgun.org\nMAIL_PORT=587\nMAIL_PASSWORD="@
        + f.mail_pass + "\n\nJWT_SECRET="@ + f.jwt + "\n\nSTRIPE_KEY=pk_live_"@ + f.stripe_pub
        + "\nSTRIPE_SECRET=sk_live_"@ + f.stripe_secret + "\n"@
}

/// Appends `s` with every `-` written as `_`.
fn push_underscored(out: &mut String, s: &str)
    ensures
        final(out)@ == old(out)@ + underscored(s@),
{
    let v = chars_of(s);
    let mut i: usize = 0;
    while i < v.len()
        invariant
            i <= v.len(),
            v@ == s@,
            out@ == old(out)@ + underscored(v@.take(i as int)),
        decreases v.len() - i,
    {
        if v[i] == '-' {
            out.push('_');
        } else {
            out.push(v[i]);
        }
        assert(underscored(v@.take(i + 1)) == underscored(v@.take(i as int)).push(
            if v@[i as int] == '-' {
                '_'
            } else {
                v@[i as int]
            },
        ));
        i = i + 1;
    }
    assert(v@.take(v.len() as int) == v@);
}

/// Draws the fields and renders the decoy.
fn build_dotenv() -> (text: String)
    ensures
        exists|f: DotEnvFields| dotenv_fields_ok(f) && text@ == dotenv_text(f),
{
    let apps: [&'static str; 5] = ["acme-api", "shop-backend", "billing", "dashboard", "gateway"];
    let envs: [&'static str; 3] = ["production", "staging", "prod"];
    assert(apps@ == env_apps());
    assert(envs@ == env_envs());
    let app = pick_name(&apps);
    let env = pick_name(&envs);
    let octet3 = random_between(0, 254);
    let octet4 = random_between(1, 254);
    let aws_key_suffix = random_text(Alphabet::Base32, 16);
    let app_key = random_padded_base64(32);
    let db_pass = random_text(Alphabet::Alphanumeric, 24);
    let redis_pass = random_text(Alphabet::Alphanumeric, 24);
    let aws_secret = random_padded_base64(30);
    let mail_pass = random_text(Alphabet::Alphanumeric, 20);
    let jwt = random_padded_base64(48);
    let stripe_pub = random_text(Alphabet::Alphanumeric, 24);
    let stripe_secret = random_text(Alphabet::Alphanumeric, 24);

    let mut text = owned("APP_NAME=");
    push_str(&mut text, app);
    push_str(&mut text, "\nAPP_ENV=");
    push_str(&mut text, env);
    push_str(&mut text, "\nAPP_KEY=base64:");
    push_str(&mut text, app_key.as_str());
    push_str(
        &mut text,
        "\nAPP_DEBUG=false\nAPP_URL=http://localhost\n\nLOG_CHANNEL=stack\n\nDB_CONNECTION=mysql\nDB_HOST=10.0.",
    );
    push_decimal(&mut text, octet3);
    push_str(&mut text, ".");
    push_decimal(&mut text, octet4);
    push_str(&mut text, "\nDB_PORT=3306\nDB_DATABASE=");
    push_underscored(&mut text, app);
    push_str(&mut text, "_");
    push_str(&mut text, env);
    push_str(&mut text, "\nDB_USERNAME=");
    push_underscored(&mut text, app);
    push_str(&mut text, "_user\nDB_PASSWORD=");
    push_str(&mut text, db_pass.as_str());
    push_str(&mut text, "\n\nREDIS_HOST=127.0.0.1\nREDIS_PASSWORD=");
    push_str(&mut text, redis_pass.as_str());
    push_str(&mut text, "\nREDIS_PORT=6379\n\nAWS_ACCESS_KEY_ID=AKIA");
    push_str(&mut text, aws_key_suffix.as_str());
    push_str(&mut text, "\nAWS_SECRET_ACCESS_KEY=");
    push_str(&mut text, aws_secret.as_str());
    push_str(
        &mut text,
        "\nAWS_DEFAULT_REGION=us-east-1\n\nMAIL_MAILER=smtp\nMAIL_HOST=smtp.mailgun.org\nMAIL_PORT=587\nMAIL_PASSWORD=",
    );
    push_str(&mut text, mail_pass.as_str());
    push_str(&mut text, "\n\nJWT_SECRET=");
    push_str(&mut text, jwt.as_str());
    push_str(&mut text, "\n\nSTRIPE_KEY=pk_live_");
    push_str(&mut text, stripe_pub.as_str());
    push_str(&mut text, "\nSTRIPE_SECRET=sk_live_");
    push_str(&mut text, stripe_secret.as_str());
    push_str(&mut text, "\n");
    let ghost f = DotEnvFields {
        app: app@,
        env: env@,
        app_key: app_key@,
        db_octet3: octet3 as nat,
        db_octet4: octet4 as nat,
        db_pass: db_pass@,
        redis_pass: redis_pass@,
        aws_key_suffix: aws_key_suffix@,
        aws_secret: aws_secret@,
        mail_pass: mail_pass@,
        jwt: jwt@,
        stripe_pub: stripe_pub@,
        stripe_secret: stripe_secret@,
    };
    assert(dotenv_fields_ok(f));
    assert(text@ == dotenv_text(f));
    text
}

impl DotEnvGenerator {
    /// The generator.
    pub fn new() -> Self {
        DotEnvGenerator
    }
}

impl Default for DotEnvGenerator {
    fn default() -> (g: Self)
        ensures
            g == DotEnvGenerator,
    {
        DotEnvGenerator
    }
}

impl PayloadGenerator for DotEnvGenerator {
    open spec fn spec_name(&self) -> Seq<char> {
        "dotenv"@
    }

    open spec fn handles(&self, request: RequestView) -> bool {
        last_segment(request.url.path) matches Some(name) && has_prefix(name, ".env"@)
    }

    open spec fn produces(&self, request: RequestView, payload: PayloadView) -> bool {
        exists|f: DotEnvFields| dotenv_fields_ok(f) && payload == text_payload(dotenv_text(f))
    }

    fn name(&self) -> (n: &'static str) {
        "dotenv"
    }

    fn supports(&self, request: &Request) -> (b: bool) {
        match request.url().file_name() {
            Some(name) => {
                let v = chars_of(name.as_str());
                let prefix = chars_of(".env");
                starts_with(&v, &prefix)
            },
            None => false,
        }
    }

    fn generate(&self, request: &Request) -> (p: Payload) {
        Payload::text(build_dotenv())
    }
}

} // verus!

verus! {

/// A file whose name begins with `.env` is recognised in any directory.
pub proof fn lemma_env_file_in_any_directory(
    g: DotEnvGenerator,
    request: RequestView,
    dir: Seq<char>,
    name: Seq<char>,
)
    requires
        has_prefix(name, ".env"@),
        !name.contains('/'),
        request.url.path == dir + seq!['/'] + name,
    ensures
        g.handles(request),
{
    reveal_strlit(".env");
    crate::domain::request_url::lemma_segments_of_file_in(dir, name);
}

} // verus!
