//! A decoy WordPress login that turns every submitted password down, slowly.

use vstd::prelude::*;

use super::alphabet::{all_in, random_text, Alphabet};
use super::random::random_between;
use super::render::{html_escaped, push_escaped};
use crate::domain::generator::PayloadGenerator;
use crate::domain::payload::{html_payload, Payload, PayloadView};
use crate::domain::request::{form_value, Request, RequestView};
use crate::domain::request_url::last_segment;
use crate::text::{chars_of, contains_seq, lowercase, lowercase_chars, owned, push_str, same_chars};

verus! {

/// The site name the login page shows.
pub const SITE_TITLE: &'static str = "My Site";

/// The shortest delay before a submitted password is turned down, in ms.
pub const MIN_DELAY_MS: u64 = 2000;

/// The longest delay before a submitted password is turned down, in ms.
pub const MAX_DELAY_MS: u64 = 6000;

/// Serves `wp-login.php` in any directory and in any letter case.
#[derive(Clone, Copy)]
pub struct WpLoginGenerator;

/// What the login page shows.
pub struct LoginPage {
    pub nonce: Seq<char>,
    pub username: Seq<char>,
    pub redirect_to: Seq<char>,
    pub has_error: bool,
    pub empty_username: bool,
    pub empty_password: bool,
}

/// A white space character, as `char::is_whitespace` reads it (the Unicode
/// `White_Space` property).
pub open spec fn is_white_space(c: char) -> bool {
    ('\u{9}' <= c && c <= '\u{d}') || c == ' ' || c == '\u{85}' || c == '\u{a0}' || c
        == '\u{1680}' || ('\u{2000}' <= c && c <= '\u{200a}') || c == '\u{2028}' || c
        == '\u{2029}' || c == '\u{202f}' || c == '\u{205f}' || c == '\u{3000}'
}

/// Nothing but white space: what trims to nothing.
pub open spec fn blank(s: Seq<char>) -> bool {
    forall|i: int| 0 <= i < s.len() ==> is_white_space(#[trigger] s[i])
}

/// The value of a form field, or the empty text where it is missing.
pub open spec fn field_or_empty(body: Seq<u8>, name: Seq<char>) -> Seq<char> {
    match form_value(body, name) {
        Some(v) => v,
        None => Seq::empty(),
    }
}

/// The page that turns down the credentials in a submitted form: the
/// username field is empty when it is blank, the password field only when
/// a username was given.
pub open spec fn rejection_page(body: Seq<u8>, nonce: Seq<char>) -> LoginPage {
    let username = field_or_empty(body, "log"@);
    let password = field_or_empty(body, "pwd"@);
    LoginPage {
        nonce,
        username,
        redirect_to: field_or_empty(body, "redirect_to"@),
        has_error: true,
        empty_username: blank(username),
        empty_password: !blank(username) && password.len() == 0,
    }
}

/// The rejection, answered after `delay_ms` milliseconds.
pub open spec fn rejection_payload(body: Seq<u8>, nonce: Seq<char>, delay_ms: u64) -> PayloadView {
    PayloadView {
        delay_ms: Some(delay_ms),
        ..html_payload(login_html(rejection_page(body, nonce)))
    }
}

/// The login form as first served.
pub open spec fn form_page(nonce: Seq<char>) -> LoginPage {
    LoginPage {
        nonce,
        username: Seq::empty(),
        redirect_to: "/wp-admin/"@,
        has_error: false,
        empty_username: false,
        empty_password: false,
    }
}

/// The error the page reports.
pub open spec fn error_text(page: LoginPage) -> Seq<char> {
    if page.empty_username {
        "<div id=\"login_error\" class=\"notice notice-error\"><strong>Error:</strong> The username field is empty.<br />\n</div>\n"@
    } else if page.empty_password {
        "<div id=\"login_error\" class=\"notice notice-error\"><strong>Error:</strong> The password field is empty.<br />\n</div>\n"@
    } else {
        "<div id=\"login_error\" class=\"notice notice-error\"><strong>Error:</strong> The password you entered for the username <strong>"@
            + html_escaped(page.username)
            + "</strong> is incorrect. <a href=\"/wp-login.php?action=lostpassword\">Lost your password?</a><br />\n</div>\n"@
    }
}

/// The field the page puts the cursor in: the password after a rejected
/// username and password, else the username.
pub open spec fn focus_field(page: LoginPage) -> Seq<char> {
    if page.has_error && !page.empty_username {
        "user_pass"@
    } else {
        "user_login"@
    }
}

/// The HTML of the login page; the values are HTML escaped.
pub open spec fn login_html(page: LoginPage) -> Seq<char> {
    "<!DOCTYPE html>\n<html lang=\"en-US\">\n<head>\n<meta http-equiv=\"Content-Type\" content=\"text/html; charset=UTF-8\" />\n<title>Log In &lsaquo; "@
        + html_escaped("My Site"@)
        + " &#8212; WordPress</title>\n<meta name='robots' content='max-image-preview:large, noindex, noarchive' />\n<link rel='stylesheet' id='login-css' href='/wp-admin/css/login.min.css?ver=6.4.3' type='text/css' media='all' />\n</head>\n<body class=\"login no-js login-action-login wp-core-ui locale-en-us\">\n<div id=\"login\">\n<h1><a href=\"https://wordpress.org/\">Powered by WordPress</a></h1>\n"@
        + (if page.has_error { error_text(page) } else { Seq::empty() })
        + "<form name=\"loginform\" id=\"loginform\" action=\"/wp-login.php\" method=\"post\">\n<p>\n<label for=\"user_login\">Username or Email Address</label>\n<input type=\"text\" name=\"log\" id=\"user_login\" class=\"input\" value=\""@
        + html_escaped(page.username)
        + "\" size=\"20\" autocapitalize=\"off\" autocomplete=\"username\" required=\"required\" />\n</p>\n<div class=\"user-pass-wrap\">\n<label for=\"user_pass\">Password</label>\n<div class=\"wp-pwd\">\n<input type=\"password\" name=\"pwd\" id=\"user_pass\" class=\"input password-input\" value=\"\" size=\"20\" autocomplete=\"current-password\" spellcheck=\"false\" required=\"required\" />\n</div>\n</div>\n<p class=\"forgetmenot\"><input name=\"rememberme\" type=\"checkbox\" id=\"rememberme\" value=\"forever\" /> <label for=\"rememberme\">Remember Me</label></p>\n<p class=\"submit\">\n<input type=\"submit\" name=\"wp-submit\" id=\"wp-submit\" class=\"button button-primary button-large\" value=\"Log In\" />\n<input type=\"hidden\" name=\"redirect_to\" value=\""@
        + html_escaped(page.redirect_to)
        + "\" />\n<input type=\"hidden\" name=\"testcookie\" value=\"1\" />\n<input type=\"hidden\" name=\"_wpnonce\" value=\""@
        + html_escaped(page.nonce)
        + "\" />\n</p>\n</form>\n<p id=\"nav\"><a href=\"/wp-login.php?action=lostpassword\">Lost your password?</a></p>\n<script type=\"text/javascript\">\nfunction wp_attempt_focus() {setTimeout( function() {try {d = document.getElementById( \""@
        + focus_field(page)
        + "\" );d.focus(); d.select();} catch( er ) {}}, 200);}\nwp_attempt_focus();\n"@
        + (if page.has_error {
            "document.querySelector('#login').classList.add('shake');\n"@
        } else {
            Seq::empty()
        })
        + "</script>\n<p id=\"backtoblog\"><a href=\"/\">&larr; Go to "@ + html_escaped("My Site"@)
        + "</a></p>\n</div>\n</body>\n</html>\n"@
}

/// Whether every character of `s` is white space.
fn is_blank(s: &str) -> (b: bool)
    ensures
        b == blank(s@),
{
    let v = chars_of(s);
    let mut i: usize = 0;
    while i < v.len()
        invariant
            i <= v.len(),
            v@ == s@,
            forall|j: int| 0 <= j < i ==> is_white_space(#[trigger] v@[j]),
        decreases v.len() - i,
    {
        let c = v[i];
        let white = ('\u{9}' <= c && c <= '\u{d}') || c == ' ' || c == '\u{85}' || c == '\u{a0}'
            || c == '\u{1680}' || ('\u{2000}' <= c && c <= '\u{200a}') || c == '\u{2028}' || c
            == '\u{2029}' || c == '\u{202f}' || c == '\u{205f}' || c == '\u{3000}';
        if !white {
            return false;
        }
        i = i + 1;
    }
    true
}

/// The HTML of a login page.
fn render_login(
    nonce: &str,
    username: &str,
    redirect_to: &str,
    has_error: bool,
    empty_username: bool,
    empty_password: bool,
) -> (html: String)
    ensures
        html@ == login_html(
            LoginPage {
                nonce: nonce@,
                username: username@,
                redirect_to: redirect_to@,
                has_error,
                empty_username,
                empty_password,
            },
        ),
{
    let ghost page = LoginPage {
        nonce: nonce@,
        username: username@,
        redirect_to: redirect_to@,
        has_error,
        empty_username,
        empty_password,
    };
    let mut html = owned(
        "<!DOCTYPE html>\n<html lang=\"en-US\">\n<head>\n<meta http-equiv=\"Content-Type\" content=\"text/html; charset=UTF-8\" />\n<title>Log In &lsaquo; ",
    );
    push_escaped(&mut html, SITE_TITLE);
    push_str(
        &mut html,
        " &#8212; WordPress</title>\n<meta name='robots' content='max-image-preview:large, noindex, noarchive' />\n<link rel='stylesheet' id='login-css' href='/wp-admin/css/login.min.css?ver=6.4.3' type='text/css' media='all' />\n</head>\n<body class=\"login no-js login-action-login wp-core-ui locale-en-us\">\n<div id=\"login\">\n<h1><a href=\"https://wordpress.org/\">Powered by WordPress</a></h1>\n",
    );
    let ghost before_error = html@;
    if has_error {
        if empty_username {
            push_str(
                &mut html,
                "<div id=\"login_error\" class=\"notice notice-error\"><strong>Error:</strong> The username field is empty.<br />\n</div>\n",
            );
        } else if empty_password {
            push_str(
                &mut html,
                "<div id=\"login_error\" class=\"notice notice-error\"><strong>Error:</strong> The password field is empty.<br />\n</div>\n",
            );
        } else {
            push_str(
                &mut html,
                "<div id=\"login_error\" class=\"notice notice-error\"><strong>Error:</strong> The password you entered for the username <strong>",
            );
            push_escaped(&mut html, username);
            push_str(
                &mut html,
                "</strong> is incorrect. <a href=\"/wp-login.php?action=lostpassword\">Lost your password?</a><br />\n</div>\n",
            );
        }
    }
    assert(html@ == before_error + (if has_error { error_text(page) } else { Seq::empty() }));
    push_str(
        &mut html,
        "<form name=\"loginform\" id=\"loginform\" action=\"/wp-login.php\" method=\"post\">\n<p>\n<label for=\"user_login\">Username or Email Address</label>\n<input type=\"text\" name=\"log\" id=\"user_login\" class=\"input\" value=\"",
    );
    push_escaped(&mut html, username);
    push_str(
        &mut html,
        "\" size=\"20\" autocapitalize=\"off\" autocomplete=\"username\" required=\"required\" />\n</p>\n<div class=\"user-pass-wrap\">\n<label for=\"user_pass\">Password</label>\n<div class=\"wp-pwd\">\n<input type=\"password\" name=\"pwd\" id=\"user_pass\" class=\"input password-input\" value=\"\" size=\"20\" autocomplete=\"current-password\" spellcheck=\"false\" required=\"required\" />\n</div>\n</div>\n<p class=\"forgetmenot\"><input name=\"rememberme\" type=\"checkbox\" id=\"rememberme\" value=\"forever\" /> <label for=\"rememberme\">Remember Me</label></p>\n<p class=\"submit\">\n<input type=\"submit\" name=\"wp-submit\" id=\"wp-submit\" class=\"button button-primary button-large\" value=\"Log In\" />\n<input type=\"hidden\" name=\"redirect_to\" value=\"",
    );
    push_escaped(&mut html, redirect_to);
    push_str(
        &mut html,
        "\" />\n<input type=\"hidden\" name=\"testcookie\" value=\"1\" />\n<input type=\"hidden\" name=\"_wpnonce\" value=\"",
    );
    push_escaped(&mut html, nonce);
    push_str(
        &mut html,
        "\" />\n</p>\n</form>\n<p id=\"nav\"><a href=\"/wp-login.php?action=lostpassword\">Lost your password?</a></p>\n<script type=\"text/javascript\">\nfunction wp_attempt_focus() {setTimeout( function() {try {d = document.getElementById( \"",
    );
    if has_error && !empty_username {
        push_str(&mut html, "user_pass");
    } else {
        push_str(&mut html, "user_login");
    }
    push_str(&mut html, "\" );d.focus(); d.select();} catch( er ) {}}, 200);}\nwp_attempt_focus();\n");
    let ghost before_shake = html@;
    if has_error {
        push_str(&mut html, "document.querySelector('#login').classList.add('shake');\n");
    }
    assert(html@ == before_shake + (if has_error {
        "document.querySelector('#login').classList.add('shake');\n"@
    } else {
        Seq::<char>::empty()
    }));
    push_str(&mut html, "</script>\n<p id=\"backtoblog\"><a href=\"/\">&larr; Go to ");
    push_escaped(&mut html, SITE_TITLE);
    push_str(&mut html, "</a></p>\n</div>\n</body>\n</html>\n");
    html
}

/// A fresh nonce: ten hexadecimal digits.
fn nonce() -> (n: String)
    ensures
        n@.len() == 10,
        all_in(Alphabet::Hex, n@),
{
    random_text(Alphabet::Hex, 10)
}

/// The login form, answered at once.
fn login_form() -> (p: Payload)
    ensures
        exists|n: Seq<char>|
            n.len() == 10 && all_in(Alphabet::Hex, n) && p@ == html_payload(login_html(form_page(n))),
{
    let n = nonce();
    let html = render_login(n.as_str(), "", "/wp-admin/", false, false, false);
    proof {
        assert(""@ == Seq::<char>::empty()) by {
            reveal_strlit("");
        }
    }
    Payload::html(html)
}

/// The value of a form field, or the empty text.
fn field(request: &Request, name: &str) -> (v: String)
    ensures
        v@ == field_or_empty(request@.body, name@),
{
    match request.form_field(name) {
        Some(v) => v,
        None => String::new(),
    }
}

/// Turns down the submitted credentials like WordPress does, after a delay.
fn reject(request: &Request) -> (p: Payload)
    ensures
        exists|n: Seq<char>, d: u64|
            n.len() == 10 && all_in(Alphabet::Hex, n) && MIN_DELAY_MS <= d <= MAX_DELAY_MS && p@
                == #[trigger] rejection_payload(request@.body, n, d),
{
    let username = field(request, "log");
    let password = field(request, "pwd");
    let redirect_to = field(request, "redirect_to");
    let empty_username = is_blank(username.as_str());
    let empty_password = !empty_username && password.as_str().is_empty();
    let n = nonce();
    let html = render_login(
        n.as_str(),
        username.as_str(),
        redirect_to.as_str(),
        true,
        empty_username,
        empty_password,
    );
    let delay = random_between(MIN_DELAY_MS, MAX_DELAY_MS);
    let p = Payload::html(html).with_delay(delay);
    assert(rejection_page(request@.body, n@) == LoginPage {
        nonce: n@,
        username: username@,
        redirect_to: redirect_to@,
        has_error: true,
        empty_username,
        empty_password,
    });
    assert(p@ == rejection_payload(request@.body, n@, delay));
    p
}

impl WpLoginGenerator {
    /// The generator.
    pub fn new() -> Self {
        WpLoginGenerator
    }
}

impl Default for WpLoginGenerator {
    fn default() -> (g: Self)
        ensures
            g == WpLoginGenerator,
    {
        WpLoginGenerator
    }
}

impl PayloadGenerator for WpLoginGenerator {
    open spec fn spec_name(&self) -> Seq<char> {
        "wp_login"@
    }

    open spec fn handles(&self, request: RequestView) -> bool {
        last_segment(request.url.path) matches Some(name) && lowercase(name) == lowercase(
            "wp-login.php"@,
        )
    }

    open spec fn produces(&self, request: RequestView, payload: PayloadView) -> bool {
        if request.method == "POST"@ {
            exists|n: Seq<char>, d: u64|
                n.len() == 10 && all_in(Alphabet::Hex, n) && MIN_DELAY_MS <= d <= MAX_DELAY_MS
                    && payload == #[trigger] rejection_payload(request.body, n, d)
        } else {
            exists|n: Seq<char>|
                n.len() == 10 && all_in(Alphabet::Hex, n) && payload == html_payload(
                    login_html(form_page(n)),
                )
        }
    }

    fn name(&self) -> (n: &'static str) {
        "wp_login"
    }

    fn supports(&self, request: &Request) -> (b: bool) {
        match request.url().file_name() {
            Some(name) => {
                let lower = lowercase_chars(name.as_str());
                let wanted = lowercase_chars("wp-login.php");
                same_chars(&lower, &wanted)
            },
            None => false,
        }
    }

    fn generate(&self, request: &Request) -> (p: Payload) {
        if request.is_post() {
            reject(request)
        } else {
            login_form()
        }
    }
}

} // verus!

verus! {

/// A login form fetched with anything but `POST` is answered at once and
/// reports no error; a submitted form is turned down after two to six
/// seconds, with the error WordPress gives.
pub proof fn lemma_only_submissions_are_delayed(
    g: WpLoginGenerator,
    request: RequestView,
    payload: PayloadView,
)
    requires
        g.produces(request, payload),
    ensures
        request.method == "POST"@ ==> (payload.delay_ms matches Some(d) && MIN_DELAY_MS <= d
            <= MAX_DELAY_MS),
        request.method != "POST"@ ==> payload.delay_ms is None,
{
}

/// The username a client submits reaches the page only HTML escaped: it
/// cannot open or close a tag or an attribute.
pub proof fn lemma_reflected_username_is_inert(body: Seq<u8>)
    ensures
        forall|i: int|
            0 <= i < html_escaped(field_or_empty(body, "log"@)).len() ==> #[trigger] html_escaped(
                field_or_empty(body, "log"@),
            )[i] != '<' && html_escaped(field_or_empty(body, "log"@))[i] != '>'
                && html_escaped(field_or_empty(body, "log"@))[i] != '"',
{
    super::render::lemma_escaped_has_no_markup(field_or_empty(body, "log"@));
}

} // verus!

verus! {

/// `wp-login.php`, in any letter case, is recognised in any directory.
pub proof fn lemma_login_in_any_directory(
    g: WpLoginGenerator,
    request: RequestView,
    dir: Seq<char>,
    name: Seq<char>,
)
    requires
        lowercase(name) == lowercase("wp-login.php"@),
        !name.contains('/'),
        request.url.path == dir + seq!['/'] + name,
    ensures
        g.handles(request),
{
    reveal_strlit("wp-login.php");
    assert(name.len() == lowercase(name).len());
    crate::domain::request_url::lemma_segments_of_file_in(dir, name);
}

} // verus!

verus! {

/// A turned down submission always shows what was submitted: the username
/// field of the page holds the submitted username (HTML escaped) and the
/// redirect target is kept, whatever the password was, and the page reports
/// an error.
pub proof fn lemma_rejection_keeps_the_submission(body: Seq<u8>, nonce: Seq<char>)
    ensures
        rejection_page(body, nonce).username == field_or_empty(body, "log"@),
        rejection_page(body, nonce).redirect_to == field_or_empty(body, "redirect_to"@),
        rejection_page(body, nonce).has_error,
        contains_seq(
            login_html(rejection_page(body, nonce)),
            "id=\"user_login\" class=\"input\" value=\""@ + html_escaped(
                field_or_empty(body, "log"@),
            ) + "\" size=\"20\""@,
        ),
{
    lemma_username_fills_the_login_field(rejection_page(body, nonce));
}

} // verus!

verus! {

/// The page's username field holds the page's username, HTML escaped, as
/// its value.
pub proof fn lemma_username_fills_the_login_field(page: LoginPage)
    ensures
        contains_seq(
            login_html(page),
            "id=\"user_login\" class=\"input\" value=\""@ + html_escaped(page.username)
                + "\" size=\"20\""@,
        ),
{
    let l1 = "<!DOCTYPE html>\n<html lang=\"en-US\">\n<head>\n<meta http-equiv=\"Content-Type\" content=\"text/html; charset=UTF-8\" />\n<title>Log In &lsaquo; "@;
    let l2 = " &#8212; WordPress</title>\n<meta name='robots' content='max-image-preview:large, noindex, noarchive' />\n<link rel='stylesheet' id='login-css' href='/wp-admin/css/login.min.css?ver=6.4.3' type='text/css' media='all' />\n</head>\n<body class=\"login no-js login-action-login wp-core-ui locale-en-us\">\n<div id=\"login\">\n<h1><a href=\"https://wordpress.org/\">Powered by WordPress</a></h1>\n"@;
    let l3 = "<form name=\"loginform\" id=\"loginform\" action=\"/wp-login.php\" method=\"post\">\n<p>\n<label for=\"user_login\">Username or Email Address</label>\n<input type=\"text\" name=\"log\" id=\"user_login\" class=\"input\" value=\""@;
    let l4 = "\" size=\"20\" autocapitalize=\"off\" autocomplete=\"username\" required=\"required\" />\n</p>\n<div class=\"user-pass-wrap\">\n<label for=\"user_pass\">Password</label>\n<div class=\"wp-pwd\">\n<input type=\"password\" name=\"pwd\" id=\"user_pass\" class=\"input password-input\" value=\"\" size=\"20\" autocomplete=\"current-password\" spellcheck=\"false\" required=\"required\" />\n</div>\n</div>\n<p class=\"forgetmenot\"><input name=\"rememberme\" type=\"checkbox\" id=\"rememberme\" value=\"forever\" /> <label for=\"rememberme\">Remember Me</label></p>\n<p class=\"submit\">\n<input type=\"submit\" name=\"wp-submit\" id=\"wp-submit\" class=\"button button-primary button-large\" value=\"Log In\" />\n<input type=\"hidden\" name=\"redirect_to\" value=\""@;
    let a = "id=\"user_login\" class=\"input\" value=\""@;
    let b = "\" size=\"20\""@;
    reveal_strlit("<form name=\"loginform\" id=\"loginform\" action=\"/wp-login.php\" method=\"post\">\n<p>\n<label for=\"user_login\">Username or Email Address</label>\n<input type=\"text\" name=\"log\" id=\"user_login\" class=\"input\" value=\"");
    reveal_strlit("\" size=\"20\" autocapitalize=\"off\" autocomplete=\"username\" required=\"required\" />\n</p>\n<div class=\"user-pass-wrap\">\n<label for=\"user_pass\">Password</label>\n<div class=\"wp-pwd\">\n<input type=\"password\" name=\"pwd\" id=\"user_pass\" class=\"input password-input\" value=\"\" size=\"20\" autocomplete=\"current-password\" spellcheck=\"false\" required=\"required\" />\n</div>\n</div>\n<p class=\"forgetmenot\"><input name=\"rememberme\" type=\"checkbox\" id=\"rememberme\" value=\"forever\" /> <label for=\"rememberme\">Remember Me</label></p>\n<p class=\"submit\">\n<input type=\"submit\" name=\"wp-submit\" id=\"wp-submit\" class=\"button button-primary button-large\" value=\"Log In\" />\n<input type=\"hidden\" name=\"redirect_to\" value=\"");
    reveal_strlit("id=\"user_login\" class=\"input\" value=\"");
    reveal_strlit("\" size=\"20\"");
    let err = if page.has_error { error_text(page) } else { Seq::empty() };
    let x = l1 + html_escaped("My Site"@) + l2 + err;
    let esc = html_escaped(page.username);
    let s = x + l3 + esc + l4;
    assert(l3.skip(l3.len() - a.len()) =~= a);
    assert(l4.take(b.len() as int) =~= b);
    let i = x.len() + l3.len() - a.len();
    let frag = a + esc + b;
    assert(s.subrange(i, i + frag.len()) =~= frag);
    assert(login_html(page).subrange(i, i + frag.len()) =~= s.subrange(i, i + frag.len()));
}

} // verus!
