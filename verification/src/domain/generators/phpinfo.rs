//! A decoy `phpinfo()` page.

use vstd::prelude::*;

use super::alphabet::{decimal, push_decimal};
use super::random::utc_now;
use super::render::{html_escaped, listed, push_escaped};
use crate::domain::generator::PayloadGenerator;
use crate::domain::payload::{html_payload, Payload, PayloadView};
use crate::domain::request::{Request, RequestView};
use crate::domain::request_url::{last_segment, mentions};
use crate::text::{find_last_dot, last_dot, listed_chars, lowercase, lowercase_chars, owned, push_str};

verus! {

/// Serves `phpinfo()` probes: the usual file names, generic test scripts,
/// and queries that mention `phpinfo`.
#[derive(Clone, Copy)]
pub struct PhpInfoGenerator;

/// The extensions PHP scripts are served under.
pub open spec fn php_extensions() -> Seq<&'static str> {
    seq!["php", "php3", "php4", "php5", "phtml", "phps"]
}

/// File names (without a PHP extension, or with one) that name a
/// `phpinfo()` page.
pub open spec fn phpinfo_stems() -> Seq<&'static str> {
    seq!["phpinfo", "php-info", "php_info", "phpversion"]
}

/// Generic script names that are often a `phpinfo()` page, when they carry a
/// PHP extension.
pub open spec fn generic_php_stems() -> Seq<&'static str> {
    seq!["info", "test", "i", "infophp"]
}

/// A file name split at its last `.` when what follows is a PHP extension:
/// the stem and `true`; otherwise the whole name and `false`.
pub open spec fn php_stem(name: Seq<char>) -> (Seq<char>, bool) {
    let i = last_dot(name);
    if i >= 0 && listed(php_extensions(), name.skip(i + 1)) {
        (name.take(i), true)
    } else {
        (name, false)
    }
}

/// A file name (in lower case) that names a `phpinfo()` page.
pub open spec fn phpinfo_name(name: Seq<char>) -> bool {
    let (stem, is_php) = php_stem(name);
    listed(phpinfo_stems(), stem) || (is_php && listed(generic_php_stems(), stem))
}

/// The milliseconds of a time, written with three digits at least.
pub open spec fn millis_text(m: nat) -> Seq<char> {
    if m < 10 {
        "00"@ + decimal(m)
    } else if m < 100 {
        "0"@ + decimal(m)
    } else {
        decimal(m)
    }
}

/// The decoy page for the script at `path`, requested at `secs` seconds and
/// `millis` milliseconds past the Unix epoch. The values are HTML escaped.
pub open spec fn phpinfo_page(path: Seq<char>, secs: nat, millis: nat) -> Seq<char> {
    phpinfo_head() + html_escaped("/var/www/html"@ + path) + phpinfo_name_row() + html_escaped(path)
        + phpinfo_self_row() + html_escaped(path) + phpinfo_float_row() + html_escaped(
        decimal(secs) + "."@ + millis_text(millis),
    ) + phpinfo_time_row() + html_escaped(decimal(secs)) + phpinfo_tail()
}

pub open spec fn phpinfo_head() -> Seq<char> {
    "<!DOCTYPE html PUBLIC \"-//W3C//DTD XHTML 1.0 Transitional//EN\" \"DTD/xhtml1-transitional.dtd\">\n<html xmlns=\"http://www.w3.org/1999/xhtml\"><head>\n<style type=\"text/css\">\nbody {background-color: #fff; color: #222; font-family: sans-serif;}\npre {margin: 0; font-family: monospace;}\ntable {border-collapse: collapse; border: 0; width: 934px; box-shadow: 1px 2px 3px #ccc;}\n.center {text-align: center;}\n.center table {margin: 1em auto; text-align: left;}\ntd, th {border: 1px solid #666; font-size: 75%; vertical-align: baseline; padding: 4px 5px;}\nh1 {font-size: 150%;}\nh2 {font-size: 125%;}\n.p {text-align: left;}\n.e {background-color: #ccf; width: 300px; font-weight: bold;}\n.h {background-color: #99c; font-weight: bold;}\n.v {background-color: #ddd; max-width: 300px; overflow-x: auto; word-wrap: break-word;}\n</style>\n<title>phpinfo()</title><meta name=\"ROBOTS\" content=\"NOINDEX,NOFOLLOW,NOARCHIVE\" /></head>\n<body><div class=\"center\">\n<table>\n<tr class=\"h\"><td>\n<h1 class=\"p\">PHP Version 5.6.40</h1>\n</td></tr>\n</table>\n<table>\n<tr><td class=\"e\">System </td><td class=\"v\">Linux web01 4.15.0-112-generic #113-Ubuntu SMP Thu Jul 9 23:41:39 UTC 2020 x86_64 </td></tr>\n<tr><td class=\"e\">Build Date </td><td class=\"v\">Jan 10 2019 13:24:29 </td></tr>\n<tr><td class=\"e\">Server API </td><td class=\"v\">Apache 2.0 Handler </td></tr>\n<tr><td class=\"e\">Loaded Configuration File </td><td class=\"v\">/etc/php/5.6/apache2/php.ini </td></tr>\n<tr><td class=\"e\">PHP API </td><td class=\"v\">20131106 </td></tr>\n<tr><td class=\"e\">Zend Extension Build </td><td class=\"v\">API220131226,NTS </td></tr>\n</table>\n<h2>PHP Variables</h2>\n<table>\n<tr class=\"h\"><th>Variable</th><th>Value</th></tr>\n<tr><td class=\"e\">_SERVER[\"DOCUMENT_ROOT\"]</td><td class=\"v\">/var/www/html</td></tr>\n<tr><td class=\"e\">_SERVER[\"SCRIPT_FILENAME\"]</td><td class=\"v\">"@
}

pub open spec fn phpinfo_name_row() -> Seq<char> {
    "</td></tr>\n<tr><td class=\"e\">_SERVER[\"SCRIPT_NAME\"]</td><td class=\"v\">"@
}

pub open spec fn phpinfo_self_row() -> Seq<char> {
    "</td></tr>\n<tr><td class=\"e\">_SERVER[\"PHP_SELF\"]</td><td class=\"v\">"@
}

pub open spec fn phpinfo_float_row() -> Seq<char> {
    "</td></tr>\n<tr><td class=\"e\">_SERVER[\"REQUEST_TIME_FLOAT\"]</td><td class=\"v\">"@
}

pub open spec fn phpinfo_time_row() -> Seq<char> {
    "</td></tr>\n<tr><td class=\"e\">_SERVER[\"REQUEST_TIME\"]</td><td class=\"v\">"@
}

pub open spec fn phpinfo_tail() -> Seq<char> {
    "</td></tr>\n</table>\n<h2>PHP License</h2>\n<table>\n<tr class=\"v\"><td>\n<p>\nThis program is free software; you can redistribute it and/or modify it under the terms of the PHP License as published by the PHP Group and included in the distribution in the file:  LICENSE\n</p>\n</td></tr>\n</table>\n</div></body></html>\n"@
}

/// Appends the milliseconds of a time, with three digits at least.
fn push_millis(out: &mut String, m: u64)
    ensures
        final(out)@ == old(out)@ + millis_text(m as nat),
{
    if m < 10 {
        push_str(out, "00");
    } else if m < 100 {
        push_str(out, "0");
    }
    push_decimal(out, m);
}

/// The decoy page for the script at `path`.
fn render_phpinfo(path: &str, secs: u64, millis: u64) -> (page: String)
    ensures
        page@ == phpinfo_page(path@, secs as nat, millis as nat),
{
    let mut filename = owned("/var/www/html");
    push_str(&mut filename, path);
    let mut time = String::new();
    push_decimal(&mut time, secs);
    let mut float = String::new();
    push_decimal(&mut float, secs);
    push_str(&mut float, ".");
    push_millis(&mut float, millis);

    let mut page = owned(
        "<!DOCTYPE html PUBLIC \"-//W3C//DTD XHTML 1.0 Transitional//EN\" \"DTD/xhtml1-transitional.dtd\">\n<html xmlns=\"http://www.w3.org/1999/xhtml\"><head>\n<style type=\"text/css\">\nbody {background-color: #fff; color: #222; font-family: sans-serif;}\npre {margin: 0; font-family: monospace;}\ntable {border-collapse: collapse; border: 0; width: 934px; box-shadow: 1px 2px 3px #ccc;}\n.center {text-align: center;}\n.center table {margin: 1em auto; text-align: left;}\ntd, th {border: 1px solid #666; font-size: 75%; vertical-align: baseline; padding: 4px 5px;}\nh1 {font-size: 150%;}\nh2 {font-size: 125%;}\n.p {text-align: left;}\n.e {background-color: #ccf; width: 300px; font-weight: bold;}\n.h {background-color: #99c; font-weight: bold;}\n.v {background-color: #ddd; max-width: 300px; overflow-x: auto; word-wrap: break-word;}\n</style>\n<title>phpinfo()</title><meta name=\"ROBOTS\" content=\"NOINDEX,NOFOLLOW,NOARCHIVE\" /></head>\n<body><div class=\"center\">\n<table>\n<tr class=\"h\"><td>\n<h1 class=\"p\">PHP Version 5.6.40</h1>\n</td></tr>\n</table>\n<table>\n<tr><td class=\"e\">System </td><td class=\"v\">Linux web01 4.15.0-112-generic #113-Ubuntu SMP Thu Jul 9 23:41:39 UTC 2020 x86_64 </td></tr>\n<tr><td class=\"e\">Build Date </td><td class=\"v\">Jan 10 2019 13:24:29 </td></tr>\n<tr><td class=\"e\">Server API </td><td class=\"v\">Apache 2.0 Handler </td></tr>\n<tr><td class=\"e\">Loaded Configuration File </td><td class=\"v\">/etc/php/5.6/apache2/php.ini </td></tr>\n<tr><td class=\"e\">PHP API </td><td class=\"v\">20131106 </td></tr>\n<tr><td class=\"e\">Zend Extension Build </td><td class=\"v\">API220131226,NTS </td></tr>\n</table>\n<h2>PHP Variables</h2>\n<table>\n<tr class=\"h\"><th>Variable</th><th>Value</th></tr>\n<tr><td class=\"e\">_SERVER[\"DOCUMENT_ROOT\"]</td><td class=\"v\">/var/www/html</td></tr>\n<tr><td class=\"e\">_SERVER[\"SCRIPT_FILENAME\"]</td><td class=\"v\">",
    );
    push_escaped(&mut page, filename.as_str());
    push_str(&mut page, "</td></tr>\n<tr><td class=\"e\">_SERVER[\"SCRIPT_NAME\"]</td><td class=\"v\">");
    push_escaped(&mut page, path);
    push_str(&mut page, "</td></tr>\n<tr><td class=\"e\">_SERVER[\"PHP_SELF\"]</td><td class=\"v\">");
    push_escaped(&mut page, path);
    push_str(
        &mut page,
        "</td></tr>\n<tr><td class=\"e\">_SERVER[\"REQUEST_TIME_FLOAT\"]</td><td class=\"v\">",
    );
    push_escaped(&mut page, float.as_str());
    push_str(&mut page, "</td></tr>\n<tr><td class=\"e\">_SERVER[\"REQUEST_TIME\"]</td><td class=\"v\">");
    push_escaped(&mut page, time.as_str());
    push_str(
        &mut page,
        "</td></tr>\n</table>\n<h2>PHP License</h2>\n<table>\n<tr class=\"v\"><td>\n<p>\nThis program is free software; you can redistribute it and/or modify it under the terms of the PHP License as published by the PHP Group and included in the distribution in the file:  LICENSE\n</p>\n</td></tr>\n</table>\n</div></body></html>\n",
    );
    page
}

/// Splits a file name at its last `.` when what follows is a PHP extension:
/// the stem and `true`; otherwise the whole name and `false`.
fn split_php_extension(name: &Vec<char>) -> (r: (Vec<char>, bool))
    ensures
        (r.0@, r.1) == php_stem(name@),
{
    let extensions: [&'static str; 6] = ["php", "php3", "php4", "php5", "phtml", "phps"];
    assert(extensions@ == php_extensions());
    match find_last_dot(name) {
        Some(k) => {
            let ext = crate::text::char_range(name, k + 1, name.len());
            if listed_chars(&extensions, &ext) {
                (crate::text::char_range(name, 0, k), true)
            } else {
                (name.clone(), false)
            }
        },
        None => (name.clone(), false),
    }
}

/// Whether a lower-case file name names a `phpinfo()` page.
fn is_phpinfo_name(name: &Vec<char>) -> (b: bool)
    ensures
        b == phpinfo_name(name@),
{
    let stems: [&'static str; 4] = ["phpinfo", "php-info", "php_info", "phpversion"];
    let generic: [&'static str; 4] = ["info", "test", "i", "infophp"];
    assert(stems@ == phpinfo_stems());
    assert(generic@ == generic_php_stems());
    let (stem, is_php) = split_php_extension(name);
    listed_chars(&stems, &stem) || (is_php && listed_chars(&generic, &stem))
}

impl PhpInfoGenerator {
    /// The generator.
    pub fn new() -> Self {
        PhpInfoGenerator
    }
}

impl Default for PhpInfoGenerator {
    fn default() -> (g: Self)
        ensures
            g == PhpInfoGenerator,
    {
        PhpInfoGenerator
    }
}

impl PayloadGenerator for PhpInfoGenerator {
    open spec fn spec_name(&self) -> Seq<char> {
        "phpinfo"@
    }

    open spec fn handles(&self, request: RequestView) -> bool {
        (last_segment(request.url.path) matches Some(name) && phpinfo_name(lowercase(name)))
            || mentions(request.url.query, "phpinfo"@)
    }

    open spec fn produces(&self, request: RequestView, payload: PayloadView) -> bool {
        exists|secs: nat, millis: nat|
            millis < 1000 && payload == html_payload(phpinfo_page(request.url.path, secs, millis))
    }

    fn name(&self) -> (n: &'static str) {
        "phpinfo"
    }

    fn supports(&self, request: &Request) -> (b: bool) {
        match request.url().file_name() {
            Some(name) => {
                let lower = lowercase_chars(name.as_str());
                if is_phpinfo_name(&lower) {
                    return true;
                }
            },
            None => {},
        }
        request.url().query_mentions("phpinfo")
    }

    fn generate(&self, request: &Request) -> (p: Payload) {
        let (secs, millis) = utc_now();
        Payload::html(render_phpinfo(request.url().path(), secs as u64, millis as u64))
    }
}

} // verus!

verus! {

/// A `phpinfo()` file name, in any letter case, is recognised in any
/// directory.
pub proof fn lemma_phpinfo_in_any_directory(
    g: PhpInfoGenerator,
    request: RequestView,
    dir: Seq<char>,
    name: Seq<char>,
)
    requires
        phpinfo_name(lowercase(name)),
        !name.contains('/'),
        request.url.path == dir + seq!['/'] + name,
    ensures
        g.handles(request),
{
    assert(name.len() > 0) by {
        if name.len() == 0 {
            assert(lowercase(name) == Seq::<char>::empty());
            assert(last_dot(Seq::<char>::empty()) == -1);
            reveal_strlit("phpinfo");
            reveal_strlit("php-info");
            reveal_strlit("php_info");
            reveal_strlit("phpversion");
            assert(!listed(phpinfo_stems(), Seq::<char>::empty()));
        }
    }
    crate::domain::request_url::lemma_segments_of_file_in(dir, name);
}

} // verus!

verus! {

/// The fraction in `REQUEST_TIME_FLOAT` reads back as the milliseconds: for
/// any `m` below a thousand it is three digits, zero padded on the left,
/// whose value is `m`.
pub proof fn lemma_millis_read_back(m: nat)
    requires
        m < 1000,
    ensures
        millis_text(m).len() == 3,
        forall|i: int| 0 <= i < 3 ==> '0' <= #[trigger] millis_text(m)[i] && millis_text(m)[i] <= '9',
        super::alphabet::digits_value(millis_text(m)) == m,
{
    reveal_strlit("00");
    reveal_strlit("0");
    reveal_with_fuel(vstd::arithmetic::power::pow, 4);
    super::alphabet::lemma_decimal_digits(m);
    super::alphabet::lemma_decimal_value(m);
    let z: Seq<char> = if m < 10 {
        "00"@
    } else if m < 100 {
        "0"@
    } else {
        Seq::empty()
    };
    let k: nat = if m < 10 {
        1
    } else if m < 100 {
        2
    } else {
        3
    };
    if m >= 10 {
        assert(vstd::arithmetic::power::pow(10, 1) == 10);
        assert(vstd::arithmetic::power::pow(10, 2) == 100);
        assert(vstd::arithmetic::power::pow(10, 3) == 1000);
        super::alphabet::lemma_decimal_length(m, k);
    }
    assert(decimal(m).len() == k);
    assert(super::alphabet::digits_value(z) == 0) by {
        reveal_with_fuel(super::alphabet::digits_value, 3);
    }
    super::alphabet::lemma_leading_zeros(z, decimal(m));
    assert(millis_text(m) == z + decimal(m));
    assert forall|i: int| 0 <= i < 3 implies '0' <= #[trigger] millis_text(m)[i] && millis_text(m)[i]
        <= '9' by {
        if i < z.len() {
            assert(millis_text(m)[i] == z[i]);
        } else {
            assert(millis_text(m)[i] == decimal(m)[i - z.len()]);
        }
    }
}

} // verus!
