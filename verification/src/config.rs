//! The agent's settings: what the configuration file gives, what the environment adds,
//! and the defaults that fill the rest.

use vstd::prelude::*;
use crate::text::{
    chars_of, copy_str, ends_with, first_word, first_word_of, has_suffix, split, split_chars,
    string_of, string_views, trim, trimmed,
};

verus! {

/// The settings that an optional TOML file may give.
#[derive(Debug, Clone)]
pub struct Config {
    pub server_url: Option<String>,
    pub host: Option<String>,
    pub token: Option<String>,
    pub systemd_units: Option<Vec<String>>,
}

impl Default for Config {
    /// No file: nothing is set.
    fn default() -> (c: Self)
        ensures
            c.server_url is None,
            c.host is None,
            c.token is None,
            c.systemd_units is None,
    {
        Config { server_url: None, host: None, token: None, systemd_units: None }
    }
}

/// The values of the environment variables `LOGHUB_SERVER_URL`, `LOGHUB_HOSTNAME`,
/// `LOGHUB_TOKEN` and `SYSTEMD_UNITS`, each `None` when unset.
#[derive(Debug, Clone)]
pub struct EnvSettings {
    pub server_url: Option<String>,
    pub hostname: Option<String>,
    pub token: Option<String>,
    pub systemd_units: Option<String>,
}

/// The settings the agent runs with.
#[derive(Debug, Clone)]
pub struct RuntimeConfig {
    pub server_url: String,
    pub host: String,
    pub token: Option<String>,
    pub systemd_units: Vec<String>,
}

/// The unit names of a comma-separated list, each trimmed of whitespace.
pub open spec fn unit_list(list: Seq<char>) -> Seq<Seq<char>> {
    split(list, ',').map_values(|piece: Seq<char>| trim(piece))
}

/// The first of two optional texts that is set, else the fallback.
pub open spec fn first_set(a: Option<String>, b: Option<String>, fallback: Seq<char>) -> Seq<char> {
    match a {
        Some(x) => x@,
        None => match b {
            Some(y) => y@,
            None => fallback,
        },
    }
}

/// The units that the file or else the environment names, else the installed ones.
pub open spec fn chosen_units(
    file: Option<Vec<String>>,
    env: Option<String>,
    installed: Seq<Seq<char>>,
) -> Seq<Seq<char>> {
    match file {
        Some(v) => string_views(v@),
        None => match env {
            Some(s) => unit_list(s@),
            None => installed,
        },
    }
}

/// A unit name that journald can follow: a service, not a service template.
pub open spec fn is_service_name(w: Seq<char>) -> bool {
    ends_with(w, ".service"@) && !ends_with(w, "@.service"@)
}

/// The service names among `words`, in order.
pub open spec fn service_names(words: Seq<Seq<char>>) -> Seq<Seq<char>>
    decreases words.len(),
{
    if words.len() == 0 {
        Seq::empty()
    } else {
        let rest = service_names(words.drop_last());
        if is_service_name(words.last()) {
            rest.push(words.last())
        } else {
            rest
        }
    }
}

/// The service units of a unit-file listing (one unit per line, its name first, as
/// `systemctl list-unit-files --type=service --no-legend` prints them).
pub open spec fn listed_services(listing: Seq<char>) -> Seq<Seq<char>> {
    service_names(split(listing, '\n').map_values(|line: Seq<char>| first_word(line)))
}

/// Splits a comma-separated list of unit names and trims each name.
pub fn parse_units(list: &str) -> (units: Vec<String>)
    ensures
        string_views(units@) == unit_list(list@),
{
    let cs = chars_of(list);
    let pieces = split_chars(&cs, ',');
    let mut units: Vec<String> = Vec::new();
    let mut i: usize = 0;
    while i < pieces.len()
        invariant
            i <= pieces.len(),
            pieces@.map_values(|x: Vec<char>| x@) == split(list@, ','),
            string_views(units@) == unit_list(list@).take(i as int),
        decreases pieces.len() - i,
    {
        let piece = string_of(&pieces[i]);
        let unit = trimmed(piece.as_str());
        proof {
            assert(pieces@[i as int]@ == split(list@, ',')[i as int]);
            assert(unit@ == unit_list(list@)[i as int]);
        }
        let ghost prev = units@;
        units.push(unit);
        assert(string_views(units@) =~= string_views(prev).push(unit_list(list@)[i as int]));
        i = i + 1;
        assert(string_views(units@) =~= unit_list(list@).take(i as int));
    }
    assert(unit_list(list@).take(pieces.len() as int) =~= unit_list(list@));
    units
}

/// The installed service units named in a unit-file listing.
pub fn parse_unit_listing(listing: &str) -> (units: Vec<String>)
    ensures
        string_views(units@) == listed_services(listing@),
{
    let cs = chars_of(listing);
    let lines = split_chars(&cs, '\n');
    let suffix = chars_of(".service");
    let template = chars_of("@.service");
    let ghost words = split(listing@, '\n').map_values(|line: Seq<char>| first_word(line));
    let mut units: Vec<String> = Vec::new();
    let mut i: usize = 0;
    while i < lines.len()
        invariant
            i <= lines.len(),
            lines@.map_values(|x: Vec<char>| x@) == split(listing@, '\n'),
            words == split(listing@, '\n').map_values(|line: Seq<char>| first_word(line)),
            suffix@ == ".service"@,
            template@ == "@.service"@,
            string_views(units@) == service_names(words.take(i as int)),
        decreases lines.len() - i,
    {
        let w = first_word_of(&lines[i]);
        proof {
            assert(lines@[i as int]@ == split(listing@, '\n')[i as int]);
            assert(w@ == words[i as int]);
            assert(words.take(i + 1).drop_last() =~= words.take(i as int));
            assert(words.take(i + 1).last() == words[i as int]);
        }
        if has_suffix(&w, &suffix) && !has_suffix(&w, &template) {
            let ghost prev = units@;
            units.push(string_of(&w));
            assert(string_views(units@) =~= string_views(prev).push(w@));
        }
        i = i + 1;
    }
    assert(words.take(lines.len() as int) =~= words);
    units
}

/// The agent needs the machine's host name only when neither the file nor the
/// environment names the host.
pub fn needs_host_fallback(file: &Config, env: &EnvSettings) -> (b: bool)
    ensures
        b == (file.host is None && env.hostname is None),
{
    file.host.is_none() && env.hostname.is_none()
}

/// The agent needs the installed service units only when neither the file nor the
/// environment lists units.
pub fn needs_unit_discovery(file: &Config, env: &EnvSettings) -> (b: bool)
    ensures
        b == (file.systemd_units is None && env.systemd_units is None),
{
    file.systemd_units.is_none() && env.systemd_units.is_none()
}

/// Copies a list of strings.
fn copy_strings(v: &Vec<String>) -> (out: Vec<String>)
    ensures
        string_views(out@) == string_views(v@),
{
    let mut out: Vec<String> = Vec::new();
    let mut i: usize = 0;
    while i < v.len()
        invariant
            i <= v.len(),
            string_views(out@) == string_views(v@).take(i as int),
        decreases v.len() - i,
    {
        let c = copy_str(v[i].as_str());
        let ghost prev = out@;
        out.push(c);
        assert(string_views(out@) =~= string_views(prev).push(v@[i as int]@));
        i = i + 1;
        assert(string_views(out@) =~= string_views(v@).take(i as int));
    }
    assert(string_views(v@).take(v.len() as int) =~= string_views(v@));
    out
}

/// The first of two optional texts that is set, else `fallback`.
fn pick(a: &Option<String>, b: &Option<String>, fallback: &str) -> (r: String)
    ensures
        r@ == first_set(*a, *b, fallback@),
{
    match a {
        Some(x) => copy_str(x.as_str()),
        None => match b {
            Some(y) => copy_str(y.as_str()),
            None => copy_str(fallback),
        },
    }
}

/// The settings the agent runs with: each one from the file if it sets it, else from the
/// environment, else the default. `fallback_host` is the machine's host name and
/// `installed_units` the service units installed on it; each is used only when neither
/// the file nor the environment gives the setting.
pub fn build_config(
    file: &Config,
    env: &EnvSettings,
    fallback_host: &str,
    installed_units: &Vec<String>,
) -> (c: RuntimeConfig)
    ensures
        c.server_url@ == first_set(file.server_url, env.server_url, "http://127.0.0.1:8080"@),
        c.host@ == first_set(file.host, env.hostname, fallback_host@),
        c.token matches Some(t) ==> t@ == first_set(file.token, env.token, Seq::empty()),
        c.token is Some <==> (file.token is Some || env.token is Some),
        string_views(c.systemd_units@) == chosen_units(
            file.systemd_units,
            env.systemd_units,
            string_views(installed_units@),
        ),
{
    let server_url = pick(&file.server_url, &env.server_url, "http://127.0.0.1:8080");
    let host = pick(&file.host, &env.hostname, fallback_host);
    let token = if file.token.is_some() || env.token.is_some() {
        Some(pick(&file.token, &env.token, ""))
    } else {
        None
    };
    let systemd_units = match &file.systemd_units {
        Some(v) => copy_strings(v),
        None => match &env.systemd_units {
            Some(s) => parse_units(s.as_str()),
            None => copy_strings(installed_units),
        },
    };
    RuntimeConfig { server_url, host, token, systemd_units }
}

} // verus!
