//! Kee's handle on the AWS CLI's files: where they live, and what reformatting,
//! removing a profile from, or reading a profile out of the config file gives.

use vstd::prelude::*;

use crate::config::opt_view;
use crate::ini::{
    doc_map, ini_parse, parse_ini, profile_from_ini, profile_in, remove_profile_section,
    profile_section_key, render_ini, renders, IniDoc, IniMap,
};
use crate::profile::ProfileInfo;
use crate::session::{
    holds_token_for, parsed_field, session_health_at, CacheFile, Instant, SessionHealth,
};
use crate::text::{chars_of, push_str, string_from_chars};

verus! {

/// `part` appended to the path `base` with a `/` between them, as
/// `PathBuf::join` does on Unix for a relative `part`.
pub open spec fn join_path(base: Seq<char>, part: Seq<char>) -> Seq<char> {
    if base.len() == 0 || base.last() == '/' {
        base + part
    } else {
        base + "/"@ + part
    }
}

/// Appends the relative path `part` to `base`.
pub fn join(base: &str, part: &str) -> (r: String)
    ensures
        r@ == join_path(base@, part@),
{
    let mut out = chars_of(base);
    let n = out.len();
    if n > 0 && out[n - 1] != '/' {
        push_str(&mut out, "/");
    }
    push_str(&mut out, part);
    string_from_chars(out.as_slice())
}

/// Paths of the AWS CLI config file and SSO token cache directory.
#[derive(Clone)]
pub struct AwsManager {
    aws_config_file: String,
    sso_cache_dir: String,
}

/// The AWS config file parsed, with a missing file read as an empty one.
pub open spec fn config_parse(existing: Option<Seq<char>>) -> Result<IniMap, Seq<char>> {
    match existing {
        None => Ok(Map::empty()),
        Some(text) => ini_parse(text),
    }
}

impl AwsManager {
    /// The AWS CLI config file: `.aws/config` under the home directory.
    pub closed spec fn config_file_path(&self) -> Seq<char> {
        self.aws_config_file@
    }

    /// The SSO token cache: `.aws/sso/cache` under the home directory.
    pub closed spec fn cache_dir_path(&self) -> Seq<char> {
        self.sso_cache_dir@
    }

    /// The AWS files under the home directory `home`; `None` without one.
    pub fn new(home: Option<&str>) -> (r: Option<AwsManager>)
        ensures
            match home {
                Some(h) => r matches Some(m) && m.config_file_path() == join_path(
                    join_path(h@, ".aws"@),
                    "config"@,
                ) && m.cache_dir_path() == join_path(
                    join_path(join_path(h@, ".aws"@), "sso"@),
                    "cache"@,
                ),
                None => r is None,
            },
    {
        match home {
            Some(h) => {
                let aws = join(h, ".aws");
                let aws_config_file = join(aws.as_str(), "config");
                let sso = join(aws.as_str(), "sso");
                let sso_cache_dir = join(sso.as_str(), "cache");
                Some(AwsManager { aws_config_file, sso_cache_dir })
            },
            None => None,
        }
    }

    /// The AWS files at the given paths.
    pub fn new_with_paths(aws_config_file: String, sso_cache_dir: String) -> (r: AwsManager)
        ensures
            r.config_file_path() == aws_config_file@,
            r.cache_dir_path() == sso_cache_dir@,
    {
        AwsManager { aws_config_file, sso_cache_dir }
    }

    /// Path of the AWS CLI config file.
    pub fn aws_config_file(&self) -> (r: &str)
        ensures
            r@ == self.config_file_path(),
    {
        self.aws_config_file.as_str()
    }

    /// Path of the SSO token cache directory.
    pub fn sso_cache_dir(&self) -> (r: &str)
        ensures
            r@ == self.cache_dir_path(),
    {
        self.sso_cache_dir.as_str()
    }

    /// The config file rewritten in Kee's layout: every section and key with a
    /// value, `key = value`, a blank line after each section. `existing` is the
    /// file's text, `None` when there is no file. Fails with the parser's
    /// message when the text does not parse.
    pub fn format_config(&self, existing: Option<String>) -> (r: Result<String, String>)
        ensures
            match config_parse(opt_view(existing)) {
                Ok(m) => r matches Ok(out) && renders(m, out@),
                Err(e) => r matches Err(x) && x@ == e,
            },
    {
        let doc = match existing {
            None => IniDoc::empty(),
            Some(text) => match parse_ini(text) {
                Ok(doc) => doc,
                Err(e) => return Err(e),
            },
        };
        let out = render_ini(&doc);
        assert(renders(doc_map(doc@), out@));
        Ok(out)
    }

    /// The config file without the section of the AWS profile `profile_name`,
    /// rewritten as `format_config` does. Fails with the parser's message when
    /// the text does not parse.
    pub fn remove_profile(&self, existing: Option<String>, profile_name: &str) -> (r: Result<
        String,
        String,
    >)
        ensures
            match config_parse(opt_view(existing)) {
                Ok(m) => r matches Ok(out) && renders(m.remove(profile_section_key(profile_name@)), out@),
                Err(e) => r matches Err(x) && x@ == e,
            },
    {
        let mut doc = match existing {
            None => IniDoc::empty(),
            Some(text) => match parse_ini(text) {
                Ok(doc) => doc,
                Err(e) => return Err(e),
            },
        };
        remove_profile_section(&mut doc, profile_name);
        let out = render_ini(&doc);
        assert(renders(doc_map(doc@), out@));
        Ok(out)
    }

    /// The profile `profile_name` as the config file describes it (see
    /// `profile_in`); `None` when there is no file, it does not parse, or the
    /// profile is missing or incomplete.
    pub fn read_profile(&self, existing: Option<String>, profile_name: &str) -> (r: Option<ProfileInfo>)
        ensures
            match existing {
                None => r is None,
                Some(text) => match ini_parse(text@) {
                    Ok(m) => match r {
                        Some(p) => profile_in(m, profile_name@) == Some(p@),
                        None => profile_in(m, profile_name@) is None,
                    },
                    Err(_) => r is None,
                },
            },
    {
        match existing {
            None => None,
            Some(text) => match parse_ini(text) {
                Ok(doc) => profile_from_ini(&doc, profile_name),
                Err(_) => None,
            },
        }
    }
}

impl AwsManager {
    /// Index of the cached SSO token file of the profile's start URL among the
    /// files of the cache directory (see `session::find_sso_cache_file`).
    pub fn find_sso_cache_file(&self, files: &Vec<CacheFile>, profile_info: &ProfileInfo) -> (r: Option<usize>)
        ensures
            match r {
                Some(i) => i < files@.len() && holds_token_for(files@[i as int], profile_info.sso_start_url@, profile_info.session_name@)
                    && forall|k: int| 0 <= k < i ==> !holds_token_for(#[trigger] files@[k], profile_info.sso_start_url@, profile_info.session_name@),
                None => forall|k: int| 0 <= k < files@.len() ==> !holds_token_for(#[trigger] files@[k], profile_info.sso_start_url@, profile_info.session_name@),
            },
    {
        crate::session::find_sso_cache_file(files, profile_info.sso_start_url.as_str(), profile_info.session_name.as_str())
    }

    /// The expiry recorded in the profile's cached SSO token: that of the
    /// first cache file holding its start URL's token, when it parses.
    pub fn read_token_expiry(&self, files: &Vec<CacheFile>, profile_info: &ProfileInfo) -> (r: Option<Instant>)
        ensures
            match first_token_file(files@, profile_info.sso_start_url@, profile_info.session_name@) {
                Some(i) => files@[i].contents matches Some(c) && match r {
                    Some(t) => parsed_field(opt_view(c.expires_at)) == Some(t@),
                    None => parsed_field(opt_view(c.expires_at)) is None,
                },
                None => r is None,
            },
    {
        match self.find_sso_cache_file(files, profile_info) {
            Some(i) => {
                proof {
                    lemma_first_token_file(files@, profile_info.sso_start_url@, profile_info.session_name@, i as int);
                }
                crate::session::token_expiry(files[i].contents.as_ref())
            },
            None => {
                proof {
                    lemma_no_token_file(files@, profile_info.sso_start_url@, profile_info.session_name@);
                }
                None
            },
        }
    }

    /// The health of the profile's SSO session now, from the first cache file
    /// holding its start URL's token; `Expired` when there is none.
    pub fn read_session_health(&self, files: &Vec<CacheFile>, profile_info: &ProfileInfo) -> (r: SessionHealth)
        ensures
            first_token_file(files@, profile_info.sso_start_url@, profile_info.session_name@) is None ==> r
                == SessionHealth::Expired,
            first_token_file(files@, profile_info.sso_start_url@, profile_info.session_name@) matches Some(i) ==> exists|
                now: Instant,
            | #[trigger] health_from_file(files@[i], now, r),
    {
        match self.find_sso_cache_file(files, profile_info) {
            Some(i) => {
                proof {
                    lemma_first_token_file(files@, profile_info.sso_start_url@, profile_info.session_name@, i as int);
                }
                let c = files[i].contents.as_ref();
                let health = crate::session::session_health_now(c);
                proof {
                    let now = choose|now: Instant| #[trigger] session_health_at(c, now, health);
                    assert(health_from_file(files@[i as int], now, health));
                    assert(first_token_file(files@, profile_info.sso_start_url@, profile_info.session_name@)->0 == i as int);
                }
                health
            },
            None => {
                proof {
                    lemma_no_token_file(files@, profile_info.sso_start_url@, profile_info.session_name@);
                }
                SessionHealth::Expired
            },
        }
    }
}

/// Index of the first file that holds the cached token of `start_url`.
pub open spec fn first_token_file(files: Seq<CacheFile>, start_url: Seq<char>, session_name: Seq<char>) -> Option<int> {
    if exists|i: int| 0 <= i < files.len() && holds_token_for(files[i], start_url, session_name) {
        Some(
            choose|i: int|
                0 <= i < files.len() && holds_token_for(files[i], start_url, session_name) && forall|k: int|
                    0 <= k < i ==> !holds_token_for(#[trigger] files[k], start_url, session_name),
        )
    } else {
        None
    }
}

/// `r` is what `session_health` gives at `now` for the token in `f`.
pub open spec fn health_from_file(f: CacheFile, now: Instant, r: SessionHealth) -> bool {
    match f.contents {
        Some(c) => session_health_at(Some(&c), now, r),
        None => session_health_at(None, now, r),
    }
}

proof fn lemma_first_token_file(files: Seq<CacheFile>, start_url: Seq<char>, session_name: Seq<char>, i: int)
    requires
        0 <= i < files.len(),
        holds_token_for(files[i], start_url, session_name),
        forall|k: int| 0 <= k < i ==> !holds_token_for(#[trigger] files[k], start_url, session_name),
    ensures
        first_token_file(files, start_url, session_name) == Some(i),
{
    let j = choose|j: int|
        0 <= j < files.len() && holds_token_for(files[j], start_url, session_name) && forall|k: int|
            0 <= k < j ==> !holds_token_for(#[trigger] files[k], start_url, session_name);
    if j < i {
        assert(!holds_token_for(files[j], start_url, session_name));
    }
    if i < j {
        assert(!holds_token_for(files[i], start_url, session_name));
    }
}

proof fn lemma_no_token_file(files: Seq<CacheFile>, start_url: Seq<char>, session_name: Seq<char>)
    requires
        forall|k: int| 0 <= k < files.len() ==> !holds_token_for(#[trigger] files[k], start_url, session_name),
    ensures
        first_token_file(files, start_url, session_name) is None,
{
}

} // verus!
