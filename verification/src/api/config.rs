//! From what the environment offers to the settings of one lookup.
//!
//! Reading the environment is left to the caller, who hands over what it
//! found as a `ConfigSource`.

use vstd::prelude::*;
use vstd::string::*;
use super::ApiConfig;
use super::ApiConfigView;
use super::DEFAULT_API_URL;
use super::text_of;

verus! {

/// Path of the balance endpoint below a service's origin.
pub const ENDPOINT_PATH: &'static str = "/api/user/self";

/// What the environment offers. Each field is `None` where the variable is
/// not set.
#[derive(Clone, Debug, PartialEq, Eq)]
pub struct ConfigSource {
    /// The key that is dedicated to balance lookups.
    pub api_key: Option<String>,
    /// An explicit endpoint, which overrides every other choice.
    pub api_url: Option<String>,
    /// An account id, passed through as it is.
    pub user_id: Option<String>,
    /// The general access token, used only where the caller asks for it.
    pub fallback_token: Option<String>,
    /// The general base URL, from which an endpoint can be derived.
    pub base_url: Option<String>,
}

/// `s` holds `://` at position `i`.
pub open spec fn scheme_mark_at(s: Seq<char>, i: int) -> bool {
    &&& 0 <= i
    &&& i + 3 <= s.len()
    &&& s[i] == ':'
    &&& s[i + 1] == '/'
    &&& s[i + 2] == '/'
}

/// Position of the first `://` in `s` at or after `from`.
pub open spec fn first_scheme_mark(s: Seq<char>, from: int) -> Option<int>
    decreases s.len() - from,
{
    if from < 0 || from + 3 > s.len() {
        None
    } else if scheme_mark_at(s, from) {
        Some(from)
    } else {
        first_scheme_mark(s, from + 1)
    }
}

/// Position of the first `/` in `s` at or after `from`.
pub open spec fn first_slash(s: Seq<char>, from: int) -> Option<int>
    decreases s.len() - from,
{
    if from < 0 || from >= s.len() {
        None
    } else if s[from] == '/' {
        Some(from)
    } else {
        first_slash(s, from + 1)
    }
}

/// Length of `s.subrange(0, end)` once the slashes at its end are taken off.
pub open spec fn trimmed_len(s: Seq<char>, end: int) -> int
    decreases end,
{
    if 0 < end <= s.len() && s[end - 1] == '/' {
        trimmed_len(s, end - 1)
    } else {
        end
    }
}

/// The origin of a base URL: scheme and host, where `s` has a `://` and a path
/// after the host; else all of `s` without the slashes at its end.
pub open spec fn origin(s: Seq<char>) -> Seq<char> {
    match first_scheme_mark(s, 0) {
        Some(p) => match first_slash(s, p + 3) {
            Some(q) => s.subrange(0, q),
            None => s.subrange(0, trimmed_len(s, s.len() as int)),
        },
        None => s.subrange(0, trimmed_len(s, s.len() as int)),
    }
}

/// `first_scheme_mark` finds a `://`, and none lies between `from` and it;
/// where it finds none, there is none at or after `from`.
pub proof fn lemma_first_scheme_mark(s: Seq<char>, from: int)
    requires
        0 <= from,
    ensures
        match first_scheme_mark(s, from) {
            Some(p) => {
                &&& from <= p
                &&& scheme_mark_at(s, p)
                &&& forall|j: int| from <= j < p ==> !scheme_mark_at(s, j)
            },
            None => forall|j: int| from <= j ==> !scheme_mark_at(s, j),
        },
    decreases s.len() - from,
{
    if from + 3 <= s.len() && !scheme_mark_at(s, from) {
        lemma_first_scheme_mark(s, from + 1);
    }
}

/// `first_slash` finds a `/`, and none lies between `from` and it; where it
/// finds none, there is none at or after `from`.
pub proof fn lemma_first_slash(s: Seq<char>, from: int)
    requires
        0 <= from,
    ensures
        match first_slash(s, from) {
            Some(q) => {
                &&& from <= q < s.len()
                &&& s[q] == '/'
                &&& forall|j: int| from <= j < q ==> s[j] != '/'
            },
            None => forall|j: int| from <= j < s.len() ==> s[j] != '/',
        },
    decreases s.len() - from,
{
    if from < s.len() && s[from] != '/' {
        lemma_first_slash(s, from + 1);
    }
}

/// What `trimmed_len` keeps does not end in a slash, and all that it takes
/// off are slashes.
pub proof fn lemma_trimmed_len(s: Seq<char>, end: int)
    requires
        0 <= end <= s.len(),
    ensures
        0 <= trimmed_len(s, end) <= end,
        trimmed_len(s, end) > 0 ==> s[trimmed_len(s, end) - 1] != '/',
        forall|j: int| trimmed_len(s, end) <= j < end ==> s[j] == '/',
    decreases end,
{
    if 0 < end && s[end - 1] == '/' {
        lemma_trimmed_len(s, end - 1);
    }
}

/// The origin of a base URL is its beginning: nothing is added to it and
/// nothing within it is changed.
pub proof fn lemma_origin_is_prefix(s: Seq<char>)
    ensures
        origin(s).len() <= s.len(),
        origin(s) == s.subrange(0, origin(s).len() as int),
{
    lemma_first_scheme_mark(s, 0);
    lemma_trimmed_len(s, s.len() as int);
    if let Some(p) = first_scheme_mark(s, 0) {
        lemma_first_slash(s, p + 3);
    }
}

fn find_scheme_mark(s: &str, len: usize) -> (found: Option<usize>)
    requires
        len == s@.len(),
    ensures
        match found {
            Some(p) => first_scheme_mark(s@, 0) == Some(p as int) && p + 3 <= len,
            None => first_scheme_mark(s@, 0) is None,
        },
{
    if len < 3 {
        return None;
    }
    let mut i: usize = 0;
    while i <= len - 3
        invariant
            len == s@.len(),
            3 <= len,
            i <= len - 2,
            first_scheme_mark(s@, 0) == first_scheme_mark(s@, i as int),
        decreases len - i,
    {
        if s.get_char(i) == ':' && s.get_char(i + 1) == '/' && s.get_char(i + 2) == '/' {
            return Some(i);
        }
        i = i + 1;
    }
    None
}

fn find_slash(s: &str, len: usize, from: usize) -> (found: Option<usize>)
    requires
        len == s@.len(),
    ensures
        match found {
            Some(q) => first_slash(s@, from as int) == Some(q as int) && q < len,
            None => first_slash(s@, from as int) is None,
        },
{
    let mut i: usize = from;
    while i < len
        invariant
            len == s@.len(),
            from <= i,
            first_slash(s@, from as int) == first_slash(s@, i as int),
        decreases len - i,
    {
        if s.get_char(i) == '/' {
            return Some(i);
        }
        i = i + 1;
    }
    None
}

fn trim_end(s: &str, len: usize) -> (end: usize)
    requires
        len == s@.len(),
    ensures
        end == trimmed_len(s@, len as int),
        end <= len,
{
    let mut end: usize = len;
    while end > 0 && s.get_char(end - 1) == '/'
        invariant
            len == s@.len(),
            end <= len,
            trimmed_len(s@, len as int) == trimmed_len(s@, end as int),
        decreases end,
    {
        end = end - 1;
    }
    end
}

/// Derives the balance endpoint from a base URL: the origin of the base URL,
/// followed by `ENDPOINT_PATH`.
pub fn derive_api_url(base_url: &str) -> (url: String)
    ensures
        url@ == origin(base_url@) + ENDPOINT_PATH@,
{
    let len = base_url.unicode_len();
    let cut: usize = match find_scheme_mark(base_url, len) {
        Some(p) => match find_slash(base_url, len, p + 3) {
            Some(q) => q,
            None => trim_end(base_url, len),
        },
        None => trim_end(base_url, len),
    };
    let mut url = String::from_str(base_url.substring_char(0, cut));
    url.append(ENDPOINT_PATH);
    url
}

/// The endpoint to ask where a dedicated key is at hand: the explicit
/// endpoint if there is one, else the default.
pub open spec fn chosen_url(source: ConfigSource) -> Seq<char> {
    match source.api_url {
        Some(url) => url@,
        None => DEFAULT_API_URL@,
    }
}

/// The endpoint to ask where only the general token is at hand: the explicit
/// endpoint if there is one, else the one derived from the base URL, else the
/// default.
pub open spec fn chosen_fallback_url(source: ConfigSource) -> Seq<char> {
    match source.api_url {
        Some(url) => url@,
        None => match source.base_url {
            Some(base) => origin(base@) + ENDPOINT_PATH@,
            None => DEFAULT_API_URL@,
        },
    }
}

/// The settings that `source` gives: none without the dedicated key.
pub open spec fn resolved(source: ConfigSource) -> Option<ApiConfigView> {
    match source.api_key {
        Some(key) => Some(
            ApiConfigView {
                enabled: true,
                api_key: key@,
                api_url: chosen_url(source),
                user_id: text_of(source.user_id),
            },
        ),
        None => None,
    }
}

/// The settings that `source` gives where the general token may stand in for
/// a missing dedicated key.
pub open spec fn resolved_with_fallback(source: ConfigSource) -> Option<ApiConfigView> {
    match source.api_key {
        Some(_) => resolved(source),
        None => match source.fallback_token {
            Some(token) => Some(
                ApiConfigView {
                    enabled: true,
                    api_key: token@,
                    api_url: chosen_fallback_url(source),
                    user_id: text_of(source.user_id),
                },
            ),
            None => None,
        },
    }
}

/// Resolves the settings of a lookup. The dedicated key is required: without
/// it there is no lookup. The account id is carried through unchecked.
pub fn resolve(source: ConfigSource) -> (config: Option<ApiConfig>)
    ensures
        config is Some <==> source.api_key is Some,
        match config {
            Some(c) => resolved(source) == Some(c@),
            None => resolved(source) is None,
        },
{
    match source.api_key {
        Some(api_key) => {
            let api_url = match source.api_url {
                Some(url) => url,
                None => String::from_str(DEFAULT_API_URL),
            };
            Some(ApiConfig { enabled: true, api_key, api_url, user_id: source.user_id })
        },
        None => None,
    }
}

/// Resolves the settings of a lookup as `resolve` does, but falls back on the
/// general token where the dedicated key is missing. The endpoint then comes
/// from the base URL, unless an explicit endpoint is given. The segments of
/// this crate do not fall back: this is for a caller that chooses to.
pub fn resolve_with_fallback(source: ConfigSource) -> (config: Option<ApiConfig>)
    ensures
        config is Some <==> (source.api_key is Some || source.fallback_token is Some),
        match config {
            Some(c) => resolved_with_fallback(source) == Some(c@),
            None => resolved_with_fallback(source) is None,
        },
{
    if source.api_key.is_some() {
        return resolve(source);
    }
    match source.fallback_token {
        Some(token) => {
            let api_url = match source.api_url {
                Some(url) => url,
                None => match source.base_url {
                    Some(base) => derive_api_url(base.as_str()),
                    None => String::from_str(DEFAULT_API_URL),
                },
            };
            Some(ApiConfig { enabled: true, api_key: token, api_url, user_id: source.user_id })
        },
        None => None,
    }
}

/// With the dedicated key at hand the fallback changes nothing; and whatever
/// `resolve` gives, `resolve_with_fallback` gives too.
pub proof fn lemma_fallback_extends_resolve(source: ConfigSource)
    ensures
        resolved(source) is Some ==> resolved_with_fallback(source) == resolved(source),
        resolved(source) is Some <==> source.api_key is Some,
        resolved_with_fallback(source) is Some <==> (source.api_key is Some
            || source.fallback_token is Some),
{
}

} // verus!
