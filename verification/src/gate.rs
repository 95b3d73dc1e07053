//! Request gatekeeping decisions: the host allow-list and the optional
//! shared-secret check.
//!
//! The functions here take the already-extracted header and query text and
//! decide admission; reading headers off a request is left to the caller.

use vstd::prelude::*;
use vstd::string::StrSliceExecFns;
use vstd::string::StringExecFns;
use crate::text::spec_ends_with;
use crate::text::spec_starts_with;
use crate::text::spec_trim;
use crate::text::lower_of;
use crate::text::str_eq;
use crate::text::str_ends_with;
use crate::text::str_starts_with;
use crate::text::str_trim;
use crate::text::find_char;
use crate::text::lowercase;

verus! {

/// Index of the first occurrence of `c` in `s`, or `-1`.
pub open spec fn spec_find(s: Seq<char>, c: char) -> int
    decreases s.len(),
{
    if s.len() == 0 {
        -1
    } else if s[0] == c {
        0
    } else {
        let r = spec_find(s.subrange(1, s.len() as int), c);
        if r < 0 {
            -1
        } else {
            r + 1
        }
    }
}

proof fn lemma_spec_find_at(s: Seq<char>, c: char, i: int)
    requires
        0 <= i < s.len(),
        s[i] == c,
        forall|j: int| 0 <= j < i ==> s[j] != c,
    ensures
        spec_find(s, c) == i,
    decreases s.len(),
{
    if i > 0 {
        lemma_spec_find_at(s.subrange(1, s.len() as int), c, i - 1);
    }
}

proof fn lemma_spec_find_none(s: Seq<char>, c: char)
    requires
        forall|j: int| 0 <= j < s.len() ==> s[j] != c,
    ensures
        spec_find(s, c) == -1,
    decreases s.len(),
{
    if s.len() > 0 {
        lemma_spec_find_none(s.subrange(1, s.len() as int), c);
    }
}

/// The segments of `s` between occurrences of `sep`; `n + 1` segments for
/// `n` separators, in order.
pub open spec fn spec_split(s: Seq<char>, sep: char) -> Seq<Seq<char>> {
    split_rec(s, sep, Seq::empty())
}

pub open spec fn split_rec(s: Seq<char>, sep: char, cur: Seq<char>) -> Seq<Seq<char>>
    decreases s.len(),
{
    if s.len() == 0 {
        seq![cur]
    } else if s[0] == sep {
        seq![cur] + split_rec(s.subrange(1, s.len() as int), sep, Seq::empty())
    } else {
        split_rec(s.subrange(1, s.len() as int), sep, cur.push(s[0]))
    }
}

proof fn lemma_split_rec_head(s: Seq<char>, sep: char, cur: Seq<char>, k: int)
    requires
        0 <= k < s.len(),
        s[k] == sep,
        forall|j: int| 0 <= j < k ==> s[j] != sep,
    ensures
        split_rec(s, sep, cur) == seq![cur + s.subrange(0, k)] + split_rec(
            s.subrange(k + 1, s.len() as int),
            sep,
            Seq::empty(),
        ),
    decreases s.len(),
{
    let t = s.subrange(1, s.len() as int);
    if k == 0 {
        assert(cur + s.subrange(0, 0) =~= cur);
    } else {
        lemma_split_rec_head(t, sep, cur.push(s[0]), k - 1);
        assert(cur.push(s[0]) + t.subrange(0, k - 1) =~= cur + s.subrange(0, k));
        assert(t.subrange(k, t.len() as int) =~= s.subrange(k + 1, s.len() as int));
    }
}

proof fn lemma_split_rec_nosep(s: Seq<char>, sep: char, cur: Seq<char>)
    requires
        forall|j: int| 0 <= j < s.len() ==> s[j] != sep,
    ensures
        split_rec(s, sep, cur) == seq![cur + s],
    decreases s.len(),
{
    if s.len() == 0 {
        assert(cur + s =~= cur);
    } else {
        let t = s.subrange(1, s.len() as int);
        lemma_split_rec_nosep(t, sep, cur.push(s[0]));
        assert(cur.push(s[0]) + t =~= cur + s);
    }
}

/// Splits `s` at every occurrence of `sep`.
pub fn split_str(s: &str, sep: char) -> (r: Vec<String>)
    ensures
        r.deep_view() == spec_split(s@, sep),
{
    let n = s.unicode_len();
    let mut out: Vec<String> = Vec::new();
    let mut start: usize = 0;
    let mut i: usize = 0;
    proof {
        assert(s@.subrange(0, n as int) =~= s@);
        assert(out.deep_view() =~= Seq::<Seq<char>>::empty());
        assert(Seq::<Seq<char>>::empty() + spec_split(s@, sep) =~= spec_split(s@, sep));
    }
    while i < n
        invariant
            n == s@.len(),
            start <= i <= n,
            forall|j: int| start <= j < i ==> s@[j] != sep,
            spec_split(s@, sep) == out.deep_view() + spec_split(
                s@.subrange(start as int, n as int),
                sep,
            ),
        decreases n - i,
    {
        if s.get_char(i) == sep {
            let seg = String::from_str(s.substring_char(start, i));
            out.push(seg);
            proof {
                let rest = s@.subrange(start as int, n as int);
                lemma_split_rec_head(rest, sep, Seq::empty(), i - start);
                assert(Seq::<char>::empty() + rest.subrange(0, i - start) =~= s@.subrange(
                    start as int,
                    i as int,
                ));
                assert(rest.subrange(i - start + 1, rest.len() as int) =~= s@.subrange(
                    i + 1,
                    n as int,
                ));
            }
            start = i + 1;
        }
        i = i + 1;
    }
    let seg = String::from_str(s.substring_char(start, n));
    out.push(seg);
    proof {
        let rest = s@.subrange(start as int, n as int);
        lemma_split_rec_nosep(rest, sep, Seq::empty());
        assert(Seq::<char>::empty() + rest =~= rest);
    }
    out
}

/// One allow-list entry admits the (already lower-cased) host: a `*`-led
/// entry matches any host ending in the rest of the entry, any other entry
/// must equal the host.
pub open spec fn entry_matches(host_lc: Seq<char>, entry: Seq<char>) -> bool {
    if entry.len() > 0 && entry[0] == '*' {
        spec_ends_with(host_lc, entry.subrange(1, entry.len() as int))
    } else {
        host_lc == entry
    }
}

/// Some allow-list entry admits the host.
pub open spec fn spec_host_allowed(host_lc: Seq<char>, entries: Seq<Seq<char>>) -> bool {
    exists|i: int| 0 <= i < entries.len() && entry_matches(host_lc, entries[i])
}

/// Case-insensitive host admission against the allow-list.
pub fn is_host_allowed(host: &str, allowed_hosts: &[String]) -> (r: bool)
    ensures
        r == spec_host_allowed(lower_of(host@), allowed_hosts.deep_view()),
{
    let host_lc = lowercase(host);
    let n = allowed_hosts.len();
    let mut i: usize = 0;
    while i < n
        invariant
            n == allowed_hosts.deep_view().len(),
            host_lc@ == lower_of(host@),
            i <= n,
            forall|j: int| 0 <= j < i ==> !entry_matches(
                lower_of(host@),
                allowed_hosts.deep_view()[j],
            ),
        decreases n - i,
    {
        let allowed: &String = &allowed_hosts[i];
        let m = allowed.as_str().unicode_len();
        proof {
            assert(allowed_hosts.deep_view()[i as int] == allowed@);
        }
        if m > 0 && allowed.as_str().get_char(0) == '*' {
            let suffix = allowed.as_str().substring_char(1, m);
            if str_ends_with(host_lc.as_str(), suffix) {
                return true;
            }
        } else {
            if str_eq(host_lc.as_str(), allowed.as_str()) {
                return true;
            }
        }
        i = i + 1;
    }
    false
}

/// The host part of a `Host` header value: everything before the first `:`.
pub open spec fn spec_host_part(h: Seq<char>) -> Seq<char> {
    if spec_find(h, ':') >= 0 {
        h.subrange(0, spec_find(h, ':'))
    } else {
        h
    }
}

/// Strips an optional `:port` suffix off a `Host` header value.
pub fn strip_port<'a>(h: &'a str) -> (r: &'a str)
    ensures
        r@ == spec_host_part(h@),
{
    match find_char(h, ':') {
        Some(i) => {
            proof {
                lemma_spec_find_at(h@, ':', i as int);
            }
            h.substring_char(0, i)
        },
        None => {
            proof {
                lemma_spec_find_none(h@, ':');
            }
            h
        },
    }
}

/// A request is admitted when it carries a `Host` header whose host part,
/// case-folded, is admitted by the allow-list.
pub open spec fn spec_host_permitted(header: Option<Seq<char>>, entries: Seq<Seq<char>>) -> bool {
    match header {
        Some(h) => spec_host_allowed(lower_of(spec_host_part(h)), entries),
        None => false,
    }
}

/// Admission decision for a request's `Host` header; a missing header is
/// rejected.
pub fn host_permitted(header: Option<&str>, allowed_hosts: &[String]) -> (r: bool)
    ensures
        r == spec_host_permitted(
            match header {
                Some(h) => Some(h@),
                None => None,
            },
            allowed_hosts.deep_view(),
        ),
{
    match header {
        Some(h) => {
            let host = strip_port(h);
            is_host_allowed(host, allowed_hosts)
        },
        None => false,
    }
}

/// The allow-list an environment string denotes: split on commas, each entry
/// trimmed and case-folded.
pub open spec fn spec_allowed_hosts(s: Seq<char>) -> Seq<Seq<char>> {
    spec_split(s, ',').map_values(|e: Seq<char>| lower_of(spec_trim(e)))
}

/// Parses a comma-separated allow-list.
pub fn parse_allowed_hosts(s: &str) -> (r: Vec<String>)
    ensures
        r.deep_view() == spec_allowed_hosts(s@),
{
    let parts = split_str(s, ',');
    let mut out: Vec<String> = Vec::new();
    let mut i: usize = 0;
    while i < parts.len()
        invariant
            i <= parts.len(),
            parts.deep_view() == spec_split(s@, ','),
            out.deep_view() =~= spec_split(s@, ',').subrange(0, i as int).map_values(
                |e: Seq<char>| lower_of(spec_trim(e)),
            ),
        decreases parts.len() - i,
    {
        let entry = lowercase(str_trim(parts[i].as_str()));
        out.push(entry);
        proof {
            assert(spec_split(s@, ',').subrange(0, i + 1).map_values(
                |e: Seq<char>| lower_of(spec_trim(e)),
            ) =~= spec_split(s@, ',').subrange(0, i as int).map_values(
                |e: Seq<char>| lower_of(spec_trim(e)),
            ).push(lower_of(spec_trim(spec_split(s@, ',')[i as int]))));
        }
        i = i + 1;
    }
    proof {
        assert(spec_split(s@, ',').subrange(0, parts.deep_view().len() as int) =~= spec_split(
            s@,
            ',',
        ));
    }
    out
}

/// What a bearer `Authorization` header yields: the text after `Bearer `.
pub open spec fn spec_bearer_token(auth: Seq<char>) -> Option<Seq<char>> {
    if spec_starts_with(auth, "Bearer "@) {
        Some(auth.subrange("Bearer "@.len() as int, auth.len() as int))
    } else {
        None
    }
}

/// The value of the first `api_key` parameter of a query string, if any.
pub open spec fn spec_query_api_key(params: Seq<Seq<char>>) -> Option<Seq<char>>
    decreases params.len(),
{
    if params.len() == 0 {
        None
    } else {
        let p = params[0];
        let eq = spec_find(p, '=');
        if eq >= 0 && p.subrange(0, eq) == "api_key"@ {
            Some(p.subrange(eq + 1, p.len() as int))
        } else {
            spec_query_api_key(params.subrange(1, params.len() as int))
        }
    }
}

/// The secret a request presents: a bearer token, else a dedicated header,
/// else an `api_key` query parameter.
pub open spec fn spec_presented_key(
    auth: Option<Seq<char>>,
    dedicated: Option<Seq<char>>,
    query: Option<Seq<char>>,
) -> Option<Seq<char>> {
    if auth is Some && spec_bearer_token(auth->0) is Some {
        spec_bearer_token(auth->0)
    } else if dedicated is Some {
        dedicated
    } else if query is Some {
        spec_query_api_key(spec_split(query->0, '&'))
    } else {
        None
    }
}

/// Extracts the secret a request presents, trying the `Authorization` bearer
/// form, the dedicated header, and the query string, in that order.
pub fn extract_api_key(
    auth: Option<&str>,
    dedicated: Option<&str>,
    query: Option<&str>,
) -> (r: Option<String>)
    ensures
        match r {
            Some(k) => spec_presented_key(
                spec_opt_view(auth),
                spec_opt_view(dedicated),
                spec_opt_view(query),
            ) == Some(k@),
            None => spec_presented_key(
                spec_opt_view(auth),
                spec_opt_view(dedicated),
                spec_opt_view(query),
            ) is None,
        },
{
    if let Some(a) = auth {
        if str_starts_with(a, "Bearer ") {
            proof {
                reveal_strlit("Bearer ");
            }
            let n = a.unicode_len();
            let token = String::from_str(a.substring_char(7, n));
            return Some(token);
        }
    }
    if let Some(d) = dedicated {
        return Some(String::from_str(d));
    }
    if let Some(q) = query {
        let params = split_str(q, '&');
        let mut i: usize = 0;
        proof {
            assert(spec_split(q@, '&').subrange(0, params.deep_view().len() as int) =~= spec_split(
                q@,
                '&',
            ));
        }
        while i < params.len()
            invariant
                i <= params.len(),
                params.deep_view() == spec_split(q@, '&'),
                spec_opt_view(query) == Some(q@),
                spec_opt_view(dedicated) is None,
                match auth {
                    Some(a2) => !spec_starts_with(a2@, "Bearer "@),
                    None => true,
                },
                spec_query_api_key(spec_split(q@, '&')) == spec_query_api_key(
                    spec_split(q@, '&').subrange(i as int, params.deep_view().len() as int),
                ),
            decreases params.len() - i,
        {
            let p: &String = &params[i];
            let ghost rest = spec_split(q@, '&').subrange(i as int, params.deep_view().len() as int);
            proof {
                assert(params.deep_view()[i as int] == params@[i as int].deep_view());
                assert(rest[0] == p@);
            }
            match find_char(p.as_str(), '=') {
                Some(eq) => {
                    proof {
                        lemma_spec_find_at(p@, '=', eq as int);
                    }
                    let key = p.as_str().substring_char(0, eq);
                    if str_eq(key, "api_key") {
                        let n = p.as_str().unicode_len();
                        let value = String::from_str(p.as_str().substring_char(eq + 1, n));
                        proof {
                            assert(rest[0].subrange(0, eq as int) == "api_key"@);
                            assert(spec_query_api_key(rest) == Some(
                                rest[0].subrange(eq + 1, rest[0].len() as int),
                            ));
                        }
                        return Some(value);
                    }
                },
                None => {
                    proof {
                        lemma_spec_find_none(p@, '=');
                    }
                },
            }
            proof {
                assert(rest.subrange(1, rest.len() as int) =~= spec_split(q@, '&').subrange(
                    i + 1,
                    params.deep_view().len() as int,
                ));
            }
            i = i + 1;
        }
        proof {
            assert(spec_split(q@, '&').subrange(
                params.deep_view().len() as int,
                params.deep_view().len() as int,
            ) =~= Seq::<Seq<char>>::empty());
        }
        return None;
    }
    None
}

/// The view of an optional string slice.
pub open spec fn spec_opt_view(s: Option<&str>) -> Option<Seq<char>> {
    match s {
        Some(x) => Some(x@),
        None => None,
    }
}

/// A request is admitted when no secret is configured, or when the presented
/// secret equals the configured one.
pub open spec fn spec_key_permitted(
    configured: Option<Seq<char>>,
    presented: Option<Seq<char>>,
) -> bool {
    match configured {
        None => true,
        Some(c) => presented == Some(c),
    }
}

/// Admission decision for the shared secret.
pub fn api_key_permitted(configured: Option<&String>, presented: Option<&String>) -> (r: bool)
    ensures
        r == spec_key_permitted(
            match configured {
                Some(c) => Some(c@),
                None => None,
            },
            match presented {
                Some(p) => Some(p@),
                None => None,
            },
        ),
{
    match configured {
        None => true,
        Some(c) => match presented {
            Some(p) => str_eq(p.as_str(), c.as_str()),
            None => false,
        },
    }
}

} // verus!
