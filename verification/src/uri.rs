//! Parsing of attachment URLs.
//!
//! The wire format accepted here is
//! `scheme://host[:port]/<subsystem-id>?[hostnqn=...][&reftag][&guard]`:
//! the required path segment supplies the subsystem identifier, the service
//! id defaults to the standard target port when no port is given, and query
//! parameters toggle the protection checks or override the host identity.
//! Unknown query keys are ignored.  The grammar below is the specification;
//! the parser is proved to follow it exactly.

use vstd::prelude::*;

use crate::attach::NvmfBdev;

verus! {

/// Why an attachment URL was rejected.
#[derive(Clone, Copy, Debug, PartialEq, Eq, Structural)]
pub enum ParseError {
    /// No well-formed `scheme://` prefix.
    SchemeMissing,
    /// The authority holds no host.
    HostMissing,
    /// The characters after `host:` are not a port number.
    PortInvalid,
    /// No path component to supply the subsystem identifier.
    PathMissing,
}

/// The code point of a decimal digit.
pub open spec fn is_digit(c: char) -> bool {
    48 <= c as u32 && c as u32 <= 57
}

/// A character a scheme may consist of: a letter, a digit, `+`, `-` or `.`.
pub open spec fn is_scheme_char(c: char) -> bool {
    let d = c as u32;
    (97 <= d && d <= 122) || (65 <= d && d <= 90) || (48 <= d && d <= 57) || d == 43 || d == 45
        || d == 46
}

/// The first position in `[from, end)` holding `c`, if any.
pub open spec fn find_char(s: Seq<char>, from: int, end: int, c: char) -> Option<int>
    decreases end - from,
{
    if from >= end {
        None
    } else if s[from] == c {
        Some(from)
    } else {
        find_char(s, from + 1, end, c)
    }
}

/// The first position at or after `from` holding `/` or `?`, or the length
/// when there is none: where an authority or a path segment ends.
pub open spec fn find_delim(s: Seq<char>, from: int) -> int
    decreases s.len() - from,
{
    if from >= s.len() {
        s.len() as int
    } else if s[from] == '/' || s[from] == '?' {
        from
    } else {
        find_delim(s, from + 1)
    }
}

/// What `find_char` returns: the first hit, within bounds, and nothing
/// before it.
pub proof fn lemma_find_char(s: Seq<char>, from: int, end: int, c: char)
    ensures
        find_char(s, from, end, c) matches Some(j) ==> from <= j < end && s[j] == c && (forall|
            k: int,
        |
            from <= k < j ==> s[k] != c),
        find_char(s, from, end, c) is None ==> forall|k: int| from <= k < end ==> s[k] != c,
    decreases end - from,
{
    if from >= end {
    } else if s[from] == c {
    } else {
        lemma_find_char(s, from + 1, end, c);
    }
}

/// The numeric value of a digit string, most significant first.
pub open spec fn dec_val(s: Seq<char>) -> int
    decreases s.len(),
{
    if s.len() == 0 {
        0
    } else {
        dec_val(s.drop_last()) * 10 + (s.last() as u32 - 48)
    }
}

/// A valid port: nonempty, digits only, value at most 65535.
pub open spec fn valid_port(s: Seq<char>) -> bool {
    &&& s.len() > 0
    &&& forall|k: int| 0 <= k < s.len() ==> is_digit(#[trigger] s[k])
    &&& dec_val(s) <= 65535
}

/// The position of the colon that ends the scheme.
pub open spec fn scheme_colon(s: Seq<char>) -> Option<int> {
    find_char(s, 0, s.len() as int, ':')
}

/// The URL opens with a nonempty scheme of scheme characters, followed by
/// a colon and two slashes.
pub open spec fn scheme_ok(s: Seq<char>) -> bool {
    &&& scheme_colon(s) matches Some(j)
    &&& scheme_colon(s).unwrap() > 0
    &&& scheme_colon(s).unwrap() + 3 <= s.len()
    &&& s[scheme_colon(s).unwrap() + 1] == '/'
    &&& s[scheme_colon(s).unwrap() + 2] == '/'
    &&& forall|k: int| 0 <= k < scheme_colon(s).unwrap() ==> is_scheme_char(#[trigger] s[k])
}

/// Where the authority (host and optional port) begins.
pub open spec fn auth_start(s: Seq<char>) -> int {
    scheme_colon(s).unwrap() + 3
}

/// Where the authority ends: at the first `/` or `?` after it, or at the
/// end of the URL.
pub open spec fn auth_end(s: Seq<char>) -> int {
    find_delim(s, auth_start(s))
}

/// The colon separating host from port, when a port is given.
pub open spec fn host_colon(s: Seq<char>) -> Option<int> {
    find_char(s, auth_start(s), auth_end(s), ':')
}

/// Where the host ends.
pub open spec fn host_end(s: Seq<char>) -> int {
    match host_colon(s) {
        Some(j) => j,
        None => auth_end(s),
    }
}

/// The remote target address: the host part of the authority.
pub open spec fn spec_traddr(s: Seq<char>) -> Seq<char> {
    s.subrange(auth_start(s), host_end(s))
}

/// The service id: the given port, or the standard target port `4420` when
/// the URL names none.
pub open spec fn spec_trsvcid(s: Seq<char>) -> Seq<char> {
    match host_colon(s) {
        Some(j) => s.subrange(j + 1, auth_end(s)),
        None => "4420"@,
    }
}

/// The subsystem identifier: the first path segment.
pub open spec fn spec_subnqn(s: Seq<char>) -> Seq<char> {
    s.subrange(auth_end(s) + 1, find_delim(s, auth_end(s) + 1))
}

/// Where the query begins: at the first `?` at or after the authority's end.
pub open spec fn query_pos(s: Seq<char>) -> Option<int> {
    find_char(s, auth_end(s), s.len() as int, '?')
}

/// Where the query pair starting at `from` ends: at the next `&`, or at the
/// end of the URL.
pub open spec fn pair_end(s: Seq<char>, from: int) -> int {
    match find_char(s, from, s.len() as int, '&') {
        Some(j) => j,
        None => s.len() as int,
    }
}

/// Where the key of the query pair starting at `from` ends: at the pair's
/// first `=`, or at the pair's end when the pair has no value.
pub open spec fn key_end(s: Seq<char>, from: int) -> int {
    match find_char(s, from, pair_end(s, from), '=') {
        Some(j) => j,
        None => pair_end(s, from),
    }
}

/// The value of the query pair starting at `from`; empty when the pair has
/// no `=`.
pub open spec fn pair_val(s: Seq<char>, from: int) -> Seq<char> {
    if key_end(s, from) < pair_end(s, from) {
        s.subrange(key_end(s, from) + 1, pair_end(s, from))
    } else {
        Seq::<char>::empty()
    }
}

/// The value of the last `hostnqn` pair at or after `from`, if any: a later
/// assignment overrides an earlier one.
pub open spec fn q_hostnqn(s: Seq<char>, from: int) -> Option<Seq<char>>
    decreases s.len() - from,
    when 0 <= from
    via q_hostnqn_dec
{
    let pe = pair_end(s, from);
    let rest = if pe < s.len() {
        q_hostnqn(s, pe + 1)
    } else {
        None
    };
    if rest is Some {
        rest
    } else if s.subrange(from, key_end(s, from)) == "hostnqn"@ {
        Some(pair_val(s, from))
    } else {
        None
    }
}

#[via_fn]
proof fn q_hostnqn_dec(s: Seq<char>, from: int) {
    lemma_find_char(s, from, s.len() as int, '&');
}

/// Whether any pair at or after `from` has the given key; the presence of
/// the key alone sets the toggle, any value is ignored.
pub open spec fn q_flag(s: Seq<char>, from: int, name: Seq<char>) -> bool
    decreases s.len() - from,
    when 0 <= from
    via q_flag_dec
{
    let pe = pair_end(s, from);
    let rest = if pe < s.len() {
        q_flag(s, pe + 1, name)
    } else {
        false
    };
    s.subrange(from, key_end(s, from)) == name || rest
}

#[via_fn]
proof fn q_flag_dec(s: Seq<char>, from: int, name: Seq<char>) {
    lemma_find_char(s, from, s.len() as int, '&');
}

/// The host identity the URL asks to advertise; empty when no `hostnqn`
/// pair is present.
pub open spec fn spec_hostnqn(s: Seq<char>) -> Seq<char> {
    match query_pos(s) {
        Some(q) => match q_hostnqn(s, q + 1) {
            Some(v) => v,
            None => Seq::<char>::empty(),
        },
        None => Seq::<char>::empty(),
    }
}

/// Whether the URL asks for reference-tag protection checking.
pub open spec fn spec_reftag(s: Seq<char>) -> bool {
    match query_pos(s) {
        Some(q) => q_flag(s, q + 1, "reftag"@),
        None => false,
    }
}

/// Whether the URL asks for guard-tag protection checking.
pub open spec fn spec_guard(s: Seq<char>) -> bool {
    match query_pos(s) {
        Some(q) => q_flag(s, q + 1, "guard"@),
        None => false,
    }
}

/// Why parsing rejects the URL, or `None` when it is accepted: first a
/// malformed scheme, then an empty host, then a bad port, then a missing
/// path.
pub open spec fn spec_parse_err(s: Seq<char>) -> Option<ParseError> {
    if !scheme_ok(s) {
        Some(ParseError::SchemeMissing)
    } else if host_end(s) <= auth_start(s) {
        Some(ParseError::HostMissing)
    } else if host_colon(s) is Some && !valid_port(
        s.subrange(host_colon(s).unwrap() + 1, auth_end(s)),
    ) {
        Some(ParseError::PortInvalid)
    } else if auth_end(s) >= s.len() || s[auth_end(s)] != '/' {
        Some(ParseError::PathMissing)
    } else {
        None
    }
}

/// Exec search for a character, following [`find_char`].
fn find_char_in(s: &str, from: usize, end: usize, c: char) -> (r: Option<usize>)
    requires
        from <= end,
        end <= s@.len(),
    ensures
        r matches Some(j) ==> from <= j < end && find_char(s@, from as int, end as int, c) == Some(
            j as int,
        ),
        r is None ==> find_char(s@, from as int, end as int, c) is None,
{
    let mut i: usize = from;
    while i < end
        invariant
            from <= i <= end,
            end <= s@.len(),
            find_char(s@, from as int, end as int, c) == find_char(s@, i as int, end as int, c),
        decreases end - i,
    {
        if s.get_char(i) == c {
            return Some(i);
        }
        i = i + 1;
    }
    None
}

/// Exec search for the end of an authority or path segment, following
/// [`find_delim`].
fn find_delim_in(s: &str, from: usize) -> (r: usize)
    requires
        from <= s@.len(),
    ensures
        r as int == find_delim(s@, from as int),
        from <= r <= s@.len(),
{
    let len = s.unicode_len();
    let mut i: usize = from;
    while i < len
        invariant
            from <= i <= len,
            len == s@.len(),
            find_delim(s@, from as int) == find_delim(s@, i as int),
        decreases len - i,
    {
        let c = s.get_char(i);
        if c == '/' || c == '?' {
            return i;
        }
        i = i + 1;
    }
    len
}

/// Whether `c` may stand in a scheme, following [`is_scheme_char`].
fn scheme_char(c: char) -> (r: bool)
    ensures
        r == is_scheme_char(c),
{
    let d = c as u32;
    (97 <= d && d <= 122) || (65 <= d && d <= 90) || (48 <= d && d <= 57) || d == 43 || d == 45
        || d == 46
}

/// Whether `s[from..end]` is a valid port, following [`valid_port`].
fn port_ok(s: &str, from: usize, end: usize) -> (r: bool)
    requires
        from <= end,
        end <= s@.len(),
    ensures
        r == valid_port(s@.subrange(from as int, end as int)),
{
    let ghost p = s@.subrange(from as int, end as int);
    if from == end {
        return false;
    }
    let mut i: usize = from;
    let mut acc: u32 = 0;
    while i < end
        invariant
            from <= i <= end,
            from < end,
            end <= s@.len(),
            p == s@.subrange(from as int, end as int),
            forall|k: int| from <= k < i ==> is_digit(#[trigger] s@[k]),
            acc <= 70000,
            dec_val(s@.subrange(from as int, i as int)) <= 65535 ==> acc == dec_val(
                s@.subrange(from as int, i as int),
            ),
            dec_val(s@.subrange(from as int, i as int)) > 65535 ==> acc > 65535,
        decreases end - i,
    {
        let c = s.get_char(i);
        let d = c as u32;
        if d < 48 || d > 57 {
            proof {
                assert(p[i - from] == s@[i as int]);
            }
            return false;
        }
        proof {
            let pre = s@.subrange(from as int, i as int);
            let post = s@.subrange(from as int, i + 1);
            assert(post.drop_last() =~= pre);
            assert(post.last() == s@[i as int]);
        }
        let digit = d - 48;
        let raw = acc * 10 + digit;
        acc = if raw > 70000 {
            70000
        } else {
            raw
        };
        i = i + 1;
    }
    proof {
        assert(p =~= s@.subrange(from as int, end as int));
        assert forall|k: int| 0 <= k < p.len() implies is_digit(#[trigger] p[k]) by {
            assert(p[k] == s@[from + k]);
        };
    }
    acc <= 65535
}

/// Accumulated result of scanning a query string.
struct QueryOpts {
    hostnqn: Option<String>,
    reftag: bool,
    guard: bool,
}

/// Scan the query pairs from `from` on, following [`q_hostnqn`] and
/// [`q_flag`]: the last `hostnqn` value wins, the presence of `reftag` or
/// `guard` sets its toggle, and any other key is ignored.
fn scan_query(s: &str, from: usize) -> (r: QueryOpts)
    requires
        from <= s@.len(),
    ensures
        r.hostnqn matches Some(v) ==> (q_hostnqn(s@, from as int) matches Some(w) && v@ == w),
        r.hostnqn is None ==> q_hostnqn(s@, from as int) is None,
        r.reftag == q_flag(s@, from as int, "reftag"@),
        r.guard == q_flag(s@, from as int, "guard"@),
    decreases s@.len() - from,
{
    let len = s.unicode_len();
    let pe = match find_char_in(s, from, len, '&') {
        Some(j) => j,
        None => len,
    };
    let ke = match find_char_in(s, from, pe, '=') {
        Some(j) => j,
        None => pe,
    };
    proof {
        assert(pe as int == pair_end(s@, from as int));
        assert(ke as int == key_end(s@, from as int));
    }
    let key = s.substring_char(from, ke);

    let rest = if pe < len {
        scan_query(s, pe + 1)
    } else {
        QueryOpts { hostnqn: None, reftag: false, guard: false }
    };

    let hostnqn = if rest.hostnqn.is_some() {
        rest.hostnqn
    } else if crate::attach::str_eq(key, "hostnqn") {
        let v = if ke < pe {
            s.substring_char(ke + 1, pe)
        } else {
            s.substring_char(pe, pe)
        };
        proof {
            assert(v@ == pair_val(s@, from as int));
        }
        Some(v.to_owned())
    } else {
        None
    };
    let reftag = crate::attach::str_eq(key, "reftag") || rest.reftag;
    let guard = crate::attach::str_eq(key, "guard") || rest.guard;
    QueryOpts { hostnqn, reftag, guard }
}

impl NvmfBdev {
    /// Parse an attachment URL into creation arguments.
    ///
    /// Accepts exactly the URLs [`spec_parse_err`] accepts, rejects each of
    /// the others with the error that spec function names, and on success
    /// fills the request as the grammar reads the URL: TCP over IPv4, the
    /// authority's host and port (the standard target port `4420` when none
    /// is given), the first path segment as the subsystem identifier, the
    /// query's toggles and host identity, and the whole URL as the device
    /// name.
    pub fn try_from(uri: &str) -> (r: Result<NvmfBdev, ParseError>)
        ensures
            r is Err <==> spec_parse_err(uri@) is Some,
            r matches Err(e) ==> Some(e) == spec_parse_err(uri@),
            r matches Ok(b) ==> ({
                &&& b.name@ == uri@
                &&& b.trtype@ == "TCP"@
                &&& b.adrfam@ == "IPv4"@
                &&& b.traddr@ == spec_traddr(uri@)
                &&& b.trsvcid@ == spec_trsvcid(uri@)
                &&& b.subnqn@ == spec_subnqn(uri@)
                &&& b.hostnqn@ == spec_hostnqn(uri@)
                &&& b.prchk_reftag == spec_reftag(uri@)
                &&& b.prchk_guard == spec_guard(uri@)
                &&& b.hostaddr@ == Seq::<char>::empty()
                &&& b.hostsvcid@ == Seq::<char>::empty()
            }),
    {
        let len = uri.unicode_len();

        // Scheme.
        let colon = match find_char_in(uri, 0, len, ':') {
            None => {
                return Err(ParseError::SchemeMissing);
            },
            Some(j) => j,
        };
        if colon == 0 || len - colon < 3 {
            return Err(ParseError::SchemeMissing);
        }
        if uri.get_char(colon + 1) != '/' || uri.get_char(colon + 2) != '/' {
            return Err(ParseError::SchemeMissing);
        }
        let mut k: usize = 0;
        while k < colon
            invariant
                k <= colon,
                colon < len,
                len == uri@.len(),
                scheme_colon(uri@) == Some(colon as int),
                forall|t: int| 0 <= t < k ==> is_scheme_char(#[trigger] uri@[t]),
            decreases colon - k,
        {
            if !scheme_char(uri.get_char(k)) {
                return Err(ParseError::SchemeMissing);
            }
            k = k + 1;
        }
        proof {
            assert(scheme_ok(uri@));
        }

        // Authority: host and optional port.
        let astart = colon + 3;
        let aend = find_delim_in(uri, astart);
        let hcolon = find_char_in(uri, astart, aend, ':');
        let hend = match hcolon {
            Some(j) => j,
            None => aend,
        };
        if hend == astart {
            return Err(ParseError::HostMissing);
        }
        let traddr = uri.substring_char(astart, hend).to_owned();
        let trsvcid = match hcolon {
            Some(j) => {
                if !port_ok(uri, j + 1, aend) {
                    return Err(ParseError::PortInvalid);
                }
                uri.substring_char(j + 1, aend).to_owned()
            },
            None => "4420".to_owned(),
        };

        // Path: the first segment is the subsystem identifier.
        if aend == len {
            return Err(ParseError::PathMissing);
        }
        if uri.get_char(aend) != '/' {
            return Err(ParseError::PathMissing);
        }
        let send = find_delim_in(uri, aend + 1);
        let subnqn = uri.substring_char(aend + 1, send).to_owned();

        // Query.
        let q = match find_char_in(uri, aend, len, '?') {
            Some(j) => scan_query(uri, j + 1),
            None => QueryOpts { hostnqn: None, reftag: false, guard: false },
        };
        let hostnqn = match q.hostnqn {
            Some(v) => v,
            None => String::new(),
        };

        Ok(
            NvmfBdev {
                name: uri.to_owned(),
                trtype: "TCP".to_owned(),
                adrfam: "IPv4".to_owned(),
                traddr,
                trsvcid,
                subnqn,
                hostnqn,
                hostaddr: String::new(),
                hostsvcid: String::new(),
                prchk_reftag: q.reftag,
                prchk_guard: q.guard,
            },
        )
    }
}

} // verus!
