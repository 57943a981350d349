//! Hostname normalization and validation.

use vstd::prelude::*;

use crate::text::{
    ascii_lowercase, chars_of, contains_char, contains_white_space, is_white_space,
    string_from_chars, to_ascii_lowercase, trim, trim_end_char, trim_end_matches,
    trim_end_white_space, trim_start_white_space,
    trim_white_space,
};

verus! {

/// Validation errors for client-supplied domain values.
#[derive(Debug, Clone, Copy, PartialEq, Eq, Structural)]
pub enum DomainError {
    Empty,
    ContainsWhitespace,
    ExpectedHostname,
    InvalidHostname,
    IpAddressNotAllowed,
}

/// The text that describes each validation error to a client.
pub open spec fn domain_error_text(e: DomainError) -> Seq<char> {
    match e {
        DomainError::Empty => "domain is required"@,
        DomainError::ContainsWhitespace => "domain must not contain whitespace"@,
        DomainError::ExpectedHostname => "domain must be a hostname without scheme or path"@,
        DomainError::InvalidHostname => "invalid hostname"@,
        DomainError::IpAddressNotAllowed => "ip literals are not supported"@,
    }
}

impl DomainError {
    /// The message shown to a client for this error.
    pub fn message(&self) -> (m: &'static str)
        ensures
            m@ == domain_error_text(*self),
    {
        match self {
            DomainError::Empty => "domain is required",
            DomainError::ContainsWhitespace => "domain must not contain whitespace",
            DomainError::ExpectedHostname => "domain must be a hostname without scheme or path",
            DomainError::InvalidHostname => "invalid hostname",
            DomainError::IpAddressNotAllowed => "ip literals are not supported",
        }
    }
}

/// What the URL host parser made of a string: a domain, an address, or nothing.
#[derive(Debug)]
pub enum ParsedHost {
    Domain(String),
    Ipv4,
    Ipv6,
    Invalid,
}

/// The mathematical form of [`ParsedHost`].
pub enum HostView {
    Domain(Seq<char>),
    Ipv4,
    Ipv6,
    Invalid,
}

impl View for ParsedHost {
    type V = HostView;

    open spec fn view(&self) -> HostView {
        match self {
            ParsedHost::Domain(d) => HostView::Domain(d@),
            ParsedHost::Ipv4 => HostView::Ipv4,
            ParsedHost::Ipv6 => HostView::Ipv6,
            ParsedHost::Invalid => HostView::Invalid,
        }
    }
}

/// What `url::Host::parse` gives for a string: the WHATWG host parser.
pub uninterp spec fn url_host_parse(input: Seq<char>) -> HostView;

/// Whether `c` is one of the forbidden domain code points that the URL host
/// parser never leaves in a domain.
pub open spec fn is_forbidden_domain_char(c: char) -> bool {
    ||| c == '/'
    ||| c == '?'
    ||| c == '#'
    ||| c == '@'
    ||| c == ':'
    ||| c == '%'
    ||| c == '<'
    ||| c == '>'
    ||| c == '['
    ||| c == ']'
    ||| c == '\\'
    ||| c == '^'
    ||| c == '|'
}

/// Whether `c` may stand in a domain that the URL host parser returns: a
/// visible ASCII character (above the space, below DELETE), not an ASCII
/// upper-case letter, and not a forbidden domain code point.
pub open spec fn is_url_domain_char(c: char) -> bool {
    &&& 0x20 < (c as u32) < 0x7f
    &&& !('A' <= c <= 'Z')
    &&& !is_forbidden_domain_char(c)
}

/// Calls `url::Host::parse`. Its result is named [`url_host_parse`]; beyond the
/// name this states only what the crate's source shows of a domain result:
/// an empty domain is refused (`EmptyHost`); the domain is the ASCII form that
/// `idna::domain_to_ascii_from_cow` returns under `AsciiDenyList::URL`, which
/// lowers ASCII upper-case letters and refuses the space, the controls below
/// it, DELETE and the forbidden domain code points `%#/:<>?@[\]^|`.
#[verifier::external_body]
fn parse_host(input: &str) -> (h: ParsedHost)
    ensures
        h@ == url_host_parse(input@),
        h matches ParsedHost::Domain(d) ==> d@.len() > 0,
        h matches ParsedHost::Domain(d) ==> forall|i: int|
            0 <= i < d@.len() ==> is_url_domain_char(#[trigger] d@[i]),
{
    match url::Host::parse(input) {
        Ok(url::Host::Domain(d)) => ParsedHost::Domain(d),
        Ok(url::Host::Ipv4(_)) => ParsedHost::Ipv4,
        Ok(url::Host::Ipv6(_)) => ParsedHost::Ipv6,
        Err(_) => ParsedHost::Invalid,
    }
}

/// The checks that come before host parsing: trim white space, refuse empty
/// input, inner white space and URL punctuation, drop trailing dots and lower
/// ASCII letters.
pub open spec fn prepare_host(input: Seq<char>) -> Result<Seq<char>, DomainError> {
    let t = trim_white_space(input);
    if t.len() == 0 {
        Err(DomainError::Empty)
    } else if exists|i: int| 0 <= i < t.len() && is_white_space(#[trigger] t[i]) {
        Err(DomainError::ContainsWhitespace)
    } else if t.contains('/') || t.contains('?') || t.contains('#') {
        Err(DomainError::ExpectedHostname)
    } else {
        let n = ascii_lowercase(trim_end_char(t, '.'));
        if n.len() == 0 {
            Err(DomainError::Empty)
        } else {
            Ok(n)
        }
    }
}

/// The outcome for a parsed host: only a domain is accepted.
pub open spec fn host_outcome(h: HostView) -> Result<Seq<char>, DomainError> {
    match h {
        HostView::Domain(d) => Ok(d),
        HostView::Ipv4 => Err(DomainError::IpAddressNotAllowed),
        HostView::Ipv6 => Err(DomainError::IpAddressNotAllowed),
        HostView::Invalid => Err(DomainError::InvalidHostname),
    }
}

/// The canonical lookup key for a caller-supplied hostname.
pub open spec fn normalized_domain(input: Seq<char>) -> Result<Seq<char>, DomainError> {
    match prepare_host(input) {
        Err(e) => Err(e),
        Ok(n) => host_outcome(url_host_parse(n)),
    }
}

/// Relates an executable string result to its mathematical form.
pub open spec fn string_result_is(
    r: Result<String, DomainError>,
    s: Result<Seq<char>, DomainError>,
) -> bool {
    match r {
        Ok(d) => s == Ok::<Seq<char>, DomainError>(d@),
        Err(e) => s == Err::<Seq<char>, DomainError>(e),
    }
}

/// Runs the checks that come before host parsing.
pub fn prepare_host_input(input: &str) -> (r: Result<String, DomainError>)
    ensures
        string_result_is(r, prepare_host(input@)),
{
    let chars = chars_of(input);
    let trimmed = trim(&chars);
    if trimmed.len() == 0 {
        return Err(DomainError::Empty);
    }
    if contains_white_space(&trimmed) {
        return Err(DomainError::ContainsWhitespace);
    }
    if contains_char(&trimmed, '/') || contains_char(&trimmed, '?') || contains_char(
        &trimmed,
        '#',
    ) {
        return Err(DomainError::ExpectedHostname);
    }
    let lowered = to_ascii_lowercase(&trim_end_matches(&trimmed, '.'));
    if lowered.len() == 0 {
        return Err(DomainError::Empty);
    }
    Ok(string_from_chars(&lowered))
}

/// Accepts a parsed host only when it is a domain name.
pub fn domain_from_host(host: ParsedHost) -> (r: Result<String, DomainError>)
    ensures
        string_result_is(r, host_outcome(host@)),
{
    match host {
        ParsedHost::Domain(d) => Ok(d),
        ParsedHost::Ipv4 => Err(DomainError::IpAddressNotAllowed),
        ParsedHost::Ipv6 => Err(DomainError::IpAddressNotAllowed),
        ParsedHost::Invalid => Err(DomainError::InvalidHostname),
    }
}

/// Normalizes a caller-supplied hostname into the canonical cache and lookup key.
///
/// Only hostnames pass: a result is visible ASCII without upper-case letters
/// or white space, never holds a path, query, fragment, port or user-info
/// character, and IP literals are refused.
pub fn normalize_domain(input: &str) -> (r: Result<String, DomainError>)
    ensures
        string_result_is(r, normalized_domain(input@)),
        r matches Ok(d) ==> d@.len() > 0,
        r matches Ok(d) ==> forall|i: int|
            0 <= i < d@.len() ==> is_url_domain_char(#[trigger] d@[i]),
        r matches Ok(d) ==> forall|i: int|
            0 <= i < d@.len() ==> !is_white_space(#[trigger] d@[i]),
{
    let prepared = prepare_host_input(input);
    let r = match prepared {
        Err(e) => Err(e),
        Ok(n) => domain_from_host(parse_host(n.as_str())),
    };
    proof {
        if r is Ok {
            let d = r->Ok_0;
            assert forall|i: int| 0 <= i < d@.len() implies !is_white_space(#[trigger] d@[i]) by {
                lemma_url_domain_char_is_not_white_space(d@[i]);
            }
        }
    }
    r
}

} // verus!

verus! {

/// No character that may stand in a parsed domain is white space.
pub proof fn lemma_url_domain_char_is_not_white_space(c: char)
    requires
        is_url_domain_char(c),
    ensures
        !is_white_space(c),
{
}

/// The checks before host parsing leave a name unchanged when it is already
/// in the form a parsed domain has and does not end in a dot. With it, a
/// normalized name normalizes to itself whenever the URL host parser gives
/// such a name back as itself.
pub proof fn lemma_normal_name_passes_checks_unchanged(d: Seq<char>)
    requires
        d.len() > 0,
        d.last() != '.',
        forall|i: int| 0 <= i < d.len() ==> is_url_domain_char(#[trigger] d[i]),
    ensures
        prepare_host(d) == Ok::<Seq<char>, DomainError>(d),
        normalized_domain(d) == host_outcome(url_host_parse(d)),
{
    assert(!is_white_space(d[0])) by {
        lemma_url_domain_char_is_not_white_space(d[0]);
    }
    assert(trim_start_white_space(d) == d);
    assert(!is_white_space(d.last())) by {
        lemma_url_domain_char_is_not_white_space(d[d.len() - 1]);
    }
    assert(trim_end_white_space(d) == d);
    assert(trim_white_space(d) == d);
    assert forall|i: int| 0 <= i < d.len() implies !is_white_space(#[trigger] d[i]) by {
        lemma_url_domain_char_is_not_white_space(d[i]);
    }
    assert(!d.contains('/') && !d.contains('?') && !d.contains('#')) by {
        if d.contains('/') || d.contains('?') || d.contains('#') {
            let k = choose|k: int| 0 <= k < d.len() && (d[k] == '/' || d[k] == '?' || d[k] == '#');
            assert(is_url_domain_char(d[k]));
        }
    }
    assert(trim_end_char(d, '.') == d);
    assert(ascii_lowercase(d) =~= d);
}

/// Dropping trailing copies of `c` keeps a prefix, which does not end in `c`.
proof fn lemma_trim_end_char_prefix(s: Seq<char>, c: char)
    ensures
        trim_end_char(s, c).len() <= s.len(),
        trim_end_char(s, c) == s.subrange(0, trim_end_char(s, c).len() as int),
        trim_end_char(s, c).len() > 0 ==> trim_end_char(s, c).last() != c,
    decreases s.len(),
{
    if s.len() > 0 && s.last() == c {
        lemma_trim_end_char_prefix(s.drop_last(), c);
        let k = trim_end_char(s, c).len() as int;
        assert(s.drop_last().subrange(0, k) =~= s.subrange(0, k));
    } else {
        assert(s.subrange(0, s.len() as int) =~= s);
    }
}

/// What passes the checks before host parsing is a plain host name: not
/// empty, without white space, path, query or fragment characters, without
/// ASCII upper-case letters, and not ending in a dot.
pub proof fn lemma_prepared_host_is_plain(input: Seq<char>)
    ensures
        prepare_host(input) matches Ok(n) ==> {
            &&& n.len() > 0
            &&& n.last() != '.'
            &&& forall|i: int|
                0 <= i < n.len() ==> {
                    &&& !is_white_space(#[trigger] n[i])
                    &&& n[i] != '/'
                    &&& n[i] != '?'
                    &&& n[i] != '#'
                    &&& !('A' <= n[i] <= 'Z')
                }
        },
{
    let t = trim_white_space(input);
    let u = trim_end_char(t, '.');
    lemma_trim_end_char_prefix(t, '.');
    if prepare_host(input) is Ok {
        let n = ascii_lowercase(u);
        assert forall|i: int| 0 <= i < n.len() implies {
            &&& !is_white_space(#[trigger] n[i])
            &&& n[i] != '/'
            &&& n[i] != '?'
            &&& n[i] != '#'
            &&& !('A' <= n[i] <= 'Z')
        } by {
            assert(u[i] == t[i]);
            assert(!is_white_space(t[i]));
            assert(t[i] != '/' && t[i] != '?' && t[i] != '#') by {
                if t[i] == '/' || t[i] == '?' || t[i] == '#' {
                    assert(t.contains(t[i]));
                }
            }
        }
        assert(n.last() == n[n.len() - 1]);
    }
}

} // verus!
