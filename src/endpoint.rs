use vstd::prelude::*;
use crate::error::ClientError;

verus! {

/// The transport scheme of a target address.
#[derive(Debug, Clone, Copy, PartialEq, Eq, Structural)]
pub enum Scheme {
    Http,
    Https,
}

/// A reachable server address, parsed from `scheme://host:port`.
#[derive(Debug)]
pub struct Endpoint {
    pub scheme: Scheme,
    pub host: String,
    pub port: u16,
}

/// How to open the transport channel to a target.
#[derive(Debug)]
pub struct ChannelPlan {
    /// The target address, as given.
    pub target: String,
    /// Whether transport security is negotiated before the handshake.
    pub tls: bool,
    /// Whether write coalescing is switched off.
    pub tcp_nodelay: bool,
    pub connect_timeout_ms: u64,
}

pub open spec fn starts_with(t: Seq<char>, p: Seq<char>) -> bool {
    p.len() <= t.len() && t.subrange(0, p.len() as int) == p
}

pub open spec fn secure_prefix() -> Seq<char> {
    seq!['h', 't', 't', 'p', 's', ':', '/', '/']
}

pub open spec fn plain_prefix() -> Seq<char> {
    seq!['h', 't', 't', 'p', ':', '/', '/']
}

/// The scheme that `t` names, if it names one.
pub open spec fn scheme_of(t: Seq<char>) -> Option<Scheme> {
    if starts_with(t, secure_prefix()) {
        Some(Scheme::Https)
    } else if starts_with(t, plain_prefix()) {
        Some(Scheme::Http)
    } else {
        None
    }
}

/// What follows the scheme: `host:port`.
pub open spec fn authority_of(t: Seq<char>) -> Seq<char> {
    if starts_with(t, secure_prefix()) {
        t.skip(secure_prefix().len() as int)
    } else {
        t.skip(plain_prefix().len() as int)
    }
}

pub open spec fn is_digit(c: char) -> bool {
    '0' <= c && c <= '9'
}

pub open spec fn digit_value(c: char) -> nat {
    ((c as u32) - ('0' as u32)) as nat
}

/// The number that a string of decimal digits writes.
pub open spec fn digits_value(s: Seq<char>) -> nat
    decreases s.len(),
{
    if s.len() == 0 {
        0
    } else {
        digits_value(s.drop_last()) * 10 + digit_value(s.last())
    }
}

/// `a` splits at its colon `i` into a host and a port: the host is not empty
/// and holds no `:` or `/`; the port is one to five digits and at most 65535.
pub open spec fn splits_at(a: Seq<char>, i: int) -> bool {
    &&& 0 < i < a.len() - 1
    &&& a[i] == ':'
    &&& forall|j: int| 0 <= j < i ==> a[j] != ':' && a[j] != '/'
    &&& forall|j: int| i < j < a.len() ==> is_digit(#[trigger] a[j])
    &&& a.len() - 1 - i <= 5
    &&& digits_value(a.subrange(i + 1, a.len() as int)) <= 65535
}

/// `t` is a well-formed target address.
pub open spec fn valid_target(t: Seq<char>) -> bool {
    scheme_of(t) is Some && exists|i: int| splits_at(authority_of(t), i)
}

/// A split can only be at the first colon.
proof fn lemma_split_at_first_colon(a: Seq<char>, c: int)
    requires
        0 <= c < a.len(),
        a[c] == ':',
        forall|j: int| 0 <= j < c ==> a[j] != ':',
    ensures
        forall|k: int| splits_at(a, k) ==> k == c,
{
    assert forall|k: int| splits_at(a, k) implies k == c by {
        if k < c {
            assert(a[k] != ':');
        } else if k > c {
            assert(a[c] != ':');
        }
    }
}

fn has_prefix(t: &str, n: usize, p: &str) -> (r: bool)
    requires
        n == t@.len(),
    ensures
        r == starts_with(t@, p@),
{
    let m = p.unicode_len();
    if m > n {
        return false;
    }
    let mut i: usize = 0;
    while i < m
        invariant
            m == p@.len(),
            m <= n,
            n == t@.len(),
            i <= m,
            forall|j: int| 0 <= j < i ==> t@[j] == p@[j],
        decreases m - i,
    {
        if t.get_char(i) != p.get_char(i) {
            assert(t@.subrange(0, m as int)[i as int] != p@[i as int]);
            return false;
        }
        i = i + 1;
    }
    assert(t@.subrange(0, m as int) =~= p@);
    true
}

/// Parses `target` as `scheme://host:port`, without any network call. The
/// scheme is `http` or `https`, nothing else; the host holds no `:` or `/`,
/// so a bracketed IPv6 host is refused; the port is given, in decimal.
pub fn parse_target(target: &str) -> (r: Result<Endpoint, ClientError>)
    ensures
        r is Ok <==> valid_target(target@),
        r is Err ==> r->Err_0 == ClientError::InvalidAddress,
        r matches Ok(e) ==> {
            let a = authority_of(target@);
            &&& Some(e.scheme) == scheme_of(target@)
            &&& exists|i: int|
                splits_at(a, i) && e.host@ == a.subrange(0, i) && e.port as nat == digits_value(
                    a.subrange(i + 1, a.len() as int),
                )
        },
{
    proof {
        reveal_strlit("https://");
        reveal_strlit("http://");
    }
    let n = target.unicode_len();
    let (scheme, start): (Scheme, usize) = if has_prefix(target, n, "https://") {
        assert("https://"@ =~= secure_prefix());
        (Scheme::Https, 8)
    } else if has_prefix(target, n, "http://") {
        assert("http://"@ =~= plain_prefix());
        assert("https://"@ =~= secure_prefix());
        (Scheme::Http, 7)
    } else {
        assert("http://"@ =~= plain_prefix());
        assert("https://"@ =~= secure_prefix());
        return Err(ClientError::InvalidAddress);
    };
    assert(start <= n);
    let ghost a = authority_of(target@);
    assert(a =~= target@.subrange(start as int, n as int));
    // the host runs up to the first colon
    let mut i: usize = start;
    while i < n && target.get_char(i) != ':'
        invariant
            start <= i <= n,
            n == target@.len(),
            a == target@.subrange(start as int, n as int),
            a == authority_of(target@),
            a.len() == n - start,
            forall|j: int| 0 <= j < i - start ==> a[j] != ':' && a[j] != '/',
        decreases n - i,
    {
        assert(a[i - start] == target@[i as int]);
        if target.get_char(i) == '/' {
            assert(forall|k: int| !splits_at(a, k));
            return Err(ClientError::InvalidAddress);
        }
        i = i + 1;
    }
    let ghost c = i - start;
    if i == n {
        assert(forall|k: int| !splits_at(a, k));
        return Err(ClientError::InvalidAddress);
    }
    assert(a[c] == target@[i as int]);
    proof {
        lemma_split_at_first_colon(a, c);
    }
    if i == start || n - i - 1 == 0 || n - i - 1 > 5 {
        assert(!splits_at(a, c));
        return Err(ClientError::InvalidAddress);
    }
    let mut value: u32 = 0;
    let mut j: usize = i + 1;
    while j < n
        invariant
            i < j <= n,
            n - i - 1 <= 5,
            n == target@.len(),
            a == target@.subrange(start as int, n as int),
            a == authority_of(target@),
            a.len() == n - start,
            start <= i,
            c == i - start,
            forall|k: int| c < k < j - start ==> is_digit(#[trigger] a[k]),
            value as nat == digits_value(a.subrange(c + 1, j - start)),
            forall|k: int| splits_at(a, k) ==> k == c,
            j - i - 1 == 0 ==> value < 1,
            j - i - 1 == 1 ==> value < 10,
            j - i - 1 == 2 ==> value < 100,
            j - i - 1 == 3 ==> value < 1000,
            j - i - 1 == 4 ==> value < 10000,
            j - i - 1 == 5 ==> value < 100000,
            j - i - 1 <= 5,
        decreases n - j,
    {
        let ch = target.get_char(j);
        assert(a[j - start] == ch);
        if !('0' <= ch && ch <= '9') {
            assert(!splits_at(a, c));
            assert(forall|k: int| !splits_at(a, k));
            return Err(ClientError::InvalidAddress);
        }
        assert(a.subrange(c + 1, j + 1 - start).drop_last() =~= a.subrange(c + 1, j - start));
        assert(a.subrange(c + 1, j + 1 - start).last() == ch);
        value = value * 10 + (ch as u32 - '0' as u32);
        j = j + 1;
    }
    if value > 65535 {
        assert(!splits_at(a, c));
        return Err(ClientError::InvalidAddress);
    }
    let host = target.substring_char(start, i).to_owned();
    assert(host@ =~= a.subrange(0, c));
    assert(splits_at(a, c));
    Ok(Endpoint { scheme, host, port: value as u16 })
}

/// Whether tonic takes a text as the URI of a channel.
pub uninterp spec fn uri_accepted(t: Seq<char>) -> bool;

/// Relies on tonic::transport::Channel::from_shared, which parses the text as
/// a URI: whether it succeeds depends on the text alone.
#[verifier::external_body]
fn channel_uri_accepted(target: &str) -> (r: bool)
    ensures
        r == uri_accepted(target@),
{
    tonic::transport::Channel::from_shared(target.to_owned()).is_ok()
}

/// Plans the channel to `target`, given whether tonic accepts it as a URI:
/// transport security exactly for the secure scheme, no write coalescing,
/// and the given connect timeout. A malformed target is refused.
pub fn plan_checked_channel(target: &str, uri_ok: bool, connect_timeout_ms: u64) -> (r: Result<
    ChannelPlan,
    ClientError,
>)
    ensures
        r is Ok <==> valid_target(target@) && uri_ok,
        r is Err ==> r->Err_0 == ClientError::InvalidAddress,
        r matches Ok(p) ==> {
            &&& p.target@ == target@
            &&& p.tls <==> starts_with(target@, secure_prefix())
            &&& p.tcp_nodelay
            &&& p.connect_timeout_ms == connect_timeout_ms
        },
{
    let endpoint = parse_target(target)?;
    if !uri_ok {
        return Err(ClientError::InvalidAddress);
    }
    Ok(
        ChannelPlan {
            target: target.to_owned(),
            tls: endpoint.scheme == Scheme::Https,
            tcp_nodelay: true,
            connect_timeout_ms,
        },
    )
}

/// Plans the channel to `target`, refusing before any network call a target
/// that is malformed or that tonic does not take as a URI.
pub fn plan_channel(target: &str, connect_timeout_ms: u64) -> (r: Result<ChannelPlan, ClientError>)
    ensures
        r is Ok <==> valid_target(target@) && uri_accepted(target@),
        r is Err ==> r->Err_0 == ClientError::InvalidAddress,
        r matches Ok(p) ==> {
            &&& p.target@ == target@
            &&& p.tls <==> starts_with(target@, secure_prefix())
            &&& p.tcp_nodelay
            &&& p.connect_timeout_ms == connect_timeout_ms
        },
{
    let uri_ok = channel_uri_accepted(target);
    plan_checked_channel(target, uri_ok, connect_timeout_ms)
}

} // verus!
