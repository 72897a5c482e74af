use vstd::prelude::*;

verus! {

/// The character of a decimal digit.
pub open spec fn digit(d: nat) -> char {
    if d == 0 {
        '0'
    } else if d == 1 {
        '1'
    } else if d == 2 {
        '2'
    } else if d == 3 {
        '3'
    } else if d == 4 {
        '4'
    } else if d == 5 {
        '5'
    } else if d == 6 {
        '6'
    } else if d == 7 {
        '7'
    } else if d == 8 {
        '8'
    } else {
        '9'
    }
}

/// The decimal representation of `n`, without leading zeros.
pub open spec fn decimal(n: nat) -> Seq<char>
    decreases n,
{
    if n < 10 {
        seq![digit(n)]
    } else {
        decimal(n / 10).push(digit(n % 10))
    }
}

/// A client identifier: host, process id and sequence number, in the shape
/// `host@pid#sequence`.
pub open spec fn client_id(host: Seq<char>, pid: nat, sequence: nat) -> Seq<char> {
    host + seq!['@'] + decimal(pid) + seq!['#'] + decimal(sequence)
}

/// The host token used where the host name cannot be read as text.
pub open spec fn placeholder_host() -> Seq<char> {
    seq!['l', 'o', 'c', 'a', 'l', 'h', 'o', 's', 't']
}

proof fn lemma_decimal_nonempty(n: nat)
    ensures
        decimal(n).len() >= 1,
    decreases n,
{
    if n >= 10 {
        lemma_decimal_nonempty(n / 10);
    }
}

/// Distinct numbers have distinct decimal representations.
pub proof fn lemma_decimal_injective(a: nat, b: nat)
    requires
        decimal(a) == decimal(b),
    ensures
        a == b,
    decreases a,
{
    if a < 10 && b >= 10 {
        lemma_decimal_nonempty(b / 10);
        assert(decimal(a).len() != decimal(b).len());
    } else if a >= 10 && b < 10 {
        lemma_decimal_nonempty(a / 10);
        assert(decimal(a).len() == decimal(a / 10).len() + 1);
        assert(decimal(a).len() != decimal(b).len());
    } else if a < 10 && b < 10 {
        assert(decimal(a)[0] == digit(a));
        assert(decimal(b)[0] == digit(b));
    } else {
        let da = decimal(a / 10);
        let db = decimal(b / 10);
        assert(decimal(a).last() == digit(a % 10));
        assert(decimal(b).last() == digit(b % 10));
        assert(a % 10 == b % 10);
        assert(da =~= decimal(a).drop_last());
        assert(db =~= decimal(b).drop_last());
        lemma_decimal_injective(a / 10, b / 10);
        assert(a == 10 * (a / 10) + a % 10);
        assert(b == 10 * (b / 10) + b % 10);
    }
}

/// Two identifiers made in one process, from one host, with different
/// sequence numbers never collide.
pub proof fn lemma_client_ids_distinct(host: Seq<char>, pid: nat, s1: nat, s2: nat)
    requires
        s1 != s2,
    ensures
        client_id(host, pid, s1) != client_id(host, pid, s2),
{
    let prefix = host + seq!['@'] + decimal(pid) + seq!['#'];
    assert(client_id(host, pid, s1) == prefix + decimal(s1));
    assert(client_id(host, pid, s2) == prefix + decimal(s2));
    if client_id(host, pid, s1) == client_id(host, pid, s2) {
        assert((prefix + decimal(s1)).subrange(prefix.len() as int, (prefix + decimal(s1)).len() as int)
            =~= decimal(s1));
        assert((prefix + decimal(s2)).subrange(prefix.len() as int, (prefix + decimal(s2)).len() as int)
            =~= decimal(s2));
        lemma_decimal_injective(s1, s2);
    }
}

fn digit_text(d: u64) -> (r: &'static str)
    requires
        d < 10,
    ensures
        r@ == seq![digit(d as nat)],
{
    proof {
        reveal_strlit("0");
        reveal_strlit("1");
        reveal_strlit("2");
        reveal_strlit("3");
        reveal_strlit("4");
        reveal_strlit("5");
        reveal_strlit("6");
        reveal_strlit("7");
        reveal_strlit("8");
        reveal_strlit("9");
    }
    if d == 0 {
        "0"
    } else if d == 1 {
        "1"
    } else if d == 2 {
        "2"
    } else if d == 3 {
        "3"
    } else if d == 4 {
        "4"
    } else if d == 5 {
        "5"
    } else if d == 6 {
        "6"
    } else if d == 7 {
        "7"
    } else if d == 8 {
        "8"
    } else {
        "9"
    }
}

/// Appends the decimal representation of `n` to `s`.
pub fn push_decimal(s: &mut String, n: u64)
    ensures
        final(s)@ == old(s)@ + decimal(n as nat),
    decreases n,
{
    if n >= 10 {
        push_decimal(s, n / 10);
    }
    s.append(digit_text(n % 10));
    assert(decimal(n as nat) == if n < 10 {
        seq![digit(n as nat)]
    } else {
        decimal((n / 10) as nat).push(digit((n % 10) as nat))
    });
}

/// Builds the identifier `host@pid#sequence`.
pub fn build_client_id(host: &str, pid: u32, sequence: usize) -> (r: String)
    ensures
        r@ == client_id(host@, pid as nat, sequence as nat),
{
    proof {
        reveal_strlit("@");
        reveal_strlit("#");
    }
    let mut id = host.to_owned();
    id.append("@");
    push_decimal(&mut id, pid as u64);
    id.append("#");
    push_decimal(&mut id, sequence as u64);
    id
}

/// Relies on gethostname::gethostname for the machine's host name, and on
/// OsString::into_string, which fails where that name is not valid Unicode.
#[verifier::external_body]
fn local_hostname() -> (r: Option<String>) {
    gethostname::gethostname().into_string().ok()
}

/// Hands out the identifiers of one process: one host and process id, and a
/// sequence number that grows by one with each identifier. Identifiers are
/// distinct among those of one generator, so a process must hold exactly one
/// and share it among all its clients.
pub struct ClientIdGenerator {
    host: String,
    pid: u32,
    sequence: usize,
}

impl ClientIdGenerator {
    pub closed spec fn host(&self) -> Seq<char> {
        self.host@
    }

    pub closed spec fn pid(&self) -> nat {
        self.pid as nat
    }

    pub closed spec fn sequence(&self) -> nat {
        self.sequence as nat
    }

    /// A generator for `pid` on `host`, or on the placeholder host where the
    /// host name could not be read.
    pub fn from_parts(host: Option<String>, pid: u32) -> (r: Self)
        ensures
            r.host() == (match host {
                Some(h) => h@,
                None => placeholder_host(),
            }),
            r.pid() == pid,
            r.sequence() == 0,
    {
        proof {
            reveal_strlit("localhost");
        }
        let host = match host {
            Some(h) => h,
            None => "localhost".to_owned(),
        };
        ClientIdGenerator { host, pid, sequence: 0 }
    }

    /// A generator for `pid` on this machine; an unreadable host name falls
    /// back to the placeholder and never fails.
    pub fn new(pid: u32) -> (r: Self)
        ensures
            r.pid() == pid,
            r.sequence() == 0,
    {
        Self::from_parts(local_hostname(), pid)
    }

    /// How many identifiers this generator has handed out.
    pub fn issued(&self) -> (r: usize)
        ensures
            r as nat == self.sequence(),
    {
        self.sequence
    }

    /// The next identifier; no two calls on one generator return the same.
    pub fn next_client_id(&mut self) -> (r: String)
        requires
            old(self).sequence() < usize::MAX,
        ensures
            r@ == client_id(old(self).host(), old(self).pid(), old(self).sequence()),
            final(self).host() == old(self).host(),
            final(self).pid() == old(self).pid(),
            final(self).sequence() == old(self).sequence() + 1,
    {
        let id = build_client_id(self.host.as_str(), self.pid, self.sequence);
        self.sequence = self.sequence + 1;
        id
    }
}

} // verus!
