use vstd::prelude::*;

verus! {

/// Port used when a proxy is given without one.
pub const DEFAULT_PROXY_PORT: u16 = 80;

/// An HTTP proxy to route requests through.
#[derive(Clone, Debug)]
pub struct ProxyTarget {
    pub host: String,
    pub port: u16,
}

impl View for ProxyTarget {
    type V = (Seq<char>, u16);

    open spec fn view(&self) -> (Seq<char>, u16) {
        (self.host@, self.port)
    }
}

/// The proxy string is not `host` or `host:port` with a valid port.
#[derive(Clone, Debug)]
pub struct MalformedProxy {
    pub proxy: String,
}

pub open spec fn is_ascii_digit(c: char) -> bool {
    '0' <= c <= '9'
}

pub open spec fn digits_value(d: Seq<char>) -> nat
    decreases d.len(),
{
    if d.len() == 0 {
        0
    } else {
        digits_value(d.drop_last()) * 10 + ((d.last() as u32) - ('0' as u32)) as nat
    }
}

/// The digits of an unsigned decimal: all after one optional leading `+`.
pub open spec fn unsigned_digits(s: Seq<char>) -> Seq<char> {
    if s.len() > 0 && s[0] == '+' {
        s.skip(1)
    } else {
        s
    }
}

/// The port that a string denotes as a decimal `u16`: an optional `+` and at
/// least one digit, with a value that fits.
pub open spec fn port_of(s: Seq<char>) -> Option<u16> {
    let d = unsigned_digits(s);
    if d.len() > 0 && (forall|i: int| 0 <= i < d.len() ==> is_ascii_digit(#[trigger] d[i]))
        && digits_value(d) <= u16::MAX {
        Some(digits_value(d) as u16)
    } else {
        None
    }
}

/// `i` is the position of the last `:` in `s`.
pub open spec fn is_last_colon(s: Seq<char>, i: int) -> bool {
    &&& 0 <= i < s.len()
    &&& s[i] == ':'
    &&& forall|j: int| i < j < s.len() ==> s[j] != ':'
}

pub open spec fn has_colon(s: Seq<char>) -> bool {
    exists|i: int| 0 <= i < s.len() && s[i] == ':'
}

/// What a proxy setting means: `Some(None)` for no proxy (the empty
/// string), `Some(Some((host, port)))` for a proxy, split at the last `:`
/// (port 80 when there is none), and `None` when the port is malformed.
pub open spec fn proxy_of(s: Seq<char>) -> Option<Option<(Seq<char>, u16)>> {
    if s.len() == 0 {
        Some(None)
    } else if has_colon(s) {
        let i = choose|i: int| is_last_colon(s, i);
        match port_of(s.subrange(i + 1, s.len() as int)) {
            Some(port) => Some(Some((s.subrange(0, i), port))),
            None => None,
        }
    } else {
        Some(Some((s, DEFAULT_PROXY_PORT)))
    }
}

/// Relies on `<u16 as FromStr>::from_str`: it accepts exactly an optional `+`
/// followed by one or more ASCII digits whose value fits in a `u16`.
#[verifier::external_body]
fn parse_port(s: &str) -> (r: Option<u16>)
    ensures
        r == port_of(s@),
{
    s.parse::<u16>().ok()
}

proof fn lemma_last_colon_unique(s: Seq<char>, i: int, j: int)
    requires
        is_last_colon(s, i),
        is_last_colon(s, j),
    ensures
        i == j,
{
}

/// Reads a proxy setting of the form `host` or `host:port`.
pub fn parse_proxy(proxy: &str) -> (r: Result<Option<ProxyTarget>, MalformedProxy>)
    ensures
        r is Err <==> proxy_of(proxy@) is None,
        r is Err ==> r->Err_0.proxy@ == proxy@,
        r is Ok ==> match r->Ok_0 {
            None => proxy_of(proxy@) == Some(None::<(Seq<char>, u16)>),
            Some(t) => proxy_of(proxy@) == Some(Some(t@)),
        },
{
    let n = proxy.unicode_len();
    if n == 0 {
        return Ok(None);
    }
    let mut i: usize = n;
    while i > 0
        invariant
            i <= n,
            n == proxy@.len(),
            forall|j: int| i <= j < n ==> proxy@[j] != ':',
        decreases i,
    {
        if proxy.get_char(i - 1) == ':' {
            let colon: usize = i - 1;
            proof {
                assert(is_last_colon(proxy@, colon as int));
                assert(has_colon(proxy@));
                let c = choose|c: int| is_last_colon(proxy@, c);
                lemma_last_colon_unique(proxy@, c, colon as int);
            }
            let port_text = proxy.substring_char(colon + 1, n);
            return match parse_port(port_text) {
                Some(port) => {
                    let host = proxy.substring_char(0, colon).to_string();
                    Ok(Some(ProxyTarget { host, port }))
                },
                None => Err(MalformedProxy { proxy: proxy.to_string() }),
            };
        }
        i = i - 1;
    }
    Ok(Some(ProxyTarget { host: proxy.to_string(), port: DEFAULT_PROXY_PORT }))
}

} // verus!
