//! The collector's endpoint: host, optional port and route, and the text of
//! the address they form.

use vstd::prelude::*;
use vstd::string::*;

verus! {

/// Whether `c` is whitespace, as Unicode defines it (`White_Space`).
pub open spec fn is_whitespace(c: char) -> bool {
    let u = c as u32;
    ||| 0x09 <= u <= 0x0d
    ||| u == 0x20
    ||| u == 0x85
    ||| u == 0xa0
    ||| u == 0x1680
    ||| 0x2000 <= u <= 0x200a
    ||| u == 0x2028
    ||| u == 0x2029
    ||| u == 0x202f
    ||| u == 0x205f
    ||| u == 0x3000
}

/// `s` without its leading whitespace.
pub open spec fn trim_start(s: Seq<char>) -> Seq<char>
    decreases s.len(),
{
    if s.len() > 0 && is_whitespace(s.first()) {
        trim_start(s.drop_first())
    } else {
        s
    }
}

/// `s` without its trailing whitespace.
pub open spec fn trim_end(s: Seq<char>) -> Seq<char>
    decreases s.len(),
{
    if s.len() > 0 && is_whitespace(s.last()) {
        trim_end(s.drop_last())
    } else {
        s
    }
}

/// `s` without leading and trailing whitespace.
pub open spec fn trimmed(s: Seq<char>) -> Seq<char> {
    trim_end(trim_start(s))
}

/// `route`, with a `/` put in front unless it starts with one.
pub open spec fn with_leading_slash(route: Seq<char>) -> Seq<char> {
    if route.len() > 0 && route.first() == '/' {
        route
    } else {
        seq!['/'] + route
    }
}

/// The character of the decimal digit `d`.
pub open spec fn digit_char(d: nat) -> char
    recommends
        d < 10,
{
    if d == 0 {
        '0'
    } else if d == 1 {
        '1'
    } else if d == 2 {
        '2'
    } else if d == 3 {
        '3'
    } else if d == 4 {
        '4'
    } else if d == 5 {
        '5'
    } else if d == 6 {
        '6'
    } else if d == 7 {
        '7'
    } else if d == 8 {
        '8'
    } else {
        '9'
    }
}

/// The decimal numeral of `n`, without leading zeros.
pub open spec fn decimal(n: nat) -> Seq<char>
    decreases n,
{
    if n < 10 {
        seq![digit_char(n)]
    } else {
        decimal(n / 10).push(digit_char(n % 10))
    }
}

proof fn lemma_trim_start_is_suffix(s: Seq<char>, a: int)
    requires
        0 <= a <= s.len(),
        forall|i: int| 0 <= i < a ==> is_whitespace(#[trigger] s[i]),
        a < s.len() ==> !is_whitespace(s[a]),
    ensures
        trim_start(s) == s.subrange(a, s.len() as int),
    decreases a,
{
    if a == 0 {
        assert(s.subrange(0, s.len() as int) =~= s);
    } else {
        let t = s.drop_first();
        assert forall|i: int| 0 <= i < a - 1 implies is_whitespace(#[trigger] t[i]) by {
            assert(t[i] == s[i + 1]);
        }
        lemma_trim_start_is_suffix(t, a - 1);
        assert(t.subrange(a - 1, t.len() as int) =~= s.subrange(a, s.len() as int));
    }
}

proof fn lemma_trim_end_is_prefix(s: Seq<char>, b: int)
    requires
        0 <= b <= s.len(),
        forall|i: int| b <= i < s.len() ==> is_whitespace(#[trigger] s[i]),
        0 < b ==> !is_whitespace(s[b - 1]),
    ensures
        trim_end(s) == s.subrange(0, b),
    decreases s.len() - b,
{
    if b == s.len() {
        assert(s.subrange(0, b) =~= s);
    } else {
        let t = s.drop_last();
        lemma_trim_end_is_prefix(t, b);
        assert(t.subrange(0, b) =~= s.subrange(0, b));
    }
}

/// What trimming keeps is the stretch from the first character that is no
/// whitespace to the last one.
pub proof fn lemma_trimmed_is_subrange(s: Seq<char>, a: int, b: int)
    requires
        0 <= a <= s.len(),
        0 <= b <= s.len(),
        forall|i: int| 0 <= i < a ==> is_whitespace(#[trigger] s[i]),
        forall|i: int| b <= i < s.len() ==> is_whitespace(#[trigger] s[i]),
        a < s.len() ==> !is_whitespace(s[a]),
        0 < b ==> !is_whitespace(s[b - 1]),
    ensures
        a < s.len() ==> a < b && trimmed(s) == s.subrange(a, b),
        a == s.len() ==> b == 0 && trimmed(s) == Seq::<char>::empty(),
{
    lemma_trim_start_is_suffix(s, a);
    let t = s.subrange(a, s.len() as int);
    if a < s.len() {
        assert(b > a) by {
            if b <= a {
                assert(is_whitespace(s[a]));
            }
        }
        assert forall|i: int| b - a <= i < t.len() implies is_whitespace(#[trigger] t[i]) by {
            assert(t[i] == s[i + a]);
        }
        assert(t[b - a - 1] == s[b - 1]);
        lemma_trim_end_is_prefix(t, b - a);
        assert(t.subrange(0, b - a) =~= s.subrange(a, b));
    } else {
        assert(b == 0) by {
            if b > 0 {
                assert(is_whitespace(s[b - 1]));
            }
        }
        assert(t =~= Seq::<char>::empty());
    }
}

/// Whether `c` is whitespace.
pub fn char_is_whitespace(c: char) -> (r: bool)
    ensures
        r == is_whitespace(c),
{
    let u: u32 = c as u32;
    (0x09 <= u && u <= 0x0d) || u == 0x20 || u == 0x85 || u == 0xa0 || u == 0x1680 || (0x2000 <= u
        && u <= 0x200a) || u == 0x2028 || u == 0x2029 || u == 0x202f || u == 0x205f || u == 0x3000
}

/// `s` without leading and trailing whitespace.
pub fn trim(s: &str) -> (r: &str)
    ensures
        r@ == trimmed(s@),
{
    let n: usize = s.unicode_len();
    let mut a: usize = n;
    let mut b: usize = 0;
    let mut i: usize = 0;
    let mut it = s.chars();
    for c in iter: it
        invariant
            iter.seq() == s@,
            n == s@.len(),
            i == iter.index(),
            i <= n,
            a <= i || a == n,
            b <= i,
            forall|j: int| 0 <= j < i && j < a ==> is_whitespace(#[trigger] s@[j]),
            a < n ==> a < i && !is_whitespace(s@[a as int]),
            forall|j: int| b <= j < i ==> is_whitespace(#[trigger] s@[j]),
            0 < b ==> !is_whitespace(s@[b - 1]),
    {
        if !char_is_whitespace(c) {
            if a == n {
                a = i;
            }
            b = i + 1;
        }
        i = i + 1;
    }
    proof {
        lemma_trimmed_is_subrange(s@, a as int, b as int);
    }
    if a < n {
        s.substring_char(a, b)
    } else {
        s.substring_char(0, 0)
    }
}

/// The one-character text of the decimal digit `d`.
fn digit_text(d: u16) -> (r: &'static str)
    requires
        d < 10,
    ensures
        r@ == seq![digit_char(d as nat)],
{
    proof {
        reveal_strlit("0");
        reveal_strlit("1");
        reveal_strlit("2");
        reveal_strlit("3");
        reveal_strlit("4");
        reveal_strlit("5");
        reveal_strlit("6");
        reveal_strlit("7");
        reveal_strlit("8");
        reveal_strlit("9");
    }
    let r = if d == 0 {
        "0"
    } else if d == 1 {
        "1"
    } else if d == 2 {
        "2"
    } else if d == 3 {
        "3"
    } else if d == 4 {
        "4"
    } else if d == 5 {
        "5"
    } else if d == 6 {
        "6"
    } else if d == 7 {
        "7"
    } else if d == 8 {
        "8"
    } else {
        "9"
    };
    assert(r@ =~= seq![digit_char(d as nat)]);
    r
}

/// The decimal numeral of `n`.
pub fn decimal_text(n: u16) -> (r: String)
    ensures
        r@ == decimal(n as nat),
    decreases n,
{
    if n < 10 {
        String::from_str(digit_text(n))
    } else {
        let mut r = decimal_text(n / 10);
        r.append(digit_text(n % 10));
        assert(r@ =~= decimal(n as nat));
        r
    }
}

/// The scheme and separator that an address starts with.
pub open spec fn scheme_prefix(use_https: bool) -> Seq<char> {
    if use_https {
        "https://"@
    } else {
        "http://"@
    }
}

/// The port's part of an address: a colon and the decimal port, or nothing.
pub open spec fn port_suffix(port: Option<u16>) -> Seq<char> {
    match port {
        Some(p) => seq![':'] + decimal(p as nat),
        None => Seq::<char>::empty(),
    }
}

/// Where the collector is reached.
#[derive(Debug)]
pub struct Url {
    pub host: String,
    pub port: Option<u16>,
    pub route: String,
}

impl Url {
    /// The text of the address under the chosen scheme.
    pub open spec fn address(&self, use_https: bool) -> Seq<char> {
        scheme_prefix(use_https) + self.host@ + port_suffix(self.port) + self.route@
    }

    /// An endpoint from a host and a route as they were typed: whitespace
    /// around either is dropped, and the route is made to start with `/`.
    pub fn new(host: &str, port: Option<u16>, route: &str) -> (url: Url)
        ensures
            url.host@ == trimmed(host@),
            url.port == port,
            url.route@ == with_leading_slash(trimmed(route@)),
    {
        let clean_host = trim(host);
        let clean_route = trim(route);
        let starts_with_slash = clean_route.unicode_len() > 0 && clean_route.get_char(0) == '/';
        let formatted_route = if starts_with_slash {
            String::from_str(clean_route)
        } else {
            proof {
                reveal_strlit("/");
            }
            let mut r = String::from_str("/");
            r.append(clean_route);
            assert(r@ =~= seq!['/'] + clean_route@);
            r
        };
        Url { host: String::from_str(clean_host), port, route: formatted_route }
    }

    /// The address as text, with `https` or `http` in front.
    pub fn format(&self, use_https: bool) -> (r: String)
        ensures
            r@ == self.address(use_https),
    {
        let protocol = if use_https {
            "https://"
        } else {
            "http://"
        };
        let mut r = String::from_str(protocol);
        r.append(self.host.as_str());
        match self.port {
            Some(port) => {
                proof {
                    reveal_strlit(":");
                }
                r.append(":");
                let digits = decimal_text(port);
                r.append(digits.as_str());
                assert(r@ =~= scheme_prefix(use_https) + self.host@ + port_suffix(self.port));
            },
            None => {
                assert(r@ =~= scheme_prefix(use_https) + self.host@ + port_suffix(self.port));
            },
        }
        r.append(self.route.as_str());
        r
    }

    /// The address under `https`, as it is shown to a reader.
    pub fn to_string(&self) -> (r: String)
        ensures
            r@ == self.address(true),
    {
        self.format(true)
    }
}

} // verus!
