//! Lease records and the parsers of lease-state files.

use vstd::prelude::*;

use crate::text::{
    chars_of, find_char, index_of, lemma_index_of, lemma_lines_step, lines, span_equals,
    span_texts, substring, trim, trim_span, word_spans, words,
};

verus! {

/// What a v4 lease record says, as character sequences.
pub ghost struct LeaseRecord {
    pub iface: Seq<char>,
    pub addr: Seq<char>,
    pub route: Seq<char>,
}

/// What a v6 lease record says, as character sequences.
pub ghost struct Lease6Record {
    pub iface: Seq<char>,
    pub prefix: Seq<char>,
    pub prefix_len: Seq<char>,
    pub route: Seq<char>,
}

/// The parameters of an interface's IPv4 lease. An empty field means "unknown".
#[derive(Clone, Debug)]
pub struct LeaseParams {
    pub iface_name: String,
    pub ip_addr: String,
    pub route_addr: String,
}

/// The parameters of an interface's IPv6 delegated prefix. An empty field means "unknown".
#[derive(Clone, Debug)]
pub struct Lease6Params {
    pub iface_name: String,
    pub ip6_prefix: String,
    pub ip6_prefix_len: String,
    pub route6_addr: String,
}

impl View for LeaseParams {
    type V = LeaseRecord;

    open spec fn view(&self) -> LeaseRecord {
        LeaseRecord { iface: self.iface_name@, addr: self.ip_addr@, route: self.route_addr@ }
    }
}

impl View for Lease6Params {
    type V = Lease6Record;

    open spec fn view(&self) -> Lease6Record {
        Lease6Record {
            iface: self.iface_name@,
            prefix: self.ip6_prefix@,
            prefix_len: self.ip6_prefix_len@,
            route: self.route6_addr@,
        }
    }
}

impl PartialEq for LeaseParams {
    fn eq(&self, o: &LeaseParams) -> (r: bool) {
        self.iface_name == o.iface_name && self.ip_addr == o.ip_addr && self.route_addr
            == o.route_addr
    }
}

impl vstd::std_specs::cmp::PartialEqSpecImpl for LeaseParams {
    open spec fn obeys_eq_spec() -> bool {
        true
    }

    open spec fn eq_spec(&self, o: &LeaseParams) -> bool {
        self@ == o@
    }
}

impl PartialEq for Lease6Params {
    fn eq(&self, o: &Lease6Params) -> (r: bool) {
        self.iface_name == o.iface_name && self.ip6_prefix == o.ip6_prefix && self.ip6_prefix_len
            == o.ip6_prefix_len && self.route6_addr == o.route6_addr
    }
}

impl vstd::std_specs::cmp::PartialEqSpecImpl for Lease6Params {
    open spec fn obeys_eq_spec() -> bool {
        true
    }

    open spec fn eq_spec(&self, o: &Lease6Params) -> bool {
        self@ == o@
    }
}

/// The characters of an optional string.
pub open spec fn opt_chars(o: Option<String>) -> Option<Seq<char>> {
    match o {
        Some(s) => Some(s@),
        None => None,
    }
}

/// The characters of an optional pair of strings.
pub open spec fn opt_pair_chars(o: Option<(String, String)>) -> Option<(Seq<char>, Seq<char>)> {
    match o {
        Some(p) => Some((p.0@, p.1@)),
        None => None,
    }
}

/// The address on a line `key: value` whose trimmed key is `ip`: the trimmed
/// text after the first colon.
pub open spec fn ip_of_line(l: Seq<char>) -> Option<Seq<char>> {
    let c = index_of(l, ':') as int;
    if c < l.len() && trim(l.subrange(0, c)) == "ip"@ {
        Some(trim(l.subrange(c + 1, l.len() as int)))
    } else {
        None
    }
}

/// The address of the first line of `ls` that carries one.
pub open spec fn first_ip(ls: Seq<Seq<char>>) -> Option<Seq<char>>
    decreases ls.len(),
{
    if ls.len() == 0 {
        None
    } else if ip_of_line(ls[0]) is Some {
        ip_of_line(ls[0])
    } else {
        first_ip(ls.drop_first())
    }
}

/// The IPv4 address that a v4 lease file holds.
pub open spec fn lease_ip4_addr(text: Seq<char>) -> Option<Seq<char>> {
    first_ip(lines(text))
}

/// Columns 2 and 3 of a line whose first column is `ia_pd` and that has them.
pub open spec fn prefix_of_line(l: Seq<char>) -> Option<(Seq<char>, Seq<char>)> {
    let w = words(l);
    if w.len() >= 4 && w[0] == "ia_pd"@ {
        Some((w[2], w[3]))
    } else {
        None
    }
}

/// The prefix and prefix length of the first line of `ls` that carries them.
pub open spec fn first_prefix(ls: Seq<Seq<char>>) -> Option<(Seq<char>, Seq<char>)>
    decreases ls.len(),
{
    if ls.len() == 0 {
        None
    } else if prefix_of_line(ls[0]) is Some {
        prefix_of_line(ls[0])
    } else {
        first_prefix(ls.drop_first())
    }
}

/// The delegated prefix and its length that a v6 lease file holds.
pub open spec fn lease_ip6_prefix(text: Seq<char>) -> Option<(Seq<char>, Seq<char>)> {
    first_prefix(lines(text))
}

/// The address on the first `ip` line of a v4 lease file's text, if any.
pub fn get_lease_ip4_addr(text: &str) -> (r: Option<String>)
    ensures
        opt_chars(r) == lease_ip4_addr(text@),
{
    let cs = chars_of(text);
    let key = chars_of("ip");
    let n = cs.len();
    let mut a: usize = 0;
    assert(cs@.subrange(0, n as int) =~= cs@);
    loop
        invariant
            a <= n == cs.len(),
            cs@ == text@,
            key@ == "ip"@,
            lease_ip4_addr(text@) == first_ip(lines(cs@.subrange(a as int, n as int))),
        decreases n - a,
    {
        let e = find_char(&cs, '\n', a, n);
        proof {
            lemma_lines_step(cs@, a as int, e as int, n as int);
        }
        let ghost l = cs@.subrange(a as int, e as int);
        let c = find_char(&cs, ':', a, e);
        proof {
            lemma_index_of(l, ':');
        }
        if c < e {
            let (k0, k1) = trim_span(&cs, a, c);
            assert(l.subrange(0, c - a) =~= cs@.subrange(a as int, c as int));
            if span_equals(&cs, k0, k1, &key) {
                let (v0, v1) = trim_span(&cs, c + 1, e);
                assert(l.subrange(c - a + 1, l.len() as int) =~= cs@.subrange(
                    c + 1,
                    e as int,
                ));
                return Some(substring(text, &cs, v0, v1));
            }
        }
        if e == n {
            assert(first_ip(lines(cs@.subrange(a as int, n as int)).drop_first()) == None::<Seq<char>>);
            return None;
        }
        a = e + 1;
    }
}

/// Columns 2 and 3 of the first `ia_pd` line of a v6 lease file's text, if any.
pub fn get_lease_ip6_extract(text: &str) -> (r: Option<(String, String)>)
    ensures
        opt_pair_chars(r) == lease_ip6_prefix(text@),
{
    let cs = chars_of(text);
    let key = chars_of("ia_pd");
    let n = cs.len();
    let mut a: usize = 0;
    assert(cs@.subrange(0, n as int) =~= cs@);
    loop
        invariant
            a <= n == cs.len(),
            cs@ == text@,
            key@ == "ia_pd"@,
            lease_ip6_prefix(text@) == first_prefix(lines(cs@.subrange(a as int, n as int))),
        decreases n - a,
    {
        let e = find_char(&cs, '\n', a, n);
        proof {
            lemma_lines_step(cs@, a as int, e as int, n as int);
        }
        let cols = word_spans(&cs, a, e);
        let ghost w = span_texts(cs@, cols@);
        if cols.len() >= 4 {
            assert(w[0] == cs@.subrange(cols[0].0 as int, cols[0].1 as int));
            if span_equals(&cs, cols[0].0, cols[0].1, &key) {
                assert(w[2] == cs@.subrange(cols[2].0 as int, cols[2].1 as int));
                assert(w[3] == cs@.subrange(cols[3].0 as int, cols[3].1 as int));
                let prefix = substring(text, &cs, cols[2].0, cols[2].1);
                let prefix_len = substring(text, &cs, cols[3].0, cols[3].1);
                return Some((prefix, prefix_len));
            }
        }
        if e == n {
            assert(first_prefix(lines(cs@.subrange(a as int, n as int)).drop_first()) == None::<(Seq<char>, Seq<char>)>);
            return None;
        }
        a = e + 1;
    }
}

} // verus!
