//! Default-route lookup in the text of a routing-table listing.

use vstd::prelude::*;

use crate::lease::opt_chars;
use crate::text::{
    chars_of, find_char, lemma_lines_step, lines, span_equals, span_texts, substring, word_spans,
    words,
};

verus! {

/// Number of columns in a routing-table row: destination, gateway, flags,
/// three counters, MTU and interface.
pub const ROUTE_COLUMNS: usize = 8;

/// An address family of the routing table.
#[derive(Clone, Copy, Debug, PartialEq, Eq)]
pub enum Family {
    V4,
    V6,
}

/// The name of a family as the routing-table query takes it.
pub open spec fn family_name(f: Family) -> Seq<char> {
    match f {
        Family::V4 => "inet"@,
        Family::V6 => "inet6"@,
    }
}

impl Family {
    /// The name of this family as the routing-table query takes it.
    pub fn proto(&self) -> (r: &'static str)
        ensures
            r@ == family_name(*self),
    {
        match self {
            Family::V4 => "inet",
            Family::V6 => "inet6",
        }
    }
}

/// The gateway of a row whose destination is `default` and whose interface
/// is `iface`, when the row has exactly the expected columns.
pub open spec fn route_of_line(l: Seq<char>, iface: Seq<char>) -> Option<Seq<char>> {
    let w = words(l);
    if w.len() == ROUTE_COLUMNS && w[0] == "default"@ && w[7] == iface {
        Some(w[1])
    } else {
        None
    }
}

/// The gateway of the first row of `ls` that is a default route of `iface`.
pub open spec fn first_route(ls: Seq<Seq<char>>, iface: Seq<char>) -> Option<Seq<char>>
    decreases ls.len(),
{
    if ls.len() == 0 {
        None
    } else if route_of_line(ls[0], iface) is Some {
        route_of_line(ls[0], iface)
    } else {
        first_route(ls.drop_first(), iface)
    }
}

/// The default gateway of `iface` in a routing-table listing.
pub open spec fn default_route_in(table: Seq<char>, iface: Seq<char>) -> Option<Seq<char>> {
    first_route(lines(table), iface)
}

/// The default gateway of `iface_name` in the text of a routing-table listing;
/// rows without exactly the expected columns are skipped.
pub fn find_default_route(table: &str, iface_name: &str) -> (r: Option<String>)
    ensures
        opt_chars(r) == default_route_in(table@, iface_name@),
{
    let cs = chars_of(table);
    let iface = chars_of(iface_name);
    let dest = chars_of("default");
    let n = cs.len();
    let mut a: usize = 0;
    assert(cs@.subrange(0, n as int) =~= cs@);
    loop
        invariant
            a <= n == cs.len(),
            cs@ == table@,
            iface@ == iface_name@,
            dest@ == "default"@,
            default_route_in(table@, iface_name@) == first_route(
                lines(cs@.subrange(a as int, n as int)),
                iface_name@,
            ),
        decreases n - a,
    {
        let e = find_char(&cs, '\n', a, n);
        proof {
            lemma_lines_step(cs@, a as int, e as int, n as int);
        }
        let cols = word_spans(&cs, a, e);
        let ghost w = span_texts(cs@, cols@);
        if cols.len() == ROUTE_COLUMNS {
            assert(w[0] == cs@.subrange(cols[0].0 as int, cols[0].1 as int));
            assert(w[7] == cs@.subrange(cols[7].0 as int, cols[7].1 as int));
            if span_equals(&cs, cols[0].0, cols[0].1, &dest) && span_equals(
                &cs,
                cols[7].0,
                cols[7].1,
                &iface,
            ) {
                assert(w[1] == cs@.subrange(cols[1].0 as int, cols[1].1 as int));
                return Some(substring(table, &cs, cols[1].0, cols[1].1));
            }
        }
        if e == n {
            assert(first_route(lines(cs@.subrange(a as int, n as int)).drop_first(), iface_name@)
                == None::<Seq<char>>);
            return None;
        }
        a = e + 1;
    }
}

} // verus!
