//! What holds of every check cycle of the monitor.

use vstd::prelude::*;

use crate::lease::{Lease6Record, LeaseRecord};
use crate::monitor::{
    is_modified, last_seen, lease6_cycle, lease6_record_of, lease_cycle, lease_record_of,
    MonitorState,
};

verus! {

/// A lease file whose modification time has not advanced since it was last
/// seen is reported unchanged: nothing is remembered anew and no trigger
/// fires, for either family.
pub proof fn lemma_unmodified_file_is_skipped(
    s: MonitorState,
    path: Seq<char>,
    iface: Seq<char>,
    mtime: u128,
    text: Option<Seq<char>>,
    table: Option<Seq<char>>,
)
    requires
        mtime <= last_seen(s.times, path),
    ensures
        !is_modified(s.times, path, mtime),
        lease_cycle(s, path, iface, mtime, text, table) == (s, None::<LeaseRecord>),
        lease6_cycle(s, path, iface, mtime, text, table) == (s, None::<Lease6Record>),
{
}

/// A v4 record equal to the one last acted upon for its interface fires no
/// trigger, even when the file's modification time advanced.
pub proof fn lemma_equal_record_does_not_fire(
    s: MonitorState,
    path: Seq<char>,
    iface: Seq<char>,
    mtime: u128,
    text: Option<Seq<char>>,
    table: Option<Seq<char>>,
)
    requires
        s.v4.contains_key(iface),
        s.v4[iface] == lease_record_of(iface, text, table),
    ensures
        lease_cycle(s, path, iface, mtime, text, table).1 is None,
        lease_cycle(s, path, iface, mtime, text, table).0.v4 == s.v4,
{
}

/// A v6 record equal to the one last acted upon for its interface fires no
/// trigger, even when the file's modification time advanced.
pub proof fn lemma_equal_record6_does_not_fire(
    s: MonitorState,
    path: Seq<char>,
    iface: Seq<char>,
    mtime: u128,
    text: Option<Seq<char>>,
    table: Option<Seq<char>>,
)
    requires
        s.v6.contains_key(iface),
        s.v6[iface] == lease6_record_of(iface, text, table),
    ensures
        lease6_cycle(s, path, iface, mtime, text, table).1 is None,
        lease6_cycle(s, path, iface, mtime, text, table).0.v6 == s.v6,
{
}

/// With no record acted upon yet for an interface, the first change seen
/// fires its trigger with the new record, which is then remembered.
pub proof fn lemma_first_change_fires(
    s: MonitorState,
    path: Seq<char>,
    iface: Seq<char>,
    mtime: u128,
    text: Option<Seq<char>>,
    table: Option<Seq<char>>,
)
    requires
        is_modified(s.times, path, mtime),
    ensures
        !s.v4.contains_key(iface) ==> {
            let (next, fired) = lease_cycle(s, path, iface, mtime, text, table);
            &&& fired == Some(lease_record_of(iface, text, table))
            &&& next.v4[iface] == lease_record_of(iface, text, table)
        },
        !s.v6.contains_key(iface) ==> {
            let (next, fired) = lease6_cycle(s, path, iface, mtime, text, table);
            &&& fired == Some(lease6_record_of(iface, text, table))
            &&& next.v6[iface] == lease6_record_of(iface, text, table)
        },
{
}

/// A second cycle over an unchanged lease file and routing table fires no
/// trigger and leaves the state as the first cycle left it.
pub proof fn lemma_second_cycle_is_quiet(
    s: MonitorState,
    path: Seq<char>,
    iface: Seq<char>,
    mtime: u128,
    text: Option<Seq<char>>,
    table: Option<Seq<char>>,
)
    ensures
        ({
            let first = lease_cycle(s, path, iface, mtime, text, table).0;
            lease_cycle(first, path, iface, mtime, text, table) == (first, None::<LeaseRecord>)
        }),
        ({
            let first = lease6_cycle(s, path, iface, mtime, text, table).0;
            lease6_cycle(first, path, iface, mtime, text, table) == (first, None::<Lease6Record>)
        }),
{
}

} // verus!
