//! The monitor: per-interface change detection and the decision to fire a
//! trigger script.
//!
//! One check of an interface and family takes two steps. First the lease
//! file's modification time goes to `check_file_modified`; only when that
//! reports a change are the file and the routing table read and handed to
//! `check_lease` (or `check_lease6`), which decides whether the trigger fires.

use vstd::prelude::*;

use crate::lease::{
    get_lease_ip4_addr, get_lease_ip6_extract, lease_ip4_addr, lease_ip6_prefix, Lease6Params,
    Lease6Record, LeaseParams, LeaseRecord,
};
use crate::route::{default_route_in, find_default_route};
use crate::store::KeyedStore;

verus! {

/// The monitor's configuration.
#[derive(Clone, Debug)]
pub struct Args {
    /// Stay in the foreground instead of detaching.
    pub foreground: bool,
    /// Where the process id is written when detached.
    pub pid_file: String,
    /// Directory the process works from.
    pub root_dir: String,
    /// Directory holding the trigger scripts.
    pub scripts_dir: String,
    /// Name prefix of the IPv4 trigger scripts.
    pub trigger_script_prefix: String,
    /// Name prefix of the IPv6 trigger scripts.
    pub trigger_script_prefix_ipv6: String,
    /// Directory holding the IPv4 lease files.
    pub dhcp_lease_dir: String,
    /// Directory holding the IPv6 lease files.
    pub dhcp6_lease_dir: String,
    /// Seconds between two cycles.
    pub interval: u8,
    /// Interfaces to watch, in order.
    pub interfaces: Vec<String>,
    /// Watch IPv6 leases as well.
    pub ipv6: bool,
    /// Report each step.
    pub verbosity: bool,
}

/// What the monitor remembers: last modification time per lease file path,
/// and the last record acted upon per interface, for each family.
pub ghost struct MonitorState {
    pub times: Map<Seq<char>, u128>,
    pub v4: Map<Seq<char>, LeaseRecord>,
    pub v6: Map<Seq<char>, Lease6Record>,
}

/// A trigger script to run and the environment to run it with.
#[derive(Clone, Debug)]
pub struct TriggerAction {
    pub script_path: String,
    pub env: Vec<(String, String)>,
}

/// `dir/name`.
pub open spec fn join_path(dir: Seq<char>, name: Seq<char>) -> Seq<char> {
    dir + "/"@ + name
}

/// The characters of an optional text.
pub open spec fn opt_text(o: Option<&str>) -> Option<Seq<char>> {
    match o {
        Some(t) => Some(t@),
        None => None,
    }
}

/// A found value, or the empty value for "unknown".
pub open spec fn or_empty(o: Option<Seq<char>>) -> Seq<char> {
    match o {
        Some(v) => v,
        None => seq![],
    }
}

/// The default route of `iface` in a routing-table listing, empty when the
/// listing could not be had or has none.
pub open spec fn route_or_empty(table: Option<Seq<char>>, iface: Seq<char>) -> Seq<char> {
    match table {
        Some(t) => or_empty(default_route_in(t, iface)),
        None => seq![],
    }
}

/// The v4 record of `iface`, from its lease file's text (`None`: unreadable)
/// and the routing-table listing (`None`: the query failed).
pub open spec fn lease_record_of(
    iface: Seq<char>,
    text: Option<Seq<char>>,
    table: Option<Seq<char>>,
) -> LeaseRecord {
    LeaseRecord {
        iface,
        addr: match text {
            Some(t) => or_empty(lease_ip4_addr(t)),
            None => seq![],
        },
        route: route_or_empty(table, iface),
    }
}

/// The v6 record of `iface`, from its lease file's text and the listing.
pub open spec fn lease6_record_of(
    iface: Seq<char>,
    text: Option<Seq<char>>,
    table: Option<Seq<char>>,
) -> Lease6Record {
    let p = match text {
        Some(t) => lease_ip6_prefix(t),
        None => None,
    };
    Lease6Record {
        iface,
        prefix: match p {
            Some(v) => v.0,
            None => seq![],
        },
        prefix_len: match p {
            Some(v) => v.1,
            None => seq![],
        },
        route: route_or_empty(table, iface),
    }
}

/// The last modification time seen for `path`; the epoch when none was.
pub open spec fn last_seen(times: Map<Seq<char>, u128>, path: Seq<char>) -> u128 {
    if times.contains_key(path) {
        times[path]
    } else {
        0
    }
}

/// Whether a file seen now with modification time `mtime` has changed.
pub open spec fn is_modified(times: Map<Seq<char>, u128>, path: Seq<char>, mtime: u128) -> bool {
    mtime > last_seen(times, path)
}

/// The times remembered after seeing `path` with modification time `mtime`.
pub open spec fn times_after(times: Map<Seq<char>, u128>, path: Seq<char>, mtime: u128) -> Map<
    Seq<char>,
    u128,
> {
    if is_modified(times, path, mtime) {
        times.insert(path, mtime)
    } else {
        times
    }
}

/// Whether a new record fires the trigger: nothing was acted upon for its
/// interface yet, or what was differs.
pub open spec fn fires<R>(cache: Map<Seq<char>, R>, iface: Seq<char>, rec: R) -> bool {
    !cache.contains_key(iface) || cache[iface] != rec
}

/// The records remembered after deciding on `rec` for `iface`.
pub open spec fn cache_after<R>(cache: Map<Seq<char>, R>, iface: Seq<char>, rec: R) -> Map<
    Seq<char>,
    R,
> {
    if fires(cache, iface, rec) {
        cache.insert(iface, rec)
    } else {
        cache
    }
}

/// One check of the v4 lease of `iface` whose file at `path` is seen with
/// modification time `mtime`, as `check_file_modified` and `check_lease` make
/// it: only a changed file has its record built from `text` and `table` and
/// decided on. The state after it, and the record whose trigger fires.
pub open spec fn lease_cycle(
    s: MonitorState,
    path: Seq<char>,
    iface: Seq<char>,
    mtime: u128,
    text: Option<Seq<char>>,
    table: Option<Seq<char>>,
) -> (MonitorState, Option<LeaseRecord>) {
    if !is_modified(s.times, path, mtime) {
        (s, None)
    } else {
        let rec = lease_record_of(iface, text, table);
        let next = MonitorState {
            times: times_after(s.times, path, mtime),
            v4: cache_after(s.v4, iface, rec),
            ..s
        };
        (next, if fires(s.v4, iface, rec) { Some(rec) } else { None })
    }
}

/// One check of the v6 lease of `iface`, as `check_file_modified` and
/// `check_lease6` make it.
pub open spec fn lease6_cycle(
    s: MonitorState,
    path: Seq<char>,
    iface: Seq<char>,
    mtime: u128,
    text: Option<Seq<char>>,
    table: Option<Seq<char>>,
) -> (MonitorState, Option<Lease6Record>) {
    if !is_modified(s.times, path, mtime) {
        (s, None)
    } else {
        let rec = lease6_record_of(iface, text, table);
        let next = MonitorState {
            times: times_after(s.times, path, mtime),
            v6: cache_after(s.v6, iface, rec),
            ..s
        };
        (next, if fires(s.v6, iface, rec) { Some(rec) } else { None })
    }
}

/// The names and values of an environment.
pub open spec fn env_chars(env: Seq<(String, String)>) -> Seq<(Seq<char>, Seq<char>)> {
    Seq::new(env.len(), |i: int| (env[i].0@, env[i].1@))
}

/// The environment of a v4 trigger script.
pub open spec fn trigger_env(r: LeaseRecord) -> Seq<(Seq<char>, Seq<char>)> {
    seq![("DHCP_IFACE"@, r.iface), ("DHCP_IP_ADDR"@, r.addr), ("DHCP_IP_ROUTE"@, r.route)]
}

/// The environment of a v6 trigger script.
pub open spec fn trigger_env6(r: Lease6Record) -> Seq<(Seq<char>, Seq<char>)> {
    seq![
        ("DHCP6_IFACE"@, r.iface),
        ("DHCP6_IP_PREFIX"@, r.prefix),
        ("DHCP6_IP_PREFIX_LEN"@, r.prefix_len),
        ("DHCP6_IP_ROUTE"@, r.route),
    ]
}

/// `dir/name` as a string.
fn join(dir: &String, name: &str) -> (r: String)
    ensures
        r@ == join_path(dir@, name@),
{
    let mut p = dir.clone();
    p.append("/");
    p.append(name);
    p
}

/// The pair `(name, value)` of an environment.
fn env_var(name: &str, value: &String) -> (r: (String, String))
    ensures
        r.0@ == name@,
        r.1@ == value@,
{
    (name.to_owned(), value.clone())
}

/// The watching state of the monitor over its configuration.
pub struct Monitor {
    pub args: Args,
    /// Last modification time seen per lease file path.
    pub timestamps: KeyedStore<u128>,
    /// Last v4 record acted upon per interface.
    pub lease_params: KeyedStore<LeaseParams>,
    /// Last v6 record acted upon per interface.
    pub lease6_params: KeyedStore<Lease6Params>,
}

impl Monitor {
    /// The stores are well formed.
    pub open spec fn wf(&self) -> bool {
        self.timestamps.wf() && self.lease_params.wf() && self.lease6_params.wf()
    }

    /// What the monitor remembers.
    pub open spec fn state(&self) -> MonitorState {
        MonitorState {
            times: self.timestamps.view(),
            v4: self.lease_params.view(),
            v6: self.lease6_params.view(),
        }
    }

    /// A monitor over `args` that remembers nothing yet.
    pub fn new(args: Args) -> (r: Self)
        ensures
            r.wf(),
            r.args == args,
            r.state().times == Map::<Seq<char>, u128>::empty(),
            r.state().v4 == Map::<Seq<char>, LeaseRecord>::empty(),
            r.state().v6 == Map::<Seq<char>, Lease6Record>::empty(),
    {
        Monitor {
            args,
            timestamps: KeyedStore::new(),
            lease_params: KeyedStore::new(),
            lease6_params: KeyedStore::new(),
        }
    }

    /// Path of the IPv4 lease file of `iface_name`.
    pub fn get_lease_file_path(&self, iface_name: &str) -> (r: String)
        ensures
            r@ == join_path(self.args.dhcp_lease_dir@, iface_name@),
    {
        join(&self.args.dhcp_lease_dir, iface_name)
    }

    /// Path of the IPv6 lease file of `iface_name`.
    pub fn get_lease6_file_path(&self, iface_name: &str) -> (r: String)
        ensures
            r@ == join_path(self.args.dhcp6_lease_dir@, iface_name@),
    {
        join(&self.args.dhcp6_lease_dir, iface_name)
    }

    /// Path of the IPv4 trigger script of `iface_name`.
    pub fn get_trigger_script_path(&self, iface_name: &str) -> (r: String)
        ensures
            r@ == join_path(self.args.scripts_dir@, self.args.trigger_script_prefix@ + iface_name@),
    {
        let mut name = self.args.trigger_script_prefix.clone();
        name.append(iface_name);
        join(&self.args.scripts_dir, name.as_str())
    }

    /// Path of the IPv6 trigger script of `iface_name`.
    pub fn get_trigger_script_path_ipv6(&self, iface_name: &str) -> (r: String)
        ensures
            r@ == join_path(
                self.args.scripts_dir@,
                self.args.trigger_script_prefix_ipv6@ + iface_name@,
            ),
    {
        let mut name = self.args.trigger_script_prefix_ipv6.clone();
        name.append(iface_name);
        join(&self.args.scripts_dir, name.as_str())
    }

    /// Whether the file at `lease_file_path`, whose modification time is now
    /// `mtime` (nanoseconds since the epoch), changed since it was last seen.
    /// A change is remembered; otherwise nothing changes.
    pub fn check_file_modified(&mut self, lease_file_path: &str, mtime: u128) -> (r: bool)
        requires
            old(self).wf(),
        ensures
            final(self).wf(),
            r == is_modified(old(self).state().times, lease_file_path@, mtime),
            final(self).state() == (MonitorState {
                times: times_after(old(self).state().times, lease_file_path@, mtime),
                ..old(self).state()
            }),
            final(self).args == old(self).args,
    {
        let path = lease_file_path.to_owned();
        let last = match self.timestamps.get(&path) {
            Some(t) => *t,
            None => 0,
        };
        if mtime > last {
            self.timestamps.insert(path, mtime);
            true
        } else {
            false
        }
    }

    /// The v4 parameters of `iface_name`, from its lease file's text
    /// (`None`: unreadable) and the `inet` routing-table listing (`None`: the
    /// query failed); what is not found is empty.
    pub fn get_actual_lease_params(
        &self,
        iface_name: &str,
        lease_text: Option<&str>,
        route_table: Option<&str>,
    ) -> (r: LeaseParams)
        ensures
            r@ == lease_record_of(iface_name@, opt_text(lease_text), opt_text(route_table)),
    {
        let ip_addr = match lease_text {
            Some(t) => match get_lease_ip4_addr(t) {
                Some(a) => a,
                None => String::new(),
            },
            None => String::new(),
        };
        let route_addr = route_or_empty_exec(route_table, iface_name);
        LeaseParams { iface_name: iface_name.to_owned(), ip_addr, route_addr }
    }

    /// The v6 parameters of `iface_name`, from its lease file's text and the
    /// `inet6` routing-table listing; what is not found is empty.
    pub fn get_actual_lease6_params(
        &self,
        iface_name: &str,
        lease_text: Option<&str>,
        route_table: Option<&str>,
    ) -> (r: Lease6Params)
        ensures
            r@ == lease6_record_of(iface_name@, opt_text(lease_text), opt_text(route_table)),
    {
        let found = match lease_text {
            Some(t) => get_lease_ip6_extract(t),
            None => None,
        };
        let (ip6_prefix, ip6_prefix_len) = match found {
            Some(p) => p,
            None => (String::new(), String::new()),
        };
        let route6_addr = route_or_empty_exec(route_table, iface_name);
        Lease6Params { iface_name: iface_name.to_owned(), ip6_prefix, ip6_prefix_len, route6_addr }
    }

    /// The v4 trigger of `lease_params`: its script and environment.
    pub fn trigger_action(&self, lease_params: &LeaseParams) -> (r: TriggerAction)
        ensures
            r.script_path@ == join_path(
                self.args.scripts_dir@,
                self.args.trigger_script_prefix@ + lease_params.iface_name@,
            ),
            env_chars(r.env@) == trigger_env(lease_params@),
    {
        let script_path = self.get_trigger_script_path(lease_params.iface_name.as_str());
        let env = vec![
            env_var("DHCP_IFACE", &lease_params.iface_name),
            env_var("DHCP_IP_ADDR", &lease_params.ip_addr),
            env_var("DHCP_IP_ROUTE", &lease_params.route_addr),
        ];
        assert(env_chars(env@) =~= trigger_env(lease_params@));
        TriggerAction { script_path, env }
    }

    /// The v6 trigger of `lease_params`: its script and environment.
    pub fn trigger_action_ipv6(&self, lease_params: &Lease6Params) -> (r: TriggerAction)
        ensures
            r.script_path@ == join_path(
                self.args.scripts_dir@,
                self.args.trigger_script_prefix_ipv6@ + lease_params.iface_name@,
            ),
            env_chars(r.env@) == trigger_env6(lease_params@),
    {
        let script_path = self.get_trigger_script_path_ipv6(lease_params.iface_name.as_str());
        let env = vec![
            env_var("DHCP6_IFACE", &lease_params.iface_name),
            env_var("DHCP6_IP_PREFIX", &lease_params.ip6_prefix),
            env_var("DHCP6_IP_PREFIX_LEN", &lease_params.ip6_prefix_len),
            env_var("DHCP6_IP_ROUTE", &lease_params.route6_addr),
        ];
        assert(env_chars(env@) =~= trigger_env6(lease_params@));
        TriggerAction { script_path, env }
    }

    /// Decides on the v4 lease of `iface_name` once its file was seen
    /// modified: builds the record from the file's text and the listing and,
    /// when it fires, remembers it and returns the trigger to run.
    pub fn check_lease(
        &mut self,
        iface_name: &str,
        lease_text: Option<&str>,
        route_table: Option<&str>,
    ) -> (r: Option<TriggerAction>)
        requires
            old(self).wf(),
        ensures
            final(self).wf(),
            final(self).args == old(self).args,
            ({
                let rec = lease_record_of(iface_name@, opt_text(lease_text), opt_text(route_table));
                &&& r is Some <==> fires(old(self).state().v4, iface_name@, rec)
                &&& final(self).state() == (MonitorState {
                    v4: cache_after(old(self).state().v4, iface_name@, rec),
                    ..old(self).state()
                })
                &&& r matches Some(a) ==> a.script_path@ == join_path(
                    old(self).args.scripts_dir@,
                    old(self).args.trigger_script_prefix@ + iface_name@,
                ) && env_chars(a.env@) == trigger_env(rec)
            }),
    {
        let lease_params = self.get_actual_lease_params(iface_name, lease_text, route_table);
        let key = iface_name.to_owned();
        let trigger = match self.lease_params.get(&key) {
            Some(current) => *current != lease_params,
            None => true,
        };
        if trigger {
            let action = self.trigger_action(&lease_params);
            self.lease_params.insert(key, lease_params);
            Some(action)
        } else {
            None
        }
    }

    /// Decides on the v6 lease of `iface_name` once its file was seen
    /// modified, as `check_lease` does for v4.
    pub fn check_lease6(
        &mut self,
        iface_name: &str,
        lease_text: Option<&str>,
        route_table: Option<&str>,
    ) -> (r: Option<TriggerAction>)
        requires
            old(self).wf(),
        ensures
            final(self).wf(),
            final(self).args == old(self).args,
            ({
                let rec = lease6_record_of(iface_name@, opt_text(lease_text), opt_text(route_table));
                &&& r is Some <==> fires(old(self).state().v6, iface_name@, rec)
                &&& final(self).state() == (MonitorState {
                    v6: cache_after(old(self).state().v6, iface_name@, rec),
                    ..old(self).state()
                })
                &&& r matches Some(a) ==> a.script_path@ == join_path(
                    old(self).args.scripts_dir@,
                    old(self).args.trigger_script_prefix_ipv6@ + iface_name@,
                ) && env_chars(a.env@) == trigger_env6(rec)
            }),
    {
        let lease_params = self.get_actual_lease6_params(iface_name, lease_text, route_table);
        let key = iface_name.to_owned();
        let trigger = match self.lease6_params.get(&key) {
            Some(current) => *current != lease_params,
            None => true,
        };
        if trigger {
            let action = self.trigger_action_ipv6(&lease_params);
            self.lease6_params.insert(key, lease_params);
            Some(action)
        } else {
            None
        }
    }

    /// Whether each step is reported.
    pub fn verbosity(&self) -> (r: bool)
        ensures
            r == self.args.verbosity,
    {
        self.args.verbosity
    }
}

/// The default route of `iface_name` in a listing, empty when there is none.
fn route_or_empty_exec(route_table: Option<&str>, iface_name: &str) -> (r: String)
    ensures
        r@ == route_or_empty(opt_text(route_table), iface_name@),
{
    match route_table {
        Some(t) => match find_default_route(t, iface_name) {
            Some(g) => g,
            None => String::new(),
        },
        None => String::new(),
    }
}

} // verus!
