//! Per-route request metrics: every request is counted, none sampled.
//!
//! The collector aggregates a counter and a duration histogram per
//! `{method, path, status}` label set, and its well-formedness ties each
//! aggregate to the full history of observations: the counter of a label
//! set always equals the number of requests observed with it.

use vstd::prelude::*;

use crate::text::{push_decimal, spec_decimal, str_eq};

verus! {

/// One observed request: method, matched route (or raw path), response
/// status, and elapsed wall-clock duration in microseconds.
pub ghost struct Observation {
    pub method: Seq<char>,
    pub path: Seq<char>,
    pub status: u16,
    pub duration: u64,
}

/// Whether an observation carries the given label set.
pub open spec fn obs_matches(o: Observation, method: Seq<char>, path: Seq<char>, status: u16) -> bool {
    o.method == method && o.path == path && o.status == status
}

/// How many observations of `history` carry the given label set.
pub open spec fn count_matching(
    history: Seq<Observation>,
    method: Seq<char>,
    path: Seq<char>,
    status: u16,
) -> nat
    decreases history.len(),
{
    if history.len() == 0 {
        0
    } else {
        count_matching(history.drop_last(), method, path, status) + if obs_matches(
            history.last(),
            method,
            path,
            status,
        ) {
            1nat
        } else {
            0nat
        }
    }
}

/// No label set is observed more often than requests were made.
pub proof fn lemma_count_matching_le_len(
    history: Seq<Observation>,
    method: Seq<char>,
    path: Seq<char>,
    status: u16,
)
    ensures
        count_matching(history, method, path, status) <= history.len(),
    decreases history.len(),
{
    if history.len() > 0 {
        lemma_count_matching_le_len(history.drop_last(), method, path, status);
    }
}

/// One more observation raises its own label set's count by exactly one
/// and leaves every other label set's count unchanged.
pub proof fn lemma_count_matching_push(
    history: Seq<Observation>,
    o: Observation,
    method: Seq<char>,
    path: Seq<char>,
    status: u16,
)
    ensures
        obs_matches(o, method, path, status) ==> count_matching(
            history.push(o),
            method,
            path,
            status,
        ) == count_matching(history, method, path, status) + 1,
        !obs_matches(o, method, path, status) ==> count_matching(
            history.push(o),
            method,
            path,
            status,
        ) == count_matching(history, method, path, status),
{
    assert(history.push(o).drop_last() =~= history);
    assert(history.push(o).last() == o);
}

/// One aggregated label set: its counter and its recorded durations.
pub struct RouteMetric {
    pub method: String,
    pub path: String,
    pub status: u16,
    pub count: u64,
    pub durations: Vec<u64>,
}

/// The two snapshot lines of one aggregate: its request counter and the
/// size of its duration histogram, in the classic text exposition format
/// of `name{labels} value` lines.
pub open spec fn spec_entry_lines(e: RouteMetric) -> Seq<char> {
    "http_requests_total{method=\""@ + e.method@ + "\",path=\""@ + e.path@ + "\",status=\""@
        + spec_decimal(e.status as nat) + "\"} "@ + spec_decimal(e.count as nat) + "\n"@
        + "http_requests_duration_micros_count{method=\""@ + e.method@ + "\",path=\""@ + e.path@
        + "\",status=\""@ + spec_decimal(e.status as nat) + "\"} "@ + spec_decimal(
        e.durations@.len() as nat,
    ) + "\n"@
}

/// The snapshot lines of a sequence of aggregates, in order.
pub open spec fn spec_render_entries(entries: Seq<RouteMetric>) -> Seq<char>
    decreases entries.len(),
{
    if entries.len() == 0 {
        Seq::<char>::empty()
    } else {
        spec_render_entries(entries.drop_last()) + spec_entry_lines(entries.last())
    }
}

/// Whether an aggregate carries the given label set.
pub open spec fn entry_has_labels(e: RouteMetric, method: Seq<char>, path: Seq<char>, status: u16) -> bool {
    e.method@ == method && e.path@ == path && e.status == status
}

/// The request metrics collector. It observes every request/response
/// pair and aggregates, per `{method, path, status}` label set, a request
/// counter and a duration histogram, for a pull-based snapshot.
pub struct MetricsCollector {
    entries: Vec<RouteMetric>,
    history: Ghost<Seq<Observation>>,
}

impl MetricsCollector {
    /// Everything ever observed, in order.
    pub closed spec fn history(self) -> Seq<Observation> {
        self.history@
    }

    /// Whether some aggregate carries the given label set.
    pub closed spec fn has_entry(self, method: Seq<char>, path: Seq<char>, status: u16) -> bool {
        exists|i: int|
            0 <= i < self.entries@.len() && entry_has_labels(
                #[trigger] self.entries@[i],
                method,
                path,
                status,
            )
    }

    /// Well-formedness: label sets are aggregated at most once; each
    /// aggregate's counter equals the number of observations carrying its
    /// labels and has one recorded duration per counted request; and a
    /// label set without an aggregate was never observed.
    pub closed spec fn wf(self) -> bool {
        &&& forall|i: int, j: int|
            0 <= i < self.entries@.len() && 0 <= j < self.entries@.len() && i != j
                ==> !entry_has_labels(
                #[trigger] self.entries@[j],
                (#[trigger] self.entries@[i]).method@,
                self.entries@[i].path@,
                self.entries@[i].status,
            )
        &&& forall|i: int|
            0 <= i < self.entries@.len() ==> {
                let e = #[trigger] self.entries@[i];
                &&& e.count == count_matching(self.history@, e.method@, e.path@, e.status)
                &&& e.durations@.len() == e.count
            }
        &&& forall|method: Seq<char>, path: Seq<char>, status: u16|
            !self.has_entry(method, path, status) ==> #[trigger] count_matching(
                self.history@,
                method,
                path,
                status,
            ) == 0
    }

    /// A collector that has observed nothing.
    pub fn new() -> (c: Self)
        ensures
            c.wf(),
            c.history() == Seq::<Observation>::empty(),
    {
        let c = MetricsCollector { entries: Vec::new(), history: Ghost(Seq::empty()) };
        proof {
            assert forall|method: Seq<char>, path: Seq<char>, status: u16|
                !c.has_entry(method, path, status) implies #[trigger] count_matching(
                c.history@,
                method,
                path,
                status,
            ) == 0 by {}
        }
        c
    }

    /// The index of the aggregate carrying the given label set, if any.
    fn find_entry(&self, method: &str, path: &str, status: u16) -> (r: Option<usize>)
        ensures
            match r {
                Some(i) => i < self.entries@.len() && entry_has_labels(
                    self.entries@[i as int],
                    method@,
                    path@,
                    status,
                ),
                None => !self.has_entry(method@, path@, status),
            },
    {
        let mut i: usize = 0;
        let n = self.entries.len();
        while i < n
            invariant
                i <= n,
                n == self.entries@.len(),
                forall|j: int|
                    0 <= j < i ==> !entry_has_labels(
                        #[trigger] self.entries@[j],
                        method@,
                        path@,
                        status,
                    ),
            decreases n - i,
        {
            let hit = str_eq(self.entries[i].method.as_str(), method) && str_eq(
                self.entries[i].path.as_str(),
                path,
            ) && self.entries[i].status == status;
            if hit {
                return Some(i);
            }
            i = i + 1;
        }
        None
    }

    /// Observe one request: one more observation enters the history, and
    /// nothing else about the collector's meaning changes. (Through
    /// well-formedness this says: the request's own label set counts one
    /// more request and one more duration sample, every other label set
    /// is untouched.)
    pub fn observe(&mut self, method: String, path: String, status: u16, duration_micros: u64)
        requires
            old(self).wf(),
            old(self).history().len() < u64::MAX,
        ensures
            final(self).wf(),
            final(self).history() == old(self).history().push(
                Observation { method: method@, path: path@, status, duration: duration_micros },
            ),
    {
        let ghost obs = Observation {
            method: method@,
            path: path@,
            status,
            duration: duration_micros,
        };
        let found = self.find_entry(method.as_str(), path.as_str(), status);
        proof {
            lemma_count_matching_le_len(self.history@, method@, path@, status);
        }
        match found {
            Some(i) => {
                let c = self.entries[i].count;
                self.entries[i].count = c + 1;
                self.entries[i].durations.push(duration_micros);
                proof {
                    self.history@ = self.history@.push(obs);
                }
                proof {
                    assert forall|m: Seq<char>, p: Seq<char>, s: u16| true implies #[trigger]
                    count_matching(self.history@, m, p, s) == count_matching(
                        old(self).history@,
                        m,
                        p,
                        s,
                    ) + (if obs_matches(obs, m, p, s) {
                        1int
                    } else {
                        0int
                    }) by {
                        lemma_count_matching_push(old(self).history@, obs, m, p, s);
                    }
                    assert forall|m: Seq<char>, p: Seq<char>, s: u16|
                        !self.has_entry(m, p, s) implies #[trigger] count_matching(
                        self.history@,
                        m,
                        p,
                        s,
                    ) == 0 by {
                        assert(!old(self).has_entry(m, p, s)) by {
                            if old(self).has_entry(m, p, s) {
                                let k = choose|k: int|
                                    0 <= k < old(self).entries@.len() && entry_has_labels(
                                        #[trigger] old(self).entries@[k],
                                        m,
                                        p,
                                        s,
                                    );
                                assert(self.entries@[k].method@ == old(self).entries@[k].method@
                                    && self.entries@[k].path@ == old(self).entries@[k].path@
                                    && self.entries@[k].status == old(self).entries@[k].status);
                                assert(entry_has_labels(self.entries@[k], m, p, s));
                            }
                        }
                        assert(!obs_matches(obs, m, p, s)) by {
                            if obs_matches(obs, m, p, s) {
                                assert(entry_has_labels(self.entries@[i as int], method@, path@, status));
                                assert(self.has_entry(m, p, s));
                            }
                        }
                        lemma_count_matching_push(old(self).history@, obs, m, p, s);
                    }
                }
            },
            None => {
                let entry = RouteMetric {
                    method,
                    path,
                    status,
                    count: 1,
                    durations: make_singleton(duration_micros),
                };
                self.entries.push(entry);
                proof {
                    self.history@ = self.history@.push(obs);
                }
                proof {
                    assert forall|m: Seq<char>, p: Seq<char>, s: u16| true implies #[trigger]
                    count_matching(self.history@, m, p, s) == count_matching(
                        old(self).history@,
                        m,
                        p,
                        s,
                    ) + (if obs_matches(obs, m, p, s) {
                        1int
                    } else {
                        0int
                    }) by {
                        lemma_count_matching_push(old(self).history@, obs, m, p, s);
                    }
                    assert(count_matching(old(self).history@, method@, path@, status) == 0);
                    assert forall|m: Seq<char>, p: Seq<char>, s: u16|
                        !self.has_entry(m, p, s) implies #[trigger] count_matching(
                        self.history@,
                        m,
                        p,
                        s,
                    ) == 0 by {
                        assert(forall|j: int|
                            0 <= j < old(self).entries@.len() ==> old(self).entries@[j]
                                == #[trigger] self.entries@[j]);
                        assert(self.entries@[self.entries@.len() - 1] == entry);
                        assert(!entry_has_labels(entry, m, p, s)) by {
                            if entry_has_labels(entry, m, p, s) {
                                assert(self.has_entry(m, p, s));
                            }
                        }
                        assert(!old(self).has_entry(m, p, s)) by {
                            if old(self).has_entry(m, p, s) {
                                let k = choose|k: int|
                                    0 <= k < old(self).entries@.len() && entry_has_labels(
                                        #[trigger] old(self).entries@[k],
                                        m,
                                        p,
                                        s,
                                    );
                                assert(entry_has_labels(self.entries@[k], m, p, s));
                            }
                        }
                        assert(!obs_matches(obs, m, p, s));
                        lemma_count_matching_push(old(self).history@, obs, m, p, s);
                    }
                }
            },
        }
    }

    /// The request counter of a label set: exactly how many requests were
    /// observed with it; zero when it was never observed.
    pub fn counter(&self, method: &str, path: &str, status: u16) -> (c: u64)
        requires
            self.wf(),
        ensures
            c == count_matching(self.history(), method@, path@, status),
    {
        match self.find_entry(method, path, status) {
            Some(i) => self.entries[i].count,
            None => 0,
        }
    }

    /// How many duration samples the histogram of a label set holds: one
    /// per counted request.
    pub fn duration_count(&self, method: &str, path: &str, status: u16) -> (c: u64)
        requires
            self.wf(),
        ensures
            c == count_matching(self.history(), method@, path@, status),
    {
        match self.find_entry(method, path, status) {
            Some(i) => self.entries[i].durations.len() as u64,
            None => 0,
        }
    }

    /// The aggregates behind the snapshot, in first-observation order.
    pub closed spec fn entries_view(self) -> Seq<RouteMetric> {
        self.entries@
    }

    /// The pull-based text snapshot: two `name{labels} value` lines per
    /// aggregated label set, in first-observation order.
    pub fn render(&self) -> (r: String)
        requires
            self.wf(),
        ensures
            r@ == spec_render_entries(self.entries_view()),
    {
        let mut r = String::new();
        let mut i: usize = 0;
        let n = self.entries.len();
        proof {
            assert(self.entries@.take(0) =~= Seq::<RouteMetric>::empty());
            assert(r@ =~= spec_render_entries(self.entries@.take(0)));
        }
        while i < n
            invariant
                i <= n,
                n == self.entries@.len(),
                self.wf(),
                r@ == spec_render_entries(self.entries@.take(i as int)),
            decreases n - i,
        {
            let e = &self.entries[i];
            push_entry_lines(&mut r, e);
            proof {
                assert(self.entries@.take(i + 1).drop_last() =~= self.entries@.take(i as int));
                assert(self.entries@.take(i + 1).last() == self.entries@[i as int]);
            }
            i = i + 1;
        }
        proof {
            assert(self.entries@.take(n as int) =~= self.entries@);
        }
        r
    }
}

/// Append the two snapshot lines of one aggregate to `r`.
#[verifier::rlimit(50)]
fn push_entry_lines(r: &mut String, e: &RouteMetric)
    requires
        e.durations@.len() <= u64::MAX,
    ensures
        final(r)@ == old(r)@ + spec_entry_lines(*e),
{
    let ghost base = old(r)@;
    r.append("http_requests_total{method=\"");
    let ghost acc = "http_requests_total{method=\""@;
    proof {
        assert(r@ =~= base + acc);
    }
    r.append(e.method.as_str());
    proof {
        vstd::seq_lib::lemma_concat_associative(base, acc, e.method@);
        assert(r@ == base + (acc + e.method@));
    }
    let ghost acc = acc + e.method@;
    r.append("\",path=\"");
    proof {
        vstd::seq_lib::lemma_concat_associative(base, acc, "\",path=\""@);
        assert(r@ == base + (acc + "\",path=\""@));
    }
    let ghost acc = acc + "\",path=\""@;
    r.append(e.path.as_str());
    proof {
        vstd::seq_lib::lemma_concat_associative(base, acc, e.path@);
        assert(r@ == base + (acc + e.path@));
    }
    let ghost acc = acc + e.path@;
    r.append("\",status=\"");
    proof {
        vstd::seq_lib::lemma_concat_associative(base, acc, "\",status=\""@);
        assert(r@ == base + (acc + "\",status=\""@));
    }
    let ghost acc = acc + "\",status=\""@;
    push_decimal(r, e.status as u64);
    proof {
        vstd::seq_lib::lemma_concat_associative(base, acc, spec_decimal(e.status as nat));
        assert(r@ == base + (acc + spec_decimal(e.status as nat)));
    }
    let ghost acc = acc + spec_decimal(e.status as nat);
    r.append("\"} ");
    proof {
        vstd::seq_lib::lemma_concat_associative(base, acc, "\"} "@);
        assert(r@ == base + (acc + "\"} "@));
    }
    let ghost acc = acc + "\"} "@;
    push_decimal(r, e.count);
    proof {
        vstd::seq_lib::lemma_concat_associative(base, acc, spec_decimal(e.count as nat));
        assert(r@ == base + (acc + spec_decimal(e.count as nat)));
    }
    let ghost acc = acc + spec_decimal(e.count as nat);
    r.append("\n");
    proof {
        vstd::seq_lib::lemma_concat_associative(base, acc, "\n"@);
        assert(r@ == base + (acc + "\n"@));
    }
    let ghost acc = acc + "\n"@;
    r.append("http_requests_duration_micros_count{method=\"");
    proof {
        vstd::seq_lib::lemma_concat_associative(base, acc, "http_requests_duration_micros_count{method=\""@);
        assert(r@ == base + (acc + "http_requests_duration_micros_count{method=\""@));
    }
    let ghost acc = acc + "http_requests_duration_micros_count{method=\""@;
    r.append(e.method.as_str());
    proof {
        vstd::seq_lib::lemma_concat_associative(base, acc, e.method@);
        assert(r@ == base + (acc + e.method@));
    }
    let ghost acc = acc + e.method@;
    r.append("\",path=\"");
    proof {
        vstd::seq_lib::lemma_concat_associative(base, acc, "\",path=\""@);
        assert(r@ == base + (acc + "\",path=\""@));
    }
    let ghost acc = acc + "\",path=\""@;
    r.append(e.path.as_str());
    proof {
        vstd::seq_lib::lemma_concat_associative(base, acc, e.path@);
        assert(r@ == base + (acc + e.path@));
    }
    let ghost acc = acc + e.path@;
    r.append("\",status=\"");
    proof {
        vstd::seq_lib::lemma_concat_associative(base, acc, "\",status=\""@);
        assert(r@ == base + (acc + "\",status=\""@));
    }
    let ghost acc = acc + "\",status=\""@;
    push_decimal(r, e.status as u64);
    proof {
        vstd::seq_lib::lemma_concat_associative(base, acc, spec_decimal(e.status as nat));
        assert(r@ == base + (acc + spec_decimal(e.status as nat)));
    }
    let ghost acc = acc + spec_decimal(e.status as nat);
    r.append("\"} ");
    proof {
        vstd::seq_lib::lemma_concat_associative(base, acc, "\"} "@);
        assert(r@ == base + (acc + "\"} "@));
    }
    let ghost acc = acc + "\"} "@;
    let dn = e.durations.len() as u64;
    push_decimal(r, dn);
    proof {
        vstd::seq_lib::lemma_concat_associative(base, acc, spec_decimal(e.durations@.len() as nat));
        assert(r@ == base + (acc + spec_decimal(e.durations@.len() as nat)));
    }
    let ghost acc = acc + spec_decimal(e.durations@.len() as nat);
    r.append("\n");
    proof {
        vstd::seq_lib::lemma_concat_associative(base, acc, "\n"@);
        assert(r@ == base + (acc + "\n"@));
    }
    let ghost acc = acc + "\n"@;
    proof {
        assert(acc == spec_entry_lines(*e));
    }
}

/// A vector holding one value.
fn make_singleton(value: u64) -> (v: Vec<u64>)
    ensures
        v@ =~= seq![value],
{
    let mut v: Vec<u64> = Vec::new();
    v.push(value);
    v
}

/// Counters are monotone: a new observation never lowers any label
/// set's count, and raises exactly its own label set's count, by one.
pub proof fn lemma_counter_monotone(
    history: Seq<Observation>,
    o: Observation,
    method: Seq<char>,
    path: Seq<char>,
    status: u16,
)
    ensures
        count_matching(history.push(o), method, path, status) >= count_matching(
            history,
            method,
            path,
            status,
        ),
        count_matching(history.push(o), method, path, status) <= count_matching(
            history,
            method,
            path,
            status,
        ) + 1,
{
    lemma_count_matching_push(history, o, method, path, status);
}

/// The route label of a request: the matched route template, falling
/// back to the raw path when no route matched.
pub fn route_label(matched: Option<String>, raw_path: String) -> (r: String)
    ensures
        r@ == (match matched {
            Some(m) => m@,
            None => raw_path@,
        }),
{
    match matched {
        Some(m) => m,
        None => raw_path,
    }
}

} // verus!
