use vstd::prelude::*;

use crate::backend::{Call, CriterionKind, Handle};

verus! {

/// Search limits used when finding solutions (e.g., node, fail, restart, backtrack).
#[derive(Debug, Clone)]
pub struct Criterion {
    pub node_limit: Option<i64>,
    pub fail_limit: Option<i64>,
    pub restart_limit: Option<i64>,
    pub backtrack_limit: Option<i64>,
}

/// The entry of one limit in the list of counters: nothing when the limit is
/// not set.
pub open spec fn limit_entry(kind: CriterionKind, limit: Option<i64>) -> Seq<(CriterionKind, i64)> {
    match limit {
        Some(l) => seq![(kind, l)],
        None => Seq::empty(),
    }
}

/// The backend calls that create the counters of a list of limits, in order.
pub open spec fn counter_calls_of(entries: Seq<(CriterionKind, i64)>, model: Handle) -> Seq<Call> {
    entries.map_values(|e: (CriterionKind, i64)| Call::CriterionCounter { kind: e.0, model, limit: e.1 })
}

/// The place of a kind of limit in the order in which counters are created:
/// node, fail, restart, backtrack.
pub open spec fn kind_rank(kind: CriterionKind) -> int {
    match kind {
        CriterionKind::Node => 0,
        CriterionKind::Fail => 1,
        CriterionKind::Restart => 2,
        CriterionKind::Backtrack => 3,
    }
}

/// Whether the kinds of `entries` come in strictly increasing order, so that
/// no kind occurs twice.
pub open spec fn kinds_increasing(entries: Seq<(CriterionKind, i64)>) -> bool {
    forall|i: int, j: int|
        0 <= i < j < entries.len() ==> kind_rank(#[trigger] entries[i].0) < kind_rank(#[trigger] entries[j].0)
}

impl Criterion {
    /// The limits that are set, in the order node, fail, restart, backtrack.
    pub open spec fn counters(self) -> Seq<(CriterionKind, i64)> {
        limit_entry(CriterionKind::Node, self.node_limit) + limit_entry(CriterionKind::Fail, self.fail_limit)
            + limit_entry(CriterionKind::Restart, self.restart_limit) + limit_entry(
            CriterionKind::Backtrack,
            self.backtrack_limit,
        )
    }

    /// The limit of the given kind.
    pub open spec fn limit_of(self, kind: CriterionKind) -> Option<i64> {
        match kind {
            CriterionKind::Node => self.node_limit,
            CriterionKind::Fail => self.fail_limit,
            CriterionKind::Restart => self.restart_limit,
            CriterionKind::Backtrack => self.backtrack_limit,
        }
    }

    /// Whether every limit that is set is non-negative.
    pub open spec fn limits_valid(self) -> bool {
        &&& self.node_limit matches Some(l) ==> l >= 0
        &&& self.fail_limit matches Some(l) ==> l >= 0
        &&& self.restart_limit matches Some(l) ==> l >= 0
        &&& self.backtrack_limit matches Some(l) ==> l >= 0
    }

    /// Creates a new empty Criterion.
    pub fn new() -> (c: Self)
        ensures
            c.node_limit is None,
            c.fail_limit is None,
            c.restart_limit is None,
            c.backtrack_limit is None,
    {
        Criterion::default()
    }

    /// Sets a node limit for the criterion.
    pub fn with_node_limit(self, limit: i64) -> (c: Self)
        ensures
            c.node_limit == Some(limit),
            c.fail_limit == self.fail_limit,
            c.restart_limit == self.restart_limit,
            c.backtrack_limit == self.backtrack_limit,
    {
        Criterion { node_limit: Some(limit), ..self }
    }

    /// Sets a fail limit for the criterion.
    pub fn with_fail_limit(self, limit: i64) -> (c: Self)
        ensures
            c.node_limit == self.node_limit,
            c.fail_limit == Some(limit),
            c.restart_limit == self.restart_limit,
            c.backtrack_limit == self.backtrack_limit,
    {
        Criterion { fail_limit: Some(limit), ..self }
    }

    /// Sets a restart limit for the criterion.
    pub fn with_restart_limit(self, limit: i64) -> (c: Self)
        ensures
            c.node_limit == self.node_limit,
            c.fail_limit == self.fail_limit,
            c.restart_limit == Some(limit),
            c.backtrack_limit == self.backtrack_limit,
    {
        Criterion { restart_limit: Some(limit), ..self }
    }

    /// Sets a backtrack limit for the criterion.
    pub fn with_backtrack_limit(self, limit: i64) -> (c: Self)
        ensures
            c.node_limit == self.node_limit,
            c.fail_limit == self.fail_limit,
            c.restart_limit == self.restart_limit,
            c.backtrack_limit == Some(limit),
    {
        Criterion { backtrack_limit: Some(limit), ..self }
    }

    /// The backend calls that create one counter per limit that is set, in
    /// the order node, fail, restart, backtrack, each bounded by its limit.
    /// The array of these counters is what the search is given.  A negative
    /// limit is refused before anything is sent: `requires` leaves it out.
    pub fn counter_calls(&self, model: Handle) -> (calls: Vec<Call>)
        requires
            self.limits_valid(),
        ensures
            calls@ == counter_calls_of(self.counters(), model),
    {
        let mut calls: Vec<Call> = Vec::new();
        let ghost e1 = limit_entry(CriterionKind::Node, self.node_limit);
        let ghost e2 = limit_entry(CriterionKind::Fail, self.fail_limit);
        let ghost e3 = limit_entry(CriterionKind::Restart, self.restart_limit);
        let ghost e4 = limit_entry(CriterionKind::Backtrack, self.backtrack_limit);
        if let Some(l) = self.node_limit {
            calls.push(Call::CriterionCounter { kind: CriterionKind::Node, model, limit: l });
        }
        assert(calls@ =~= counter_calls_of(e1, model));
        if let Some(l) = self.fail_limit {
            calls.push(Call::CriterionCounter { kind: CriterionKind::Fail, model, limit: l });
        }
        assert(calls@ =~= counter_calls_of(e1 + e2, model));
        if let Some(l) = self.restart_limit {
            calls.push(Call::CriterionCounter { kind: CriterionKind::Restart, model, limit: l });
        }
        assert(calls@ =~= counter_calls_of(e1 + e2 + e3, model));
        if let Some(l) = self.backtrack_limit {
            calls.push(Call::CriterionCounter { kind: CriterionKind::Backtrack, model, limit: l });
        }
        assert(calls@ =~= counter_calls_of(e1 + e2 + e3 + e4, model));
        calls
    }
}

proof fn lemma_concat_contains(a: Seq<(CriterionKind, i64)>, b: Seq<(CriterionKind, i64)>, x: (CriterionKind, i64))
    ensures
        (a + b).contains(x) <==> (a.contains(x) || b.contains(x)),
{
    if (a + b).contains(x) {
        let i = choose|i: int| 0 <= i < (a + b).len() && (a + b)[i] == x;
        if i < a.len() {
            assert(a[i] == x);
        } else {
            assert(b[i - a.len()] == x);
        }
    }
    if a.contains(x) {
        let i = choose|i: int| 0 <= i < a.len() && a[i] == x;
        assert((a + b)[i] == x);
    }
    if b.contains(x) {
        let i = choose|i: int| 0 <= i < b.len() && b[i] == x;
        assert((a + b)[i + a.len()] == x);
    }
}

proof fn lemma_entry_contains(kind: CriterionKind, limit: Option<i64>, x: (CriterionKind, i64))
    ensures
        limit_entry(kind, limit).contains(x) <==> (x.0 == kind && limit == Some(x.1)),
        kinds_increasing(limit_entry(kind, limit)),
        forall|i: int| 0 <= i < limit_entry(kind, limit).len() ==> #[trigger] limit_entry(kind, limit)[i].0 == kind,
{
    if let Some(l) = limit {
        assert(limit_entry(kind, limit)[0] == (kind, l));
    }
}

proof fn lemma_concat_increasing(a: Seq<(CriterionKind, i64)>, b: Seq<(CriterionKind, i64)>, r: int)
    requires
        kinds_increasing(a),
        kinds_increasing(b),
        forall|i: int| 0 <= i < a.len() ==> kind_rank(#[trigger] a[i].0) < r,
        forall|i: int| 0 <= i < b.len() ==> kind_rank(#[trigger] b[i].0) >= r,
    ensures
        kinds_increasing(a + b),
{
    let s = a + b;
    assert forall|i: int, j: int| 0 <= i < j < s.len() implies kind_rank(#[trigger] s[i].0) < kind_rank(
        #[trigger] s[j].0,
    ) by {
        if j < a.len() {
            assert(s[i] == a[i] && s[j] == a[j]);
        } else if i >= a.len() {
            assert(s[i] == b[i - a.len()] && s[j] == b[j - a.len()]);
        } else {
            assert(s[i] == a[i] && s[j] == b[j - a.len()]);
        }
    }
}

/// The counters of a criterion are exactly its limits that are set: a limit
/// of each kind is among them, with its value, if and only if the criterion
/// sets that limit, whatever the other limits are; and they come in the order
/// node, fail, restart, backtrack, so no kind occurs twice.
pub proof fn lemma_counters_exact(c: Criterion)
    ensures
        forall|kind: CriterionKind, l: i64| #[trigger] c.counters().contains((kind, l)) <==> c.limit_of(kind) == Some(l),
        kinds_increasing(c.counters()),
{
    let e1 = limit_entry(CriterionKind::Node, c.node_limit);
    let e2 = limit_entry(CriterionKind::Fail, c.fail_limit);
    let e3 = limit_entry(CriterionKind::Restart, c.restart_limit);
    let e4 = limit_entry(CriterionKind::Backtrack, c.backtrack_limit);
    assert forall|kind: CriterionKind, l: i64| #[trigger] c.counters().contains((kind, l)) <==> c.limit_of(kind) == Some(l) by {
        let x = (kind, l);
        lemma_concat_contains(e1 + e2 + e3, e4, x);
        lemma_concat_contains(e1 + e2, e3, x);
        lemma_concat_contains(e1, e2, x);
        lemma_entry_contains(CriterionKind::Node, c.node_limit, x);
        lemma_entry_contains(CriterionKind::Fail, c.fail_limit, x);
        lemma_entry_contains(CriterionKind::Restart, c.restart_limit, x);
        lemma_entry_contains(CriterionKind::Backtrack, c.backtrack_limit, x);
    }
    let x = (CriterionKind::Node, 0i64);
    lemma_entry_contains(CriterionKind::Node, c.node_limit, x);
    lemma_entry_contains(CriterionKind::Fail, c.fail_limit, x);
    lemma_entry_contains(CriterionKind::Restart, c.restart_limit, x);
    lemma_entry_contains(CriterionKind::Backtrack, c.backtrack_limit, x);
    lemma_concat_increasing(e1, e2, 1);
    assert forall|i: int| 0 <= i < (e1 + e2).len() implies kind_rank(#[trigger] (e1 + e2)[i].0) < 2 by {
        if i < e1.len() {
            assert((e1 + e2)[i] == e1[i]);
        } else {
            assert((e1 + e2)[i] == e2[i - e1.len()]);
        }
    }
    lemma_concat_increasing(e1 + e2, e3, 2);
    assert forall|i: int| 0 <= i < (e1 + e2 + e3).len() implies kind_rank(#[trigger] (e1 + e2 + e3)[i].0) < 3 by {
        if i < (e1 + e2).len() {
            assert((e1 + e2 + e3)[i] == (e1 + e2)[i]);
        } else {
            assert((e1 + e2 + e3)[i] == e3[i - (e1 + e2).len()]);
        }
    }
    lemma_concat_increasing(e1 + e2 + e3, e4, 3);
}

/// The counter calls of a criterion create, on the given model, one counter
/// for each limit that is set, bounded by that limit, and nothing else.
pub proof fn lemma_counter_calls_exact(c: Criterion, model: Handle)
    ensures
        forall|kind: CriterionKind, l: i64|
            #[trigger] counter_calls_of(c.counters(), model).contains(
                Call::CriterionCounter { kind, model, limit: l },
            ) <==> c.limit_of(kind) == Some(l),
        forall|i: int|
            0 <= i < counter_calls_of(c.counters(), model).len() ==> (#[trigger] counter_calls_of(
                c.counters(),
                model,
            )[i] matches Call::CriterionCounter { kind, model: m, limit } && m == model && c.limit_of(kind)
                == Some(limit)),
{
    lemma_counters_exact(c);
    let e = c.counters();
    let calls = counter_calls_of(e, model);
    assert forall|kind: CriterionKind, l: i64|
        #[trigger] calls.contains(Call::CriterionCounter { kind, model, limit: l }) <==> c.limit_of(kind) == Some(
            l,
        ) by {
        let target = Call::CriterionCounter { kind, model, limit: l };
        if calls.contains(target) {
            let i = choose|i: int| 0 <= i < calls.len() && calls[i] == target;
            assert(e[i] == (kind, l));
            assert(e.contains((kind, l)));
        }
        if c.limit_of(kind) == Some(l) {
            assert(e.contains((kind, l)));
            let i = choose|i: int| 0 <= i < e.len() && e[i] == (kind, l);
            assert(calls[i] == target);
        }
    }
    assert forall|i: int| 0 <= i < calls.len() implies (#[trigger] calls[i] matches Call::CriterionCounter {
        kind,
        model: m,
        limit,
    } && m == model && c.limit_of(kind) == Some(limit)) by {
        assert(e.contains(e[i]));
    }
}

impl Default for Criterion {
    fn default() -> (c: Self)
        ensures
            c.node_limit is None,
            c.fail_limit is None,
            c.restart_limit is None,
            c.backtrack_limit is None,
    {
        Criterion { node_limit: None, fail_limit: None, restart_limit: None, backtrack_limit: None }
    }
}

} // verus!
