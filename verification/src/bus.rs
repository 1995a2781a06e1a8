//! Named control registry with a last-value cache and modulation chains.
//!
//! A control is a string id. Registering a control stores an initial
//! value in the cache; triggering an id records the new value, reports an
//! invocation for every registered control reached through the modulation
//! graph, and leaves everything else untouched. The caller owns the actual
//! callbacks and replays the returned invocation list against them, so the
//! bus itself stays free of side effects.
//!
//! Propagation walks the modulation graph depth first, targets in the
//! order they were recorded. Each modulation entry fans out at most once
//! per trigger, so a cycle in the graph cannot recurse without bound; on
//! an acyclic graph every transitive target is still reached exactly as
//! if the traversal had been fully recursive. The invocation list a
//! trigger returns is pinned exactly: it is the walk's visiting order,
//! restricted to registered ids, so both the order and the number of
//! callback runs are part of the contract.

use vstd::prelude::*;

use crate::ProtocolError;

verus! {

/// The last cached value for `id` under first-match lookup, or `None` if
/// the cache holds no entry for it.
pub open spec fn lookup_cache(s: Seq<(String, i64)>, id: Seq<char>) -> Option<i64>
    decreases s.len(),
{
    if s.len() == 0 {
        None
    } else if s[0].0@ == id {
        Some(s[0].1)
    } else {
        lookup_cache(s.drop_first(), id)
    }
}

/// The modulation targets recorded for `id`: the target list of the first
/// entry keyed by `id`, or the empty sequence if there is none.
pub open spec fn targets_of(m: Seq<(Seq<char>, Seq<Seq<char>>)>, id: Seq<char>) -> Seq<Seq<char>>
    decreases m.len(),
{
    if m.len() == 0 {
        Seq::empty()
    } else if m[0].0 == id {
        m[0].1
    } else {
        targets_of(m.drop_first(), id)
    }
}

/// One modulation step: `b` stands among the recorded targets of `a`.
pub open spec fn modulation_edge(
    m: Seq<(Seq<char>, Seq<Seq<char>>)>,
    a: Seq<char>,
    b: Seq<char>,
) -> bool {
    targets_of(m, a).contains(b)
}

/// `p` is a walk through the modulation graph: nonempty, with an edge
/// between each pair of neighbours.
pub open spec fn is_modulation_path(
    m: Seq<(Seq<char>, Seq<Seq<char>>)>,
    p: Seq<Seq<char>>,
) -> bool {
    &&& p.len() >= 1
    &&& forall|i: int| 0 <= i < p.len() - 1 ==> modulation_edge(m, #[trigger] p[i], p[i + 1])
}

/// `b` is reachable from `a` through zero or more modulation edges.
pub open spec fn reaches(m: Seq<(Seq<char>, Seq<Seq<char>>)>, a: Seq<char>, b: Seq<char>) -> bool {
    exists|p: Seq<Seq<char>>| is_modulation_path(m, p) && p.first() == a && p.last() == b
}

/// Every id reaches itself: the one-element walk.
pub proof fn lemma_reaches_self(m: Seq<(Seq<char>, Seq<Seq<char>>)>, a: Seq<char>)
    ensures
        reaches(m, a, a),
{
    let p = seq![a];
    assert(is_modulation_path(m, p) && p.first() == a && p.last() == a);
}

/// A recorded modulation edge is a reachability witness on its own, so a
/// single `modulate(a, b)` suffices for a trigger on `a` to reach `b`.
pub proof fn lemma_modulation_edge_reaches(
    m: Seq<(Seq<char>, Seq<Seq<char>>)>,
    a: Seq<char>,
    b: Seq<char>,
)
    requires
        modulation_edge(m, a, b),
    ensures
        reaches(m, a, b),
{
    let p = seq![a, b];
    assert(is_modulation_path(m, p) && p.first() == a && p.last() == b);
}

/// Reachability extends across one more edge.
pub proof fn lemma_reaches_step(
    m: Seq<(Seq<char>, Seq<Seq<char>>)>,
    a: Seq<char>,
    b: Seq<char>,
    c: Seq<char>,
)
    requires
        reaches(m, a, b),
        modulation_edge(m, b, c),
    ensures
        reaches(m, a, c),
{
    let p = choose|p: Seq<Seq<char>>| is_modulation_path(m, p) && p.first() == a && p.last() == b;
    let q = p.push(c);
    assert(q.last() == c);
    assert(q.first() == a);
    assert forall|i: int| 0 <= i < q.len() - 1 implies modulation_edge(m, #[trigger] q[i], q[i + 1]) by {
        if i < p.len() - 1 {
            assert(modulation_edge(m, p[i], p[i + 1]));
        } else {
            assert(q[i] == p.last());
        }
    }
    assert(is_modulation_path(m, q) && q.first() == a && q.last() == c);
}

/// Walks cannot leave a set that contains their start and is closed under
/// modulation edges.
proof fn lemma_path_stays_in_closed_set(
    m: Seq<(Seq<char>, Seq<Seq<char>>)>,
    done: Set<Seq<char>>,
    p: Seq<Seq<char>>,
)
    requires
        is_modulation_path(m, p),
        done.contains(p.first()),
        forall|u: Seq<char>, t: Seq<char>|
            done.contains(u) && modulation_edge(m, u, t) ==> done.contains(t),
    ensures
        done.contains(p.last()),
    decreases p.len(),
{
    if p.len() > 1 {
        assert(modulation_edge(m, p[0], p[1]));
        let q = p.drop_first();
        assert(q.first() == p[1]);
        assert forall|i: int| 0 <= i < q.len() - 1 implies modulation_edge(m, #[trigger] q[i], q[i + 1]) by {
            assert(modulation_edge(m, p[i + 1], p[i + 2]));
        }
        lemma_path_stays_in_closed_set(m, done, q);
    }
}

/// Whether any entry of an id stack views to `t`.
spec fn stack_has(st: Seq<String>, t: Seq<char>) -> bool {
    exists|w: int| 0 <= w < st.len() && (#[trigger] st[w])@ == t
}

/// Number of entries still unexpanded in a visited map.
spec fn count_false(s: Seq<bool>) -> int
    decreases s.len(),
{
    if s.len() == 0 {
        0int
    } else {
        count_false(s.drop_last()) + if s.last() {
            0int
        } else {
            1int
        }
    }
}

proof fn lemma_count_false_nonneg(s: Seq<bool>)
    ensures
        count_false(s) >= 0,
    decreases s.len(),
{
    if s.len() > 0 {
        lemma_count_false_nonneg(s.drop_last());
    }
}

proof fn lemma_count_false_all(s: Seq<bool>)
    requires
        forall|j: int| 0 <= j < s.len() ==> !s[j],
    ensures
        count_false(s) == s.len(),
    decreases s.len(),
{
    if s.len() > 0 {
        lemma_count_false_all(s.drop_last());
    }
}

proof fn lemma_count_false_update(s: Seq<bool>, j: int)
    requires
        0 <= j < s.len(),
        !s[j],
    ensures
        count_false(s) >= 1,
        count_false(s.update(j, true)) == count_false(s) - 1,
    decreases s.len(),
{
    lemma_count_false_nonneg(s.drop_last());
    if j == s.len() - 1 {
        assert(s.update(j, true).drop_last() =~= s.drop_last());
    } else {
        lemma_count_false_update(s.drop_last(), j);
        assert(s.update(j, true).drop_last() =~= s.drop_last().update(j, true));
        lemma_count_false_nonneg(s.drop_last().update(j, true));
    }
}

/// First-match lookup skips over a prefix without a matching key.
proof fn lemma_lookup_cache_skip(s: Seq<(String, i64)>, i: int, id: Seq<char>)
    requires
        0 <= i <= s.len(),
        forall|j: int| 0 <= j < i ==> s[j].0@ != id,
    ensures
        lookup_cache(s, id) == lookup_cache(s.skip(i), id),
    decreases i,
{
    if i > 0 {
        lemma_lookup_cache_skip(s.drop_first(), i - 1, id);
        assert(s.drop_first().skip(i - 1) =~= s.skip(i));
    } else {
        assert(s.skip(0) =~= s);
    }
}

/// Replacing the first matching entry rewrites that key's cached value
/// and leaves every other lookup unchanged.
proof fn lemma_lookup_cache_update(s: Seq<(String, i64)>, i: int, x: (String, i64), t: Seq<char>)
    requires
        0 <= i < s.len(),
        x.0@ == s[i].0@,
        forall|j: int| 0 <= j < i ==> s[j].0@ != x.0@,
    ensures
        lookup_cache(s.update(i, x), t) == if t == x.0@ {
            Some(x.1)
        } else {
            lookup_cache(s, t)
        },
    decreases i,
{
    let s2 = s.update(i, x);
    if i == 0 {
        if t != x.0@ {
            assert(s2.drop_first() =~= s.drop_first());
        }
    } else {
        assert(s2[0] == s[0]);
        if s[0].0@ != t {
            assert(s2.drop_first() =~= s.drop_first().update(i - 1, x));
            lemma_lookup_cache_update(s.drop_first(), i - 1, x, t);
        }
    }
}

/// Appending an entry under a key absent from the cache adds that key's
/// value and leaves every other lookup unchanged.
proof fn lemma_lookup_cache_push(s: Seq<(String, i64)>, x: (String, i64), t: Seq<char>)
    requires
        forall|j: int| 0 <= j < s.len() ==> s[j].0@ != x.0@,
    ensures
        lookup_cache(s.push(x), t) == if t == x.0@ {
            Some(x.1)
        } else {
            lookup_cache(s, t)
        },
    decreases s.len(),
{
    if s.len() == 0 {
        assert(s.push(x)[0] == x);
        if t != x.0@ {
            assert(lookup_cache(s.push(x).drop_first(), t) == lookup_cache(s, t)) by {
                assert(s.push(x).drop_first() =~= s);
            }
        }
    } else {
        assert(s.push(x)[0] == s[0]);
        if s[0].0@ != t {
            assert(s.push(x).drop_first() =~= s.drop_first().push(x));
            lemma_lookup_cache_push(s.drop_first(), x, t);
        }
    }
}

/// Target lookup skips over a prefix without a matching key.
proof fn lemma_targets_skip(m: Seq<(Seq<char>, Seq<Seq<char>>)>, i: int, id: Seq<char>)
    requires
        0 <= i <= m.len(),
        forall|j: int| 0 <= j < i ==> m[j].0 != id,
    ensures
        targets_of(m, id) == targets_of(m.skip(i), id),
    decreases i,
{
    if i > 0 {
        lemma_targets_skip(m.drop_first(), i - 1, id);
        assert(m.drop_first().skip(i - 1) =~= m.skip(i));
    } else {
        assert(m.skip(0) =~= m);
    }
}

/// Replacing the first entry keyed by `x.0` rewrites that key's target
/// list and leaves every other key's targets unchanged.
proof fn lemma_targets_update(
    m: Seq<(Seq<char>, Seq<Seq<char>>)>,
    i: int,
    x: (Seq<char>, Seq<Seq<char>>),
    t: Seq<char>,
)
    requires
        0 <= i < m.len(),
        x.0 == m[i].0,
        forall|j: int| 0 <= j < i ==> m[j].0 != x.0,
    ensures
        targets_of(m.update(i, x), t) == if t == x.0 {
            x.1
        } else {
            targets_of(m, t)
        },
    decreases i,
{
    let m2 = m.update(i, x);
    if i == 0 {
        if t != x.0 {
            assert(m2.drop_first() =~= m.drop_first());
        }
    } else {
        assert(m2[0] == m[0]);
        if m[0].0 != t {
            assert(m2.drop_first() =~= m.drop_first().update(i - 1, x));
            lemma_targets_update(m.drop_first(), i - 1, x, t);
        }
    }
}

/// Appending an entry under a key absent from the list adds that key's
/// targets and leaves every other key's targets unchanged.
proof fn lemma_targets_push(
    m: Seq<(Seq<char>, Seq<Seq<char>>)>,
    x: (Seq<char>, Seq<Seq<char>>),
    t: Seq<char>,
)
    requires
        forall|j: int| 0 <= j < m.len() ==> m[j].0 != x.0,
    ensures
        targets_of(m.push(x), t) == if t == x.0 {
            x.1
        } else {
            targets_of(m, t)
        },
    decreases m.len(),
{
    if m.len() == 0 {
        assert(m.push(x)[0] == x);
        if t != x.0 {
            assert(m.push(x).drop_first() =~= m);
        }
    } else {
        assert(m.push(x)[0] == m[0]);
        if m[0].0 != t {
            assert(m.push(x).drop_first() =~= m.drop_first().push(x));
            lemma_targets_push(m.drop_first(), x, t);
        }
    }
}


/// Index of the first modulation entry keyed by `id`, or the entry count
/// when no key matches.
pub open spec fn key_index(m: Seq<(Seq<char>, Seq<Seq<char>>)>, id: Seq<char>) -> int
    decreases m.len(),
{
    if m.len() == 0 {
        0int
    } else if m[0].0 == id {
        0int
    } else {
        1 + key_index(m.drop_first(), id)
    }
}

proof fn lemma_key_index_bounds(m: Seq<(Seq<char>, Seq<Seq<char>>)>, id: Seq<char>)
    ensures
        0 <= key_index(m, id) <= m.len(),
    decreases m.len(),
{
    if m.len() > 0 && m[0].0 != id {
        lemma_key_index_bounds(m.drop_first(), id);
    }
}

/// The first matching position determines `key_index`.
proof fn lemma_key_index_found(m: Seq<(Seq<char>, Seq<Seq<char>>)>, j: int, id: Seq<char>)
    requires
        0 <= j < m.len(),
        m[j].0 == id,
        forall|k: int| 0 <= k < j ==> (#[trigger] m[k]).0 != id,
    ensures
        key_index(m, id) == j,
    decreases j,
{
    if j > 0 {
        assert(m.drop_first()[j - 1] == m[j]);
        assert forall|k: int| 0 <= k < j - 1 implies (#[trigger] m.drop_first()[k]).0 != id by {
            assert(m.drop_first()[k] == m[k + 1]);
        }
        lemma_key_index_found(m.drop_first(), j - 1, id);
    }
}

/// Without a matching key, `key_index` is the entry count.
proof fn lemma_key_index_absent(m: Seq<(Seq<char>, Seq<Seq<char>>)>, id: Seq<char>)
    requires
        forall|k: int| 0 <= k < m.len() ==> (#[trigger] m[k]).0 != id,
    ensures
        key_index(m, id) == m.len(),
    decreases m.len(),
{
    if m.len() > 0 {
        assert forall|k: int| 0 <= k < m.len() - 1 implies (#[trigger] m.drop_first()[k]).0
            != id by {
            assert(m.drop_first()[k] == m[k + 1]);
        }
        lemma_key_index_absent(m.drop_first(), id);
    }
}

/// The exact visiting order of a trigger walk over the stack it still has
/// to unwind: pop the top, visit it, and, if its modulation entry has not
/// fanned out during this walk yet, push its targets so that they pop in
/// recorded order.
pub open spec fn visit_order(
    m: Seq<(Seq<char>, Seq<Seq<char>>)>,
    stack: Seq<Seq<char>>,
    expanded: Set<int>,
) -> Seq<Seq<char>>
    decreases m.len() - expanded.len(), stack.len(),
        when expanded.finite() && (forall|j: int| expanded.contains(j) ==> 0 <= j < m.len())
        via visit_order_decreases
{
    if stack.len() == 0 {
        Seq::empty()
    } else {
        let cur = stack.last();
        let rest = stack.drop_last();
        let j = key_index(m, cur);
        if j < m.len() && !expanded.contains(j) {
            seq![cur] + visit_order(m, rest + m[j].1.reverse(), expanded.insert(j))
        } else {
            seq![cur] + visit_order(m, rest, expanded)
        }
    }
}

#[via_fn]
proof fn visit_order_decreases(
    m: Seq<(Seq<char>, Seq<Seq<char>>)>,
    stack: Seq<Seq<char>>,
    expanded: Set<int>,
) {
    if stack.len() != 0 {
        let j = key_index(m, stack.last());
        lemma_key_index_bounds(m, stack.last());
        if j < m.len() && !expanded.contains(j) {
            let grown = expanded.insert(j);
            let range = vstd::set_lib::set_int_range(0, m.len() as int);
            vstd::set_lib::lemma_int_range(0, m.len() as int);
            assert(grown.subset_of(range));
            vstd::set_lib::lemma_len_subset(grown, range);
        }
    }
}

/// Every id a trigger on `root` visits, in order: depth first from the
/// root, each modulation entry fanning out at most once per trigger.
pub open spec fn trigger_visits(m: Seq<(Seq<char>, Seq<Seq<char>>)>, root: Seq<char>) -> Seq<
    Seq<char>,
> {
    visit_order(m, seq![root], Set::empty())
}

/// A trigger walk always visits the triggered id itself first, so the
/// root's own callback is the first invocation a trigger reports when
/// the root is registered.
pub proof fn lemma_trigger_visits_root_first(
    m: Seq<(Seq<char>, Seq<Seq<char>>)>,
    root: Seq<char>,
)
    ensures
        trigger_visits(m, root).len() >= 1,
        trigger_visits(m, root).first() == root,
{
    let stack = seq![root];
    assert(stack.last() == root);
    lemma_key_index_bounds(m, root);
}

/// The views of a stack of ids, in stack order.
pub open spec fn id_views(st: Seq<String>) -> Seq<Seq<char>> {
    st.map_values(|s: String| s@)
}

/// The control ids of an invocation list, in order.
pub open spec fn invocation_ids(out: Seq<(String, i64)>) -> Seq<Seq<char>> {
    out.map_values(|p: (String, i64)| p.0@)
}

/// The subsequence of `ts` whose ids are registered on `b`.
pub open spec fn registered_only(b: EventBus, ts: Seq<Seq<char>>) -> Seq<Seq<char>> {
    ts.filter(|t: Seq<char>| b.is_registered(t))
}

proof fn lemma_id_views_push(st: Seq<String>, s: String)
    ensures
        id_views(st.push(s)) == id_views(st).push(s@),
{
    assert(id_views(st.push(s)) =~= id_views(st).push(s@));
}

proof fn lemma_invocation_ids_push(out: Seq<(String, i64)>, p: (String, i64))
    ensures
        invocation_ids(out.push(p)) == invocation_ids(out).push(p.0@),
{
    assert(invocation_ids(out.push(p)) =~= invocation_ids(out).push(p.0@));
}

/// Filtering for registered ids commutes with appending one id.
proof fn lemma_registered_only_push(b: EventBus, ts: Seq<Seq<char>>, t: Seq<char>)
    ensures
        registered_only(b, ts.push(t)) == if b.is_registered(t) {
            registered_only(b, ts).push(t)
        } else {
            registered_only(b, ts)
        },
{
    let all = ts.push(t);
    assert(all.drop_last() =~= ts);
    assert(all.last() == t);
    assert(all.len() == ts.len() + 1);
    assert(registered_only(b, all) == if b.is_registered(t) {
        registered_only(b, ts).push(t)
    } else {
        registered_only(b, ts)
    }) by {
        reveal_with_fuel(Seq::filter, 2);
    }
}

/// Unfolds one expanding step of the walk.
proof fn lemma_visit_step_expand(
    m: Seq<(Seq<char>, Seq<Seq<char>>)>,
    stack: Seq<Seq<char>>,
    expanded: Set<int>,
    j: int,
)
    requires
        expanded.finite(),
        forall|k: int| expanded.contains(k) ==> 0 <= k < m.len(),
        stack.len() >= 1,
        key_index(m, stack.last()) == j,
        0 <= j < m.len(),
        !expanded.contains(j),
    ensures
        visit_order(m, stack, expanded) == seq![stack.last()] + visit_order(
            m,
            stack.drop_last() + m[j].1.reverse(),
            expanded.insert(j),
        ),
{
}

/// Unfolds one non-expanding step of the walk.
proof fn lemma_visit_step_skip(
    m: Seq<(Seq<char>, Seq<Seq<char>>)>,
    stack: Seq<Seq<char>>,
    expanded: Set<int>,
)
    requires
        expanded.finite(),
        forall|k: int| expanded.contains(k) ==> 0 <= k < m.len(),
        stack.len() >= 1,
        key_index(m, stack.last()) >= m.len() || expanded.contains(key_index(m, stack.last())),
    ensures
        visit_order(m, stack, expanded) == seq![stack.last()] + visit_order(
            m,
            stack.drop_last(),
            expanded,
        ),
{
}

/// Registry of named controls, their last values, and the modulation
/// edges between them.
pub struct EventBus {
    controls: Vec<String>,
    last_value: Vec<(String, i64)>,
    modulations: Vec<(String, Vec<String>)>,
}

impl EventBus {
    /// The ids registered so far, in registration order.
    pub closed spec fn registered_ids(self) -> Seq<Seq<char>> {
        self.controls@.map_values(|s: String| s@)
    }

    /// Whether `id` has been registered.
    pub open spec fn is_registered(self, id: Seq<char>) -> bool {
        self.registered_ids().contains(id)
    }

    /// The cached last value for `id`, if any.
    pub closed spec fn cached(self, id: Seq<char>) -> Option<i64> {
        lookup_cache(self.last_value@, id)
    }

    /// The value `value` reports for `id`: the cached value, or zero.
    pub open spec fn value_of(self, id: Seq<char>) -> i64 {
        match self.cached(id) {
            Some(v) => v,
            None => 0,
        }
    }

    /// The modulation graph: each entry's key with its target list.
    pub closed spec fn mods_view(self) -> Seq<(Seq<char>, Seq<Seq<char>>)> {
        self.modulations@.map_values(|p: (String, Vec<String>)| (p.0@, p.1@.map_values(|t: String| t@)))
    }

    /// A bus with no controls, no cached values, and no modulations.
    pub fn new() -> (b: EventBus)
        ensures
            b.registered_ids() == Seq::<Seq<char>>::empty(),
            forall|id: Seq<char>| b.cached(id) == None::<i64>,
            b.mods_view() == Seq::<(Seq<char>, Seq<Seq<char>>)>::empty(),
    {
        let b = EventBus { controls: Vec::new(), last_value: Vec::new(), modulations: Vec::new() };
        proof {
            assert(b.registered_ids() =~= Seq::<Seq<char>>::empty());
            assert(b.mods_view() =~= Seq::<(Seq<char>, Seq<Seq<char>>)>::empty());
        }
        b
    }

    /// Whether `id` is registered, by linear scan.
    fn has_control(&self, id: &String) -> (r: bool)
        ensures
            r == self.is_registered(id@),
    {
        let mut i: usize = 0;
        while i < self.controls.len()
            invariant
                0 <= i <= self.controls@.len(),
                forall|j: int| 0 <= j < i ==> self.controls@[j]@ != id@,
            decreases self.controls@.len() - i,
        {
            if id.eq(&self.controls[i]) {
                proof {
                    assert(self.registered_ids()[i as int] == id@);
                }
                return true;
            }
            i = i + 1;
        }
        proof {
            if self.is_registered(id@) {
                let w = choose|w: int| 0 <= w < self.registered_ids().len()
                    && self.registered_ids()[w] == id@;
                assert(self.controls@[w]@ != id@);
            }
        }
        false
    }

    /// Writes `value` for `id` into the cache, replacing the first entry
    /// under that key or appending a new one.
    fn cache_upsert(&mut self, id: &String, value: i64)
        ensures
            final(self).controls@ == old(self).controls@,
            final(self).modulations@ == old(self).modulations@,
            final(self).cached(id@) == Some(value),
            forall|t: Seq<char>| t != id@ ==> final(self).cached(t) == old(self).cached(t),
    {
        let mut i: usize = 0;
        while i < self.last_value.len()
            invariant
                *self == *old(self),
                0 <= i <= self.last_value@.len(),
                forall|j: int| 0 <= j < i ==> self.last_value@[j].0@ != id@,
            decreases self.last_value@.len() - i,
        {
            if id.eq(&self.last_value[i].0) {
                let ghost pre = self.last_value@;
                let _ = self.last_value.remove(i);
                self.last_value.insert(i, (id.clone(), value));
                proof {
                    assert(self.last_value@ =~= pre.update(i as int, ((*id), value)));
                    assert forall|t: Seq<char>| true implies lookup_cache(
                        pre.update(i as int, ((*id), value)),
                        t,
                    ) == if t == id@ {
                        Some(value)
                    } else {
                        lookup_cache(pre, t)
                    } by {
                        lemma_lookup_cache_update(pre, i as int, ((*id), value), t);
                    }
                }
                return ;
            }
            i = i + 1;
        }
        let ghost pre = self.last_value@;
        self.last_value.push((id.clone(), value));
        proof {
            assert forall|t: Seq<char>| true implies lookup_cache(pre.push(((*id), value)), t)
                == if t == id@ {
                Some(value)
            } else {
                lookup_cache(pre, t)
            } by {
                lemma_lookup_cache_push(pre, ((*id), value), t);
            }
        }
    }

    /// Registers a control id with an initial cached value. Registering
    /// an id twice is a caller bug: the second call refuses fatally and
    /// changes nothing. The caller keeps the callback that belongs to the
    /// id and feeds it from the invocation lists that `trigger` returns.
    pub fn control(&mut self, id: String, initial_value: i64) -> (r: Result<(), ProtocolError>)
        ensures
            old(self).is_registered(id@) ==> r == Err::<(), ProtocolError>(
                ProtocolError::DuplicateControl,
            ) && *final(self) == *old(self),
            !old(self).is_registered(id@) ==> {
                &&& r == Ok::<(), ProtocolError>(())
                &&& final(self).registered_ids() == old(self).registered_ids().push(id@)
                &&& final(self).cached(id@) == Some(initial_value)
                &&& forall|t: Seq<char>| t != id@ ==> final(self).cached(t) == old(self).cached(t)
                &&& final(self).mods_view() == old(self).mods_view()
            },
    {
        if self.has_control(&id) {
            return Err(ProtocolError::DuplicateControl);
        }
        self.cache_upsert(&id, initial_value);
        let ghost pre = self.controls@;
        self.controls.push(id);
        proof {
            assert(self.registered_ids() =~= pre.map_values(|s: String| s@).push(
                pre.push(id).last()@,
            ));
        }
        Ok(())
    }

    /// First modulation entry keyed by `id`, if any; its index comes with
    /// the fact that it carries exactly the targets `targets_of` reports.
    fn find_modulation(&self, id: &String) -> (r: Option<usize>)
        ensures
            match r {
                Some(j) => {
                    &&& j < self.mods_view().len()
                    &&& self.mods_view()[j as int].0 == id@
                    &&& forall|k: int| 0 <= k < j ==> (#[trigger] self.mods_view()[k]).0 != id@
                    &&& targets_of(self.mods_view(), id@) == self.mods_view()[j as int].1
                },
                None => {
                    &&& forall|k: int|
                        0 <= k < self.mods_view().len() ==> (#[trigger] self.mods_view()[k]).0
                            != id@
                    &&& targets_of(self.mods_view(), id@) == Seq::<Seq<char>>::empty()
                },
            },
    {
        let ghost m = self.mods_view();
        let mut i: usize = 0;
        while i < self.modulations.len()
            invariant
                m == self.mods_view(),
                m.len() == self.modulations@.len(),
                0 <= i <= m.len(),
                forall|j: int| 0 <= j < i ==> m[j].0 != id@,
            decreases m.len() - i,
        {
            if id.eq(&self.modulations[i].0) {
                proof {
                    assert(m[i as int].0 == id@);
                    lemma_targets_skip(m, i as int, id@);
                    assert(m.skip(i as int)[0] == m[i as int]);
                }
                return Some(i);
            }
            proof {
                assert(m[i as int].0 == self.modulations@[i as int].0@);
            }
            i = i + 1;
        }
        proof {
            lemma_targets_skip(m, m.len() as int, id@);
            assert(m.skip(m.len() as int) =~= Seq::<(Seq<char>, Seq<Seq<char>>)>::empty());
        }
        None
    }

    /// Records that triggering `from` also triggers `to`, appending `to`
    /// to `from`'s target list (the list is created on first use).
    /// Neither id needs to be registered.
    pub fn modulate(&mut self, from: String, to: String)
        ensures
            final(self).registered_ids() == old(self).registered_ids(),
            forall|t: Seq<char>| final(self).cached(t) == old(self).cached(t),
            targets_of(final(self).mods_view(), from@) == targets_of(old(self).mods_view(), from@).push(
                to@,
            ),
            forall|t: Seq<char>| t != from@ ==> targets_of(final(self).mods_view(), t) == targets_of(
                old(self).mods_view(),
                t,
            ),
    {
        let ghost m = self.mods_view();
        let pos = self.find_modulation(&from);
        match pos {
            Some(j) => {
                let mut entry = self.modulations.remove(j);
                entry.1.push(to);
                let ghost x = (entry.0@, entry.1@.map_values(|t: String| t@));
                self.modulations.insert(j, entry);
                proof {
                    assert(self.mods_view() =~= m.update(j as int, x));
                    assert(x.0 == m[j as int].0);
                    assert(x.1 =~= m[j as int].1.push(to@));
                    assert forall|t: Seq<char>| true implies targets_of(m.update(j as int, x), t)
                        == if t == from@ {
                        x.1
                    } else {
                        targets_of(m, t)
                    } by {
                        lemma_targets_update(m, j as int, x, t);
                    }
                }
            },
            None => {
                let mut list: Vec<String> = Vec::new();
                list.push(to);
                let ghost x = (from@, list@.map_values(|t: String| t@));
                self.modulations.push((from, list));
                proof {
                    assert(self.mods_view() =~= m.push(x));
                    assert forall|t: Seq<char>| true implies targets_of(m.push(x), t) == if t
                        == from@ {
                        x.1
                    } else {
                        targets_of(m, t)
                    } by {
                        lemma_targets_push(m, x, t);
                    }
                    assert(x.1 =~= targets_of(m, from@).push(to@));
                }
            },
        }
    }

    /// The last value cached for `id`, or zero for an id never registered
    /// or triggered. Total: unknown ids are not an error.
    pub fn value(&self, id: String) -> (r: i64)
        ensures
            r == self.value_of(id@),
    {
        let ghost s = self.last_value@;
        let mut i: usize = 0;
        while i < self.last_value.len()
            invariant
                s == self.last_value@,
                0 <= i <= s.len(),
                forall|j: int| 0 <= j < i ==> s[j].0@ != id@,
            decreases s.len() - i,
        {
            if id.eq(&self.last_value[i].0) {
                proof {
                    lemma_lookup_cache_skip(s, i as int, id@);
                    assert(s.skip(i as int)[0] == s[i as int]);
                }
                return self.last_value[i].1;
            }
            i = i + 1;
        }
        proof {
            lemma_lookup_cache_skip(s, s.len() as int, id@);
            assert(s.skip(s.len() as int) =~= Seq::<(String, i64)>::empty());
        }
        0
    }

    /// Triggers `id` with `value`: records `value` for every registered
    /// control reachable from `id` through the modulation graph, and
    /// returns the callback invocations due, one `(id, value)` entry per
    /// visit. The caller replays the list against its own callbacks.
    ///
    /// Propagation is depth first; each modulation entry fans out at most
    /// once per trigger, which bounds the traversal even on a cyclic
    /// graph while reaching every transitive target of an acyclic one.
    #[verifier::rlimit(100)]
    #[verifier::spinoff_prover]
    pub fn trigger(&mut self, id: String, value: i64) -> (out: Vec<(String, i64)>)
        ensures
            final(self).registered_ids() == old(self).registered_ids(),
            final(self).mods_view() == old(self).mods_view(),
            forall|k: int| 0 <= k < out@.len() ==> (#[trigger] out@[k]).1 == value
                && old(self).is_registered(out@[k].0@)
                && reaches(old(self).mods_view(), id@, out@[k].0@),
            forall|t: Seq<char>|
                old(self).is_registered(t) && #[trigger] reaches(old(self).mods_view(), id@, t)
                ==> exists|k: int| 0 <= k < out@.len() && (#[trigger] out@[k]).0@ == t,
            forall|t: Seq<char>|
                old(self).is_registered(t) && #[trigger] reaches(old(self).mods_view(), id@, t)
                ==> final(self).cached(t) == Some(value),
            forall|t: Seq<char>|
                !(old(self).is_registered(t) && reaches(old(self).mods_view(), id@, t))
                ==> #[trigger] final(self).cached(t) == old(self).cached(t),
            invocation_ids(out@) == registered_only(
                *old(self),
                trigger_visits(old(self).mods_view(), id@),
            ),
    {
        let ghost m = self.mods_view();
        let ghost root = id@;
        let mut visited: Vec<bool> = Vec::new();
        let mut k: usize = 0;
        let n = self.modulations.len();
        while k < n
            invariant
                visited@.len() == k,
                k <= n,
                forall|j: int| 0 <= j < k ==> !visited@[j],
            decreases n - k,
        {
            visited.push(false);
            k = k + 1;
        }
        let mut remaining: usize = n;
        proof {
            lemma_count_false_all(visited@);
        }
        let mut stack: Vec<String> = Vec::new();
        let mut out: Vec<(String, i64)> = Vec::new();
        stack.push(id);
        let ghost mut done: Set<Seq<char>> = Set::empty();
        let ghost mut processed: Seq<Seq<char>> = Seq::empty();
        let ghost mut expanded: Set<int> = Set::empty();
        proof {
            lemma_reaches_self(m, root);
            assert(stack@[0]@ == root);
            assert(stack_has(stack@, root));
            assert(id_views(stack@) =~= seq![root]);
            assert(trigger_visits(m, root) =~= processed + visit_order(
                m,
                id_views(stack@),
                expanded,
            ));
            assert(invocation_ids(out@) =~= registered_only(*old(self), processed));
        }
        while stack.len() != 0
            invariant
                self.controls@ == old(self).controls@,
                self.modulations@ == old(self).modulations@,
                m == self.mods_view(),
                m.len() == self.modulations@.len(),
                visited@.len() == m.len(),
                remaining == count_false(visited@),
                forall|j: int| 0 <= j < m.len() && visited@[j] ==> done.contains(
                    (#[trigger] m[j]).0,
                ),
                expanded.finite(),
                forall|j: int| #[trigger] expanded.contains(j) ==> 0 <= j < m.len(),
                forall|j: int| 0 <= j < m.len() ==> (visited@[j] <==> expanded.contains(j)),
                trigger_visits(m, root) == processed + visit_order(m, id_views(stack@), expanded),
                invocation_ids(out@) == registered_only(*old(self), processed),
                done.contains(root) || stack_has(stack@, root),
                forall|si: int| 0 <= si < stack@.len() ==> reaches(
                    m,
                    root,
                    (#[trigger] stack@[si])@,
                ),
                forall|t: Seq<char>| #[trigger] done.contains(t) ==> reaches(m, root, t),
                forall|u: Seq<char>, t: Seq<char>|
                    done.contains(u) && #[trigger] modulation_edge(m, u, t) ==> done.contains(t)
                        || stack_has(stack@, t),
                forall|k2: int| 0 <= k2 < out@.len() ==> (#[trigger] out@[k2]).1 == value
                    && old(self).is_registered(out@[k2].0@) && done.contains(out@[k2].0@),
                forall|t: Seq<char>| #[trigger] done.contains(t) && old(self).is_registered(t)
                    ==> exists|k2: int| 0 <= k2 < out@.len() && (#[trigger] out@[k2]).0@ == t,
                forall|t: Seq<char>| old(self).is_registered(t) && #[trigger] done.contains(t)
                    ==> self.cached(t) == Some(value),
                forall|t: Seq<char>| !(old(self).is_registered(t) && done.contains(t))
                    ==> #[trigger] self.cached(t) == old(self).cached(t),
            decreases remaining, stack@.len(),
        {
            let ghost stack_pre = stack@;
            let ghost done_entry = done;
            let ghost expanded_entry = expanded;
            let ghost processed_pre = processed;
            let cur: String = stack.pop().unwrap();
            let ghost stack_mid = stack@;
            proof {
                assert(cur == stack_pre.last());
                assert(stack_pre[stack_pre.len() - 1]@ == cur@);
                assert(reaches(m, root, cur@));
            }
            let reg = self.has_control(&cur);
            let ghost out_pre = out@;
            if reg {
                self.cache_upsert(&cur, value);
                out.push((cur.clone(), value));
            }
            proof {
                done = done.insert(cur@);
                processed = processed.push(cur@);
                assert(self.registered_ids() == old(self).registered_ids());
                assert(id_views(stack_pre).last() == cur@);
                assert(id_views(stack_pre).drop_last() =~= id_views(stack_mid));
                lemma_registered_only_push(*old(self), processed_pre, cur@);
                if reg {
                    assert(out@.last().0@ == cur@);
                    assert(out@ == out_pre.push(out@.last()));
                    lemma_invocation_ids_push(out_pre, out@.last());
                    assert(invocation_ids(out@) == registered_only(*old(self), processed));
                } else {
                    assert(!old(self).is_registered(cur@));
                    assert(invocation_ids(out@) == registered_only(*old(self), processed));
                }
                assert forall|t: Seq<char>|
                    done.contains(t) && old(self).is_registered(t) implies exists|k2: int|
                    0 <= k2 < out@.len() && (#[trigger] out@[k2]).0@ == t by {
                    if t == cur@ {
                        assert(out@[out@.len() - 1].0@ == t);
                    } else {
                        let w = choose|k2: int|
                            0 <= k2 < out_pre.len() && (#[trigger] out_pre[k2]).0@ == t;
                        assert(out@[w].0@ == t);
                    }
                }
                // an id that leaves the stack is covered by `done` from here on
                assert forall|t: Seq<char>|
                    stack_has(stack_pre, t) implies done.contains(t) || stack_has(stack_mid, t) by {
                    let w = choose|w: int| 0 <= w < stack_pre.len() && (#[trigger] stack_pre[w])@
                        == t;
                    if w < stack_pre.len() - 1 {
                        assert(stack_mid[w]@ == t);
                    } else {
                        assert(t == cur@);
                    }
                }
            }
            let pos = self.find_modulation(&cur);
            match pos {
                None => {
                    proof {
                        assert forall|t: Seq<char>| modulation_edge(m, cur@, t) implies false by {
                            assert(targets_of(m, cur@).contains(t));
                        }
                        lemma_key_index_absent(m, cur@);
                        lemma_visit_step_skip(m, id_views(stack_pre), expanded_entry);
                        assert(processed_pre + (seq![cur@] + visit_order(
                            m,
                            id_views(stack_mid),
                            expanded_entry,
                        )) =~= processed + visit_order(m, id_views(stack_mid), expanded_entry));
                    }
                },
                Some(j) => {
                    if !visited[j] {
                        let ghost visited_pre = visited@;
                        let _ = visited.remove(j);
                        visited.insert(j, true);
                        proof {
                            assert(visited@ =~= visited_pre.update(j as int, true));
                            lemma_count_false_update(visited_pre, j as int);
                            expanded = expanded.insert(j as int);
                            lemma_key_index_found(m, j as int, cur@);
                        }
                        remaining = remaining - 1;
                        let ghost ts = m[j as int].1;
                        let tcount = self.modulations[j].1.len();
                        proof {
                            assert(ts.len() == tcount) by {
                                assert(m[j as int].1 == self.modulations@[j as int].1@.map_values(
                                    |t: String| t@,
                                ));
                            }
                            assert(targets_of(m, cur@) == ts);
                        }
                        let ghost stack_snap = stack@;
                        proof {
                            assert(id_views(stack@) =~= id_views(stack_snap) + Seq::new(
                                0nat,
                                |i: int| ts[tcount - 1 - i],
                            ));
                        }
                        let mut ti: usize = 0;
                        while ti < tcount
                            invariant
                                self.controls@ == old(self).controls@,
                                self.modulations@ == old(self).modulations@,
                                m == self.mods_view(),
                                m.len() == self.modulations@.len(),
                                0 <= j < m.len(),
                                tcount == self.modulations@[j as int].1@.len(),
                                ts == m[j as int].1,
                                targets_of(m, cur@) == ts,
                                ts.len() == tcount,
                                0 <= ti <= tcount,
                                reaches(m, root, cur@),
                                m[j as int].0 == cur@,
                                forall|si: int| 0 <= si < stack@.len() ==> reaches(
                                    m,
                                    root,
                                    (#[trigger] stack@[si])@,
                                ),
                                // everything already on the stack stays there
                                forall|t: Seq<char>|
                                    #[trigger] stack_has(stack_snap, t) ==> stack_has(stack@, t),
                                forall|k3: int| tcount - ti <= k3 < tcount ==> stack_has(
                                    stack@,
                                    #[trigger] ts[k3],
                                ),
                                id_views(stack@) == id_views(stack_snap) + Seq::new(
                                    ti as nat,
                                    |i: int| ts[tcount - 1 - i],
                                ),
                            decreases tcount - ti,
                        {
                            // push in reverse so that the stack pops the
                            // targets in their recorded order
                            let at = tcount - 1 - ti;
                            let t_str: String = self.modulations[j].1[at].clone();
                            proof {
                                assert(t_str@ == ts[at as int]) by {
                                    assert(m[j as int].1 == self.modulations@[j as int].1@
                                        .map_values(|t: String| t@));
                                }
                                assert(targets_of(m, cur@).contains(ts[at as int]));
                                lemma_reaches_step(m, root, cur@, ts[at as int]);
                            }
                            let ghost stack_before = stack@;
                            stack.push(t_str);
                            proof {
                                assert forall|t: Seq<char>| stack_has(stack_before, t)
                                    implies stack_has(stack@, t) by {
                                    let w = choose|w: int| 0 <= w < stack_before.len() && (
                                    #[trigger] stack_before[w])@ == t;
                                    assert(stack@[w]@ == t);
                                }
                                assert(stack@[stack@.len() - 1]@ == ts[at as int]);
                                assert(stack_has(stack@, ts[at as int]));
                                assert forall|k3: int| tcount - (ti + 1) <= k3 < tcount
                                    implies stack_has(stack@, #[trigger] ts[k3]) by {
                                    if k3 > at {
                                        assert(stack_has(stack_before, ts[k3]));
                                    }
                                }
                                lemma_id_views_push(stack_before, t_str);
                                assert(id_views(stack@) =~= id_views(stack_snap) + Seq::new(
                                    (ti + 1) as nat,
                                    |i: int| ts[tcount - 1 - i],
                                ));
                            }
                            ti = ti + 1;
                        }
                        proof {
                            // all edges of cur now sit in the stack, and nothing
                            // that was there has gone
                            assert forall|t: Seq<char>| modulation_edge(m, cur@, t)
                                implies stack_has(stack@, t) by {
                                let w = choose|w: int| 0 <= w < ts.len() && ts[w] == t;
                                assert(stack_has(stack@, ts[w]));
                            }
                            assert forall|t: Seq<char>| stack_has(stack_mid, t)
                                implies stack_has(stack@, t) by {
                                assert(stack_has(stack_snap, t));
                            }
                            assert(Seq::new(tcount as nat, |i: int| ts[tcount - 1 - i])
                                =~= ts.reverse());
                            assert(id_views(stack@) == id_views(stack_mid) + ts.reverse());
                            lemma_visit_step_expand(m, id_views(stack_pre), expanded_entry, j as int);
                            assert(processed_pre + (seq![cur@] + visit_order(
                                m,
                                id_views(stack_mid) + ts.reverse(),
                                expanded_entry.insert(j as int),
                            )) =~= processed + visit_order(
                                m,
                                id_views(stack_mid) + ts.reverse(),
                                expanded_entry.insert(j as int),
                            ));
                        }
                    } else {
                        proof {
                            assert(done_entry.contains(m[j as int].0));
                            lemma_key_index_found(m, j as int, cur@);
                            assert(expanded_entry.contains(j as int));
                            lemma_visit_step_skip(m, id_views(stack_pre), expanded_entry);
                            assert(processed_pre + (seq![cur@] + visit_order(
                                m,
                                id_views(stack_mid),
                                expanded_entry,
                            )) =~= processed + visit_order(
                                m,
                                id_views(stack_mid),
                                expanded_entry,
                            ));
                        }
                    }
                },
            }
            proof {
                // restore the reachability cover for the next iteration
                assert(done.contains(root) || stack_has(stack@, root)) by {
                    if !done.contains(root) {
                        assert(stack_has(stack_pre, root));
                        assert(stack_has(stack_mid, root));
                    }
                }
                assert forall|u: Seq<char>, t: Seq<char>|
                    done.contains(u) && #[trigger] modulation_edge(m, u, t)
                        implies done.contains(t) || stack_has(stack@, t) by {
                    if !done.contains(t) {
                        if u == cur@ {
                            assert(stack_has(stack@, t));
                        } else {
                            assert(done_entry.contains(u));
                            assert(done_entry.contains(t) || stack_has(stack_pre, t));
                            assert(stack_has(stack_mid, t));
                            assert(stack_has(stack@, t));
                        }
                    }
                }
            }
        }
        proof {
            assert(done.contains(root));
            assert forall|u: Seq<char>, t2: Seq<char>|
                done.contains(u) && modulation_edge(m, u, t2) implies done.contains(t2) by {
                assert(!stack_has(stack@, t2));
            }
            assert forall|t: Seq<char>| reaches(m, root, t) implies done.contains(t) by {
                let p = choose|p: Seq<Seq<char>>| is_modulation_path(m, p) && p.first() == root
                    && p.last() == t;
                lemma_path_stays_in_closed_set(m, done, p);
            }
            assert forall|t: Seq<char>|
                old(self).is_registered(t) && #[trigger] reaches(old(self).mods_view(), id@, t)
                    implies exists|k2: int| 0 <= k2 < out@.len() && (#[trigger] out@[k2]).0@
                == t by {
                assert(reaches(m, root, t));
                assert(done.contains(t));
            }
            assert(id_views(stack@).len() == 0);
            assert(visit_order(m, id_views(stack@), expanded) =~= Seq::<Seq<char>>::empty());
            assert(processed + Seq::<Seq<char>>::empty() =~= processed);
        }
        out
    }
}

/// The reported value of an id the cache does not know is zero, whether
/// or not the id was ever seen before.
pub proof fn lemma_unregistered_value(b: EventBus, id: Seq<char>)
    requires
        b.cached(id) == None::<i64>,
    ensures
        b.value_of(id) == 0,
{
}

/// Once a value is cached for an id, that is exactly what `value`
/// reports: registering with an initial value and then reading it back
/// yields the initial value, and a trigger overwrites it.
pub proof fn lemma_cached_value(b: EventBus, id: Seq<char>, v: i64)
    requires
        b.cached(id) == Some(v),
    ensures
        b.value_of(id) == v,
{
}

} // verus!
