//! Layered configuration: a profile document is laid over the base
//! document table by table. Values in the overlay replace values in the
//! base; tables present in both are merged key by key.

use vstd::prelude::*;
use crate::text::str_eq;

verus! {

/// A configuration document: a table of named entries, or a plain value
/// (a string, number, array, ...) that merging never looks into.
pub enum ConfigValue<L> {
    Leaf(L),
    Table(Vec<(String, ConfigValue<L>)>),
}

/// What a path leads to: a plain value, or a table.
pub enum NodeKind<L> {
    Leaf(L),
    Table,
}

/// The index of the first entry named `k`, or -1 when there is none.
pub open spec fn key_index<L>(es: Seq<(String, ConfigValue<L>)>, k: Seq<char>) -> int
    decreases es.len(),
{
    if es.len() == 0 {
        -1
    } else if es[0].0@ == k {
        0
    } else {
        let r = key_index(es.drop_first(), k);
        if r < 0 {
            -1
        } else {
            r + 1
        }
    }
}

/// No two entries of a table share a name.
pub open spec fn keys_distinct<L>(es: Seq<(String, ConfigValue<L>)>) -> bool {
    forall|i: int, j: int| 0 <= i < j < es.len() ==> es[i].0@ != es[j].0@
}

/// The value reached from `v` by following the names in `p`.
pub open spec fn sub_at<L>(v: ConfigValue<L>, p: Seq<Seq<char>>) -> Option<ConfigValue<L>>
    decreases p.len(),
{
    if p.len() == 0 {
        Some(v)
    } else {
        match v {
            ConfigValue::Leaf(_) => None,
            ConfigValue::Table(es) => {
                let i = key_index(es@, p[0]);
                if i < 0 {
                    None
                } else {
                    sub_at(es@[i].1, p.drop_first())
                }
            },
        }
    }
}

/// What `v` holds at the path `p`, if anything.
pub open spec fn node_at<L>(v: ConfigValue<L>, p: Seq<Seq<char>>) -> Option<NodeKind<L>> {
    match sub_at(v, p) {
        Some(ConfigValue::Leaf(x)) => Some(NodeKind::Leaf(x)),
        Some(ConfigValue::Table(_)) => Some(NodeKind::Table),
        None => None,
    }
}

/// Every table in the document has distinct names, as in a parsed TOML
/// document.
pub open spec fn well_formed<L>(v: ConfigValue<L>) -> bool {
    forall|p: Seq<Seq<char>>| #[trigger] table_ok(sub_at(v, p))
}

/// A table found by a lookup has distinct names.
pub open spec fn table_ok<L>(x: Option<ConfigValue<L>>) -> bool {
    match x {
        Some(ConfigValue::Table(es)) => keys_distinct(es@),
        _ => true,
    }
}

/// The overlay settles what lies at `p`: it holds something there, or it
/// holds a plain value somewhere above `p`.
pub open spec fn overlay_decides<L>(o: ConfigValue<L>, p: Seq<Seq<char>>) -> bool {
    ||| node_at(o, p) is Some
    ||| exists|j: int| 0 <= j < p.len() && #[trigger] node_at(o, p.take(j)) matches Some(NodeKind::Leaf(_))
}

/// What the merged document holds at `p`: the overlay's content wherever
/// the overlay settles it, the base's content everywhere else.
pub open spec fn merged_node<L>(b: ConfigValue<L>, o: ConfigValue<L>, p: Seq<Seq<char>>) -> Option<NodeKind<L>> {
    if overlay_decides(o, p) {
        node_at(o, p)
    } else {
        node_at(b, p)
    }
}

/// `r` holds, at every path, what merging `o` over `b` yields there.
pub open spec fn is_merge_of<L>(r: ConfigValue<L>, b: ConfigValue<L>, o: ConfigValue<L>) -> bool {
    forall|q: Seq<Seq<char>>| #[trigger] node_at(r, q) == merged_node(b, o, q)
}

proof fn lemma_key_index<L>(es: Seq<(String, ConfigValue<L>)>, k: Seq<char>)
    ensures
        -1 <= key_index(es, k) < es.len(),
        key_index(es, k) >= 0 ==> es[key_index(es, k)].0@ == k,
        forall|i: int| 0 <= i < key_index(es, k) ==> es[i].0@ != k,
        key_index(es, k) < 0 ==> forall|i: int| 0 <= i < es.len() ==> es[i].0@ != k,
    decreases es.len(),
{
    if es.len() > 0 {
        lemma_key_index(es.drop_first(), k);
        assert forall|i: int| 1 <= i < es.len() implies es[i] == es.drop_first()[i - 1] by {}
        if key_index(es, k) < 0 {
            assert forall|i: int| 0 <= i < es.len() implies es[i].0@ != k by {
                if i > 0 {
                    assert(es[i] == es.drop_first()[i - 1]);
                }
            }
        }
    }
}

/// The first entry named `k` is found at `i`.
proof fn lemma_key_index_at<L>(es: Seq<(String, ConfigValue<L>)>, k: Seq<char>, i: int)
    requires
        0 <= i < es.len(),
        es[i].0@ == k,
        forall|j: int| 0 <= j < i ==> es[j].0@ != k,
    ensures
        key_index(es, k) == i,
{
    lemma_key_index(es, k);
}

/// In a table with distinct names, each entry is the first of its name.
proof fn lemma_key_index_distinct<L>(es: Seq<(String, ConfigValue<L>)>, i: int)
    requires
        keys_distinct(es),
        0 <= i < es.len(),
    ensures
        key_index(es, es[i].0@) == i,
{
    lemma_key_index_at(es, es[i].0@, i);
}

/// Finding a name looks at the names only.
proof fn lemma_key_index_same_keys<L>(a: Seq<(String, ConfigValue<L>)>, b: Seq<(String, ConfigValue<L>)>, k: Seq<char>)
    requires
        a.len() == b.len(),
        forall|t: int| 0 <= t < a.len() ==> a[t].0@ == b[t].0@,
    ensures
        key_index(a, k) == key_index(b, k),
{
    lemma_key_index(a, k);
    lemma_key_index(b, k);
    if key_index(a, k) >= 0 {
        lemma_key_index_at(b, k, key_index(a, k));
    } else if key_index(b, k) >= 0 {
        lemma_key_index_at(a, k, key_index(b, k));
    }
}

/// Finding a name after an entry was appended.
proof fn lemma_key_index_push<L>(es: Seq<(String, ConfigValue<L>)>, x: (String, ConfigValue<L>), k: Seq<char>)
    ensures
        key_index(es.push(x), k) == if key_index(es, k) >= 0 {
            key_index(es, k)
        } else if x.0@ == k {
            es.len() as int
        } else {
            -1
        },
{
    lemma_key_index(es, k);
    let s = es.push(x);
    lemma_key_index(s, k);
    if key_index(es, k) >= 0 {
        lemma_key_index_at(s, k, key_index(es, k));
    } else if x.0@ == k {
        lemma_key_index_at(s, k, es.len() as int);
    } else {
        assert forall|i: int| 0 <= i < s.len() implies s[i].0@ != k by {
            if i < es.len() {
                assert(s[i] == es[i]);
            }
        }
    }
}

/// The entries of a well-formed table have distinct names, and each entry
/// is well formed.
proof fn lemma_child_well_formed<L>(v: Vec<(String, ConfigValue<L>)>, i: int)
    requires
        well_formed(ConfigValue::Table(v)),
        0 <= i < v.len(),
    ensures
        keys_distinct(v@),
        well_formed(v@[i].1),
{
    let t = ConfigValue::Table(v);
    assert(table_ok(sub_at(t, Seq::<Seq<char>>::empty())));
    assert(keys_distinct(v@));
    lemma_key_index_distinct(v@, i);
    let k = v@[i].0@;
    assert forall|q: Seq<Seq<char>>| #[trigger] table_ok(sub_at(v@[i].1, q)) by {
        let p = seq![k] + q;
        assert(p.drop_first() =~= q);
        assert(sub_at(t, p) == sub_at(v@[i].1, q));
        assert(table_ok(sub_at(t, p)));
    }
}

/// Below an entry of the overlay, the overlay settles a path exactly when
/// the entry settles the rest of the path; below a name the overlay lacks,
/// it settles nothing.
proof fn lemma_decides_step<L>(ov: Vec<(String, ConfigValue<L>)>, p: Seq<Seq<char>>)
    requires
        p.len() > 0,
    ensures
        ({
            let o = ConfigValue::Table(ov);
            let j = key_index(ov@, p[0]);
            &&& j >= 0 ==> overlay_decides(o, p) == overlay_decides(ov@[j].1, p.drop_first())
            &&& j >= 0 ==> node_at(o, p) == node_at(ov@[j].1, p.drop_first())
            &&& j < 0 ==> !overlay_decides(o, p)
        }),
{
    let o = ConfigValue::Table(ov);
    let j = key_index(ov@, p[0]);
    let rest = p.drop_first();
    assert(p.take(0) =~= Seq::<Seq<char>>::empty());
    assert(node_at(o, p.take(0)) == Some(NodeKind::<L>::Table));
    // A prefix of length t >= 1 goes through the first name.
    assert forall|t: int| 1 <= t <= p.len() implies #[trigger] node_at(o, p.take(t)) == (if j >= 0 {
        node_at(ov@[j].1, rest.take(t - 1))
    } else {
        None
    }) by {
        let pt = p.take(t);
        assert(pt[0] == p[0]);
        assert(pt.drop_first() =~= rest.take(t - 1));
    }
    assert(p.take(p.len() as int) =~= p);
    if j >= 0 {
        let c = ov@[j].1;
        if overlay_decides(o, p) {
            if node_at(o, p) is Some {
                assert(node_at(c, rest) is Some);
            } else {
                let w = choose|w: int| 0 <= w < p.len() && #[trigger] node_at(o, p.take(w)) matches Some(NodeKind::Leaf(_));
                assert(w >= 1);
                assert(node_at(c, rest.take(w - 1)) matches Some(NodeKind::Leaf(_)));
            }
        }
        if overlay_decides(c, rest) {
            if node_at(c, rest) is Some {
                assert(rest.take(rest.len() as int) =~= rest);
            } else {
                let w = choose|w: int| 0 <= w < rest.len() && #[trigger] node_at(c, rest.take(w)) matches Some(NodeKind::Leaf(_));
                assert(node_at(o, p.take(w + 1)) matches Some(NodeKind::Leaf(_)));
            }
        }
    } else {
        assert(node_at(o, p) is None);
        assert forall|w: int| 0 <= w < p.len() implies !(#[trigger] node_at(o, p.take(w)) matches Some(NodeKind::Leaf(_))) by {
            if w >= 1 {
            }
        }
    }
}

/// Find the first entry named `k`.
fn find_key<L>(es: &Vec<(String, ConfigValue<L>)>, k: &str) -> (r: Option<usize>)
    ensures
        match r {
            Some(i) => i < es.len() && i as int == key_index(es@, k@),
            None => key_index(es@, k@) < 0,
        },
{
    proof {
        lemma_key_index(es@, k@);
    }
    let mut i: usize = 0;
    while i < es.len()
        invariant
            0 <= i <= es.len(),
            forall|j: int| 0 <= j < i ==> es@[j].0@ != k@,
        decreases es.len() - i,
    {
        if str_eq(es[i].0.as_str(), k) {
            proof {
                lemma_key_index_at(es@, k@, i as int);
            }
            return Some(i);
        }
        i = i + 1;
    }
    None
}

/// Entry `i` of the base, after the first `m` overlay entries were laid
/// over it: same name, merged content where the overlay has the name.
pub open spec fn base_entry_ok<L>(
    b: Seq<(String, ConfigValue<L>)>,
    o: Seq<(String, ConfigValue<L>)>,
    m: int,
    cur: Seq<(String, ConfigValue<L>)>,
    i: int,
) -> bool {
    let j = key_index(o.take(m), b[i].0@);
    &&& cur[i].0@ == b[i].0@
    &&& j < 0 ==> cur[i].1 == b[i].1
    &&& j >= 0 ==> is_merge_of(cur[i].1, b[i].1, o[j].1)
}

/// Entry `i`, past the base's entries, is an overlay entry whose name the
/// base lacks.
pub open spec fn added_entry_ok<L>(
    b: Seq<(String, ConfigValue<L>)>,
    o: Seq<(String, ConfigValue<L>)>,
    m: int,
    cur: Seq<(String, ConfigValue<L>)>,
    i: int,
) -> bool {
    let j = key_index(o, cur[i].0@);
    &&& key_index(b, cur[i].0@) < 0
    &&& 0 <= j < m
    &&& cur[i].1 == o[j].1
}

/// An overlay entry whose name the base lacks has been added.
pub open spec fn overlay_entry_placed<L>(
    b: Seq<(String, ConfigValue<L>)>,
    o: Seq<(String, ConfigValue<L>)>,
    cur: Seq<(String, ConfigValue<L>)>,
    j: int,
) -> bool {
    key_index(b, o[j].0@) < 0 ==> key_index(cur, o[j].0@) >= b.len()
}

/// Lay the overlay's table entries over the base's.
#[verifier::rlimit(40)]
fn merge_tables<L>(
    bv: Vec<(String, ConfigValue<L>)>,
    ov: Vec<(String, ConfigValue<L>)>,
    Ghost(o0): Ghost<ConfigValue<L>>,
) -> (r: Vec<(String, ConfigValue<L>)>)
    requires
        o0 == ConfigValue::Table(ov),
        well_formed(ConfigValue::Table(bv)),
        well_formed(ConfigValue::Table(ov)),
    ensures
        is_merge_of(ConfigValue::Table(r), ConfigValue::Table(bv), ConfigValue::Table(ov)),
    decreases o0, 0nat,
{
    let ghost b = bv@;
    let ghost o = ov@;
    let ghost bvg = bv;
    let ghost ovg = ov;
    proof {
        if b.len() > 0 {
            lemma_child_well_formed(bv, 0);
        }
        if o.len() > 0 {
            lemma_child_well_formed(ov, 0);
        }
        assert(table_ok(sub_at(ConfigValue::Table(bv), Seq::<Seq<char>>::empty())));
        assert(table_ok(sub_at(ConfigValue::Table(ov), Seq::<Seq<char>>::empty())));
        assert(o.take(0) =~= Seq::<(String, ConfigValue<L>)>::empty());
    }
    let mut cur = bv;
    let mut rest = ov;
    let ghost mut m: int = 0;
    while rest.len() > 0
        invariant
            o0 == ConfigValue::Table(ovg),
            o == ovg@,
            b == bvg@,
            well_formed(ConfigValue::Table(bvg)),
            well_formed(ConfigValue::Table(ovg)),
            keys_distinct(b),
            keys_distinct(o),
            0 <= m <= o.len(),
            rest@ == o.subrange(m, o.len() as int),
            b.len() <= cur.len(),
            forall|i: int| 0 <= i < b.len() ==> #[trigger] base_entry_ok(b, o, m, cur@, i),
            forall|i: int| b.len() <= i < cur.len() ==> #[trigger] added_entry_ok(b, o, m, cur@, i),
            forall|j: int| 0 <= j < m ==> #[trigger] overlay_entry_placed(b, o, cur@, j),
            keys_distinct(cur@),
        decreases rest.len(),
    {
        let ghost before = cur@;
        let (k, oc) = rest.remove(0);
        proof {
            assert(o[m] == (k, oc));
            lemma_key_index_distinct(o, m);
            lemma_child_well_formed(ovg, m);
            assert(o.take(m + 1) =~= o.take(m).push(o[m]));
            lemma_key_index(o.take(m), k@);
            assert forall|t: int| 0 <= t < o.take(m).len() implies o.take(m)[t].0@ != k@ by {
                assert(o.take(m)[t] == o[t]);
            }
        }
        match find_key(&cur, k.as_str()) {
            Some(i) => {
                proof {
                    lemma_key_index(cur@, k@);
                    if i >= b.len() {
                        assert(added_entry_ok(b, o, m, cur@, i as int));
                        assert(false);
                    }
                    assert(base_entry_ok(b, o, m, cur@, i as int));
                    lemma_key_index_distinct(b, i as int);
                    lemma_child_well_formed(bvg, i as int);
                    assert(cur@[i as int].1 == b[i as int].1);
                    assert(o0->Table_0 == ovg);
                    assert(decreases_to!(o0 => o0->Table_0));
                    assert(decreases_to!(ovg => ovg@));
                    assert(decreases_to!(ovg@ => ovg@[m]));
                    assert(decreases_to!(ovg@[m] => ovg@[m].1));
                }
                let (ck, cc) = cur.remove(i);
                let mc = merge_values(cc, oc);
                cur.insert(i, (ck, mc));
                proof {
                    assert(cur@ =~= before.update(i as int, (ck, mc)));
                    assert forall|t: int| 0 <= t < cur@.len() implies cur@[t].0@ == before[t].0@ by {}
                    assert forall|i2: int| 0 <= i2 < b.len() implies #[trigger] base_entry_ok(b, o, m + 1, cur@, i2) by {
                        assert(base_entry_ok(b, o, m, before, i2));
                        lemma_key_index_push(o.take(m), o[m], b[i2].0@);
                        if i2 != i {
                            assert(b[i2].0@ != b[i as int].0@);
                        }
                    }
                    assert forall|i2: int| b.len() <= i2 < cur@.len() implies #[trigger] added_entry_ok(b, o, m + 1, cur@, i2) by {
                        assert(added_entry_ok(b, o, m, before, i2));
                    }
                    assert forall|j: int| 0 <= j < m + 1 implies #[trigger] overlay_entry_placed(b, o, cur@, j) by {
                        lemma_key_index_same_keys(cur@, before, o[j].0@);
                        if j < m {
                            assert(overlay_entry_placed(b, o, before, j));
                        }
                    }
                }
            },
            None => {
                proof {
                    lemma_key_index(cur@, k@);
                    assert forall|t: int| 0 <= t < b.len() implies b[t].0@ != k@ by {
                        assert(base_entry_ok(b, o, m, cur@, t));
                    }
                    lemma_key_index(b, k@);
                }
                cur.push((k, oc));
                proof {
                    assert(cur@ == before.push((k, oc)));
                    assert forall|i2: int| 0 <= i2 < b.len() implies #[trigger] base_entry_ok(b, o, m + 1, cur@, i2) by {
                        assert(base_entry_ok(b, o, m, before, i2));
                        assert(cur@[i2] == before[i2]);
                        lemma_key_index_push(o.take(m), o[m], b[i2].0@);
                    }
                    assert forall|i2: int| b.len() <= i2 < cur@.len() implies #[trigger] added_entry_ok(b, o, m + 1, cur@, i2) by {
                        if i2 < before.len() {
                            assert(added_entry_ok(b, o, m, before, i2));
                            assert(cur@[i2] == before[i2]);
                        }
                    }
                    assert forall|j: int| 0 <= j < m + 1 implies #[trigger] overlay_entry_placed(b, o, cur@, j) by {
                        lemma_key_index_push(before, (k, oc), o[j].0@);
                        if j < m {
                            assert(overlay_entry_placed(b, o, before, j));
                            lemma_key_index_distinct(o, j);
                        }
                    }
                }
            },
        }
        proof {
            m = m + 1;
            assert(rest@ =~= o.subrange(m, o.len() as int));
        }
    }
    proof {
        assert(o.take(m) =~= o);
        lemma_table_merge_result(bvg, ovg, cur);
    }
    cur
}

/// Once every overlay entry has been laid over the base, the table holds
/// the merge.
proof fn lemma_table_merge_result<L>(
    bv: Vec<(String, ConfigValue<L>)>,
    ov: Vec<(String, ConfigValue<L>)>,
    cur: Vec<(String, ConfigValue<L>)>,
)
    requires
        keys_distinct(bv@),
        keys_distinct(ov@),
        keys_distinct(cur@),
        bv@.len() <= cur@.len(),
        forall|i: int| 0 <= i < bv@.len() ==> #[trigger] base_entry_ok(bv@, ov@, ov@.len() as int, cur@, i),
        forall|i: int| bv@.len() <= i < cur@.len() ==> #[trigger] added_entry_ok(bv@, ov@, ov@.len() as int, cur@, i),
        forall|j: int| 0 <= j < ov@.len() ==> #[trigger] overlay_entry_placed(bv@, ov@, cur@, j),
    ensures
        is_merge_of(ConfigValue::Table(cur), ConfigValue::Table(bv), ConfigValue::Table(ov)),
{
    let b = bv@;
    let o = ov@;
    let c = cur@;
    let bt = ConfigValue::Table(bv);
    let ot = ConfigValue::Table(ov);
    let ct = ConfigValue::Table(cur);
    assert(o.take(o.len() as int) =~= o);
    assert forall|p: Seq<Seq<char>>| #[trigger] node_at(ct, p) == merged_node(bt, ot, p) by {
        if p.len() == 0 {
            assert(node_at(ot, p) is Some);
        } else {
            let k = p[0];
            let rest = p.drop_first();
            lemma_key_index(b, k);
            lemma_key_index(o, k);
            lemma_key_index(c, k);
            lemma_decides_step(ov, p);
            let ib = key_index(b, k);
            let io = key_index(o, k);
            if ib >= 0 {
                assert(base_entry_ok(b, o, o.len() as int, c, ib));
                assert forall|t: int| 0 <= t < ib implies c[t].0@ != k by {
                    assert(base_entry_ok(b, o, o.len() as int, c, t));
                }
                lemma_key_index_at(c, k, ib);
                assert(node_at(ct, p) == node_at(c[ib].1, rest));
                assert(node_at(bt, p) == node_at(b[ib].1, rest));
                if io >= 0 {
                    assert(node_at(c[ib].1, rest) == merged_node(b[ib].1, o[io].1, rest));
                } else {
                    assert(c[ib].1 == b[ib].1);
                }
            } else if io >= 0 {
                assert(overlay_entry_placed(b, o, c, io));
                let ic = key_index(c, k);
                assert(added_entry_ok(b, o, o.len() as int, c, ic));
                lemma_key_index_distinct(o, io);
                assert(c[ic].1 == o[io].1);
                assert(node_at(ct, p) == node_at(c[ic].1, rest));
                assert(node_at(bt, p) is None);
            } else {
                if key_index(c, k) >= 0 {
                    let ic = key_index(c, k);
                    if ic < b.len() {
                        assert(base_entry_ok(b, o, o.len() as int, c, ic));
                    } else {
                        assert(added_entry_ok(b, o, o.len() as int, c, ic));
                    }
                }
            }
        }
    }
}

/// Merge `overlay` over `base`: tables present in both are merged name by
/// name, and anything else in the overlay replaces what the base holds.
fn merge_values<L>(base: ConfigValue<L>, overlay: ConfigValue<L>) -> (r: ConfigValue<L>)
    requires
        well_formed(base),
        well_formed(overlay),
    ensures
        is_merge_of(r, base, overlay),
    decreases overlay, 1nat,
{
    let ghost b0 = base;
    let ghost ov0 = overlay;
    match overlay {
        ConfigValue::Table(ov) => match base {
            ConfigValue::Table(bv) => {
                let t = merge_tables(bv, ov, Ghost(ov0));
                ConfigValue::Table(t)
            },
            ConfigValue::Leaf(x) => {
                proof {
                    assert forall|q: Seq<Seq<char>>| #[trigger] node_at(ov0, q) == merged_node(b0, ov0, q) by {
                        if q.len() == 0 {
                        } else if !overlay_decides(ov0, q) {
                            assert(node_at(b0, q) is None);
                        }
                    }
                }
                ConfigValue::Table(ov)
            },
        },
        ConfigValue::Leaf(y) => {
            proof {
                assert forall|q: Seq<Seq<char>>| #[trigger] node_at(ov0, q) == merged_node(b0, ov0, q) by {
                    if q.len() > 0 {
                        assert(q.take(0) =~= Seq::<Seq<char>>::empty());
                        assert(node_at(ov0, q.take(0)) matches Some(NodeKind::Leaf(_)));
                    }
                }
            }
            ConfigValue::Leaf(y)
        },
    }
}

impl<L> ConfigValue<L> {
    /// The entry named `key`, when this is a table that has one.
    pub fn get(&self, key: &str) -> (r: Option<&ConfigValue<L>>)
        ensures
            match *self {
                ConfigValue::Table(es) => {
                    let i = key_index(es@, key@);
                    if i < 0 {
                        r is None
                    } else {
                        r == Some(&es@[i].1)
                    }
                },
                ConfigValue::Leaf(_) => r is None,
            },
    {
        match self {
            ConfigValue::Table(es) => match find_key(es, key) {
                Some(i) => Some(&es[i].1),
                None => None,
            },
            ConfigValue::Leaf(_) => None,
        }
    }
}

/// Lay `overlay` over `base` in place. At every path the result holds what
/// the overlay holds there, wherever the overlay holds something there or
/// holds a plain value above it; everywhere else it holds what the base
/// held.
pub fn deep_merge<L>(base: &mut ConfigValue<L>, overlay: ConfigValue<L>)
    requires
        well_formed(*old(base)),
        well_formed(overlay),
    ensures
        is_merge_of(*final(base), *old(base), overlay),
{
    let mut b = ConfigValue::Table(Vec::new());
    std::mem::swap(base, &mut b);
    *base = merge_values(b, overlay);
}

} // verus!
