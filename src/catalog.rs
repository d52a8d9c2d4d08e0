//! Catalog snapshots: the table and view definitions read from a store.
use vstd::prelude::*;

verus! {

/// Whether a catalog object is a base table or a view.
#[derive(Clone, Copy, Debug, PartialEq, Eq, Structural)]
pub enum ObjectKind {
    Table,
    View,
}

/// One entry of a store's catalog: its name, its kind and the DDL statement
/// that creates it.
#[derive(Debug)]
pub struct SchemaObject {
    pub name: String,
    pub kind: ObjectKind,
    pub definition: String,
}

impl SchemaObject {
    pub fn new(name: String, kind: ObjectKind, definition: String) -> (r: SchemaObject)
        ensures
            r.name@ == name@,
            r.kind == kind,
            r.definition@ == definition@,
    {
        SchemaObject { name, kind, definition }
    }
}

/// The character sequences held by a list of strings.
pub open spec fn texts(v: Seq<String>) -> Seq<Seq<char>> {
    v.map_values(|s: String| s@)
}

/// The DDL of the objects of kind `k`, in catalog order.
pub open spec fn definitions_of(objs: Seq<SchemaObject>, k: ObjectKind) -> Seq<Seq<char>>
    decreases objs.len(),
{
    if objs.len() == 0 {
        Seq::empty()
    } else if objs.last().kind == k {
        definitions_of(objs.drop_last(), k).push(objs.last().definition@)
    } else {
        definitions_of(objs.drop_last(), k)
    }
}

/// The names of the objects of kind `k`, in catalog order.
pub open spec fn names_of(objs: Seq<SchemaObject>, k: ObjectKind) -> Seq<Seq<char>>
    decreases objs.len(),
{
    if objs.len() == 0 {
        Seq::empty()
    } else if objs.last().kind == k {
        names_of(objs.drop_last(), k).push(objs.last().name@)
    } else {
        names_of(objs.drop_last(), k)
    }
}

pub(crate) proof fn lemma_texts_push(v: Seq<String>, s: String)
    ensures
        texts(v.push(s)) == texts(v).push(s@),
{
    assert(texts(v.push(s)) =~= texts(v).push(s@));
}

/// The names and DDL statements of the catalog objects of one kind.
pub struct KindSelection {
    pub names: Vec<String>,
    pub definitions: Vec<String>,
}

/// Keeps the catalog objects of kind `k`, in the order the catalog listed
/// them, and returns their names and their DDL.
pub fn select_kind(objs: &Vec<SchemaObject>, k: ObjectKind) -> (r: KindSelection)
    ensures
        texts(r.names@) == names_of(objs@, k),
        texts(r.definitions@) == definitions_of(objs@, k),
{
    let mut names: Vec<String> = Vec::new();
    let mut definitions: Vec<String> = Vec::new();
    let mut i: usize = 0;
    while i < objs.len()
        invariant
            i <= objs@.len(),
            texts(names@) == names_of(objs@.subrange(0, i as int), k),
            texts(definitions@) == definitions_of(objs@.subrange(0, i as int), k),
        decreases objs@.len() - i,
    {
        let o = &objs[i];
        proof {
            assert(objs@.subrange(0, i + 1).drop_last() =~= objs@.subrange(0, i as int));
            assert(objs@.subrange(0, i + 1).last() == objs@[i as int]);
        }
        if o.kind == k {
            proof {
                lemma_texts_push(names@, o.name);
                lemma_texts_push(definitions@, o.definition);
            }
            names.push(o.name.clone());
            definitions.push(o.definition.clone());
        }
        i = i + 1;
    }
    proof {
        assert(objs@.subrange(0, i as int) =~= objs@);
    }
    KindSelection { names, definitions }
}

/// Every object of kind `k` has its DDL among the selected definitions, every
/// selected definition belongs to an object of kind `k`, and together the
/// tables and the views account for the whole catalog, with nothing added.
pub proof fn lemma_selection_faithful(objs: Seq<SchemaObject>, k: ObjectKind)
    ensures
        forall|i: int|
            0 <= i < objs.len() && objs[i].kind == k ==> #[trigger] definitions_of(objs, k).contains(
                objs[i].definition@,
            ),
        forall|j: int|
            0 <= j < definitions_of(objs, k).len() ==> exists|i: int|
                0 <= i < objs.len() && objs[i].kind == k && objs[i].definition@
                    == #[trigger] definitions_of(objs, k)[j],
        definitions_of(objs, ObjectKind::Table).len() + definitions_of(objs, ObjectKind::View).len()
            == objs.len(),
        names_of(objs, k).len() == definitions_of(objs, k).len(),
    decreases objs.len(),
{
    if objs.len() > 0 {
        let p = objs.drop_last();
        lemma_selection_faithful(p, k);
        let d = definitions_of(objs, k);
        let dp = definitions_of(p, k);
        assert forall|i: int| 0 <= i < objs.len() && objs[i].kind == k implies #[trigger] d.contains(
            objs[i].definition@,
        ) by {
            if i == objs.len() - 1 {
                assert(d[d.len() - 1] == objs[i].definition@);
            } else {
                assert(p[i] == objs[i]);
                assert(dp.contains(p[i].definition@));
                let j = choose|j: int| 0 <= j < dp.len() && dp[j] == p[i].definition@;
                assert(d[j] == dp[j]);
            }
        }
        assert forall|j: int| 0 <= j < d.len() implies exists|i: int|
            0 <= i < objs.len() && objs[i].kind == k && objs[i].definition@ == #[trigger] d[j] by {
            if j < dp.len() {
                assert(d[j] == dp[j]);
                let i = choose|i: int|
                    0 <= i < p.len() && p[i].kind == k && p[i].definition@ == #[trigger] dp[j];
                assert(objs[i] == p[i]);
            } else {
                assert(objs[objs.len() - 1].definition@ == d[j]);
            }
        }
    }
}

/// Every object of kind `k` has its name among the selected names, and every
/// selected name belongs to an object of kind `k`.
pub proof fn lemma_names_faithful(objs: Seq<SchemaObject>, k: ObjectKind)
    ensures
        forall|i: int|
            0 <= i < objs.len() && objs[i].kind == k ==> #[trigger] names_of(objs, k).contains(
                objs[i].name@,
            ),
        forall|j: int|
            0 <= j < names_of(objs, k).len() ==> exists|i: int|
                0 <= i < objs.len() && objs[i].kind == k && objs[i].name@
                    == #[trigger] names_of(objs, k)[j],
    decreases objs.len(),
{
    if objs.len() > 0 {
        let p = objs.drop_last();
        lemma_names_faithful(p, k);
        let d = names_of(objs, k);
        let dp = names_of(p, k);
        assert forall|i: int| 0 <= i < objs.len() && objs[i].kind == k implies #[trigger] d.contains(
            objs[i].name@,
        ) by {
            if i == objs.len() - 1 {
                assert(d[d.len() - 1] == objs[i].name@);
            } else {
                assert(p[i] == objs[i]);
                assert(dp.contains(p[i].name@));
                let j = choose|j: int| 0 <= j < dp.len() && dp[j] == p[i].name@;
                assert(d[j] == dp[j]);
            }
        }
        assert forall|j: int| 0 <= j < d.len() implies exists|i: int|
            0 <= i < objs.len() && objs[i].kind == k && objs[i].name@ == #[trigger] d[j] by {
            if j < dp.len() {
                assert(d[j] == dp[j]);
                let i = choose|i: int|
                    0 <= i < p.len() && p[i].kind == k && p[i].name@ == #[trigger] dp[j];
                assert(objs[i] == p[i]);
            } else {
                assert(objs[objs.len() - 1].name@ == d[j]);
            }
        }
    }
}

} // verus!
