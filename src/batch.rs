//! The statement batches the mirror loader issues.
use vstd::prelude::*;
use vstd::string::StringExecFns;
use crate::catalog::{lemma_texts_push, texts};

verus! {

/// The alias under which the source connection sees the attached mirror.
pub open spec fn mirror_alias() -> Seq<char> {
    "db"@
}

/// The statements `stmts`, each followed by a semicolon, one after another.
pub open spec fn terminated_all(stmts: Seq<Seq<char>>) -> Seq<char>
    decreases stmts.len(),
{
    if stmts.len() == 0 {
        Seq::empty()
    } else {
        terminated_all(stmts.drop_last()) + stmts.last() + ";"@
    }
}

/// A batch that runs `stmts` in order inside a single transaction.
pub open spec fn transaction_spec(stmts: Seq<Seq<char>>) -> Seq<char> {
    "BEGIN TRANSACTION;"@ + terminated_all(stmts) + "END TRANSACTION;"@
}

/// The statement that copies every row of the source table `table` into the
/// mirror's table of the same name.
pub open spec fn copy_spec(table: Seq<char>) -> Seq<char> {
    "INSERT INTO "@ + mirror_alias() + "."@ + table + " SELECT * FROM main."@ + table
}

/// The copy statements for the tables `tables`, in order.
pub open spec fn copies_spec(tables: Seq<Seq<char>>) -> Seq<Seq<char>> {
    tables.map_values(|t: Seq<char>| copy_spec(t))
}

/// Wraps the statements in one transaction: `BEGIN TRANSACTION;`, each
/// statement followed by `;`, then `END TRANSACTION;`. Either every statement
/// takes effect or none does.
pub fn transaction_batch(stmts: &Vec<String>) -> (r: String)
    ensures
        r@ == transaction_spec(texts(stmts@)),
{
    let mut r = String::from_str("BEGIN TRANSACTION;");
    let mut i: usize = 0;
    while i < stmts.len()
        invariant
            i <= stmts@.len(),
            r@ == "BEGIN TRANSACTION;"@ + terminated_all(texts(stmts@.subrange(0, i as int))),
        decreases stmts@.len() - i,
    {
        proof {
            let a = texts(stmts@.subrange(0, i + 1));
            assert(a.drop_last() =~= texts(stmts@.subrange(0, i as int)));
            assert(a.last() == stmts@[i as int]@);
        }
        r.append(stmts[i].as_str());
        r.append(";");
        proof {
            let a = texts(stmts@.subrange(0, i + 1));
            assert(r@ =~= "BEGIN TRANSACTION;"@ + terminated_all(a));
        }
        i = i + 1;
    }
    proof {
        assert(stmts@.subrange(0, i as int) =~= stmts@);
    }
    r.append("END TRANSACTION;");
    r
}

/// The statement that copies all rows of `table` from the source store into
/// the attached mirror.
pub fn copy_statement(table: &str) -> (r: String)
    ensures
        r@ == copy_spec(table@),
{
    let mut r = String::from_str("INSERT INTO ");
    r.append("db");
    r.append(".");
    r.append(table);
    r.append(" SELECT * FROM main.");
    r.append(table);
    r
}

/// The statement that attaches the mirror, given as its one bound parameter,
/// to the source connection under the mirror alias.
pub fn attach_statement() -> (r: String)
    ensures
        r@ == "ATTACH DATABASE ? as "@ + mirror_alias(),
{
    let mut r = String::from_str("ATTACH DATABASE ? as ");
    r.append("db");
    r
}

/// One copy statement for each table, in the order given.
pub fn copy_statements(tables: &Vec<String>) -> (r: Vec<String>)
    ensures
        texts(r@) == copies_spec(texts(tables@)),
{
    let mut r: Vec<String> = Vec::new();
    let mut i: usize = 0;
    while i < tables.len()
        invariant
            i <= tables@.len(),
            texts(r@) == copies_spec(texts(tables@.subrange(0, i as int))),
        decreases tables@.len() - i,
    {
        let s = copy_statement(tables[i].as_str());
        proof {
            lemma_texts_push(r@, s);
            assert(texts(tables@.subrange(0, i + 1)) =~= texts(tables@.subrange(0, i as int)).push(
                tables@[i as int]@,
            ));
            assert(copies_spec(texts(tables@.subrange(0, i + 1))) =~= copies_spec(
                texts(tables@.subrange(0, i as int)),
            ).push(copy_spec(tables@[i as int]@)));
        }
        r.push(s);
        i = i + 1;
    }
    proof {
        assert(tables@.subrange(0, i as int) =~= tables@);
    }
    r
}

/// The batch that copies every table, in one transaction.
pub fn data_copy_batch(tables: &Vec<String>) -> (r: String)
    ensures
        r@ == transaction_spec(copies_spec(texts(tables@))),
{
    let copies = copy_statements(tables);
    transaction_batch(&copies)
}

/// The copy batch holds one statement per table, the `i`-th copying the
/// `i`-th table into the mirror table of the same name, and nothing else.
pub proof fn lemma_copy_per_table(tables: Seq<Seq<char>>)
    ensures
        copies_spec(tables).len() == tables.len(),
        forall|i: int| 0 <= i < tables.len() ==> #[trigger] copies_spec(tables)[i] == copy_spec(tables[i]),
{
}

} // verus!
