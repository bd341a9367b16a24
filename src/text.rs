use vstd::prelude::*;

use crate::decimal::decimal;

verus! {

/// The items joined in order, with `sep` between each two neighbours.
pub open spec fn join(items: Seq<Seq<char>>, sep: Seq<char>) -> Seq<char>
    decreases items.len(),
{
    if items.len() == 0 {
        Seq::empty()
    } else if items.len() == 1 {
        items[0]
    } else {
        join(items.drop_last(), sep) + sep + items.last()
    }
}

/// The placeholder of the `k`-th parameter: the prefix, then `k` in decimal.
pub open spec fn placeholder(prefix: Seq<char>, k: nat) -> Seq<char> {
    prefix + decimal(k)
}

/// The placeholders of `n` parameters, numbered from one.
pub open spec fn placeholders(prefix: Seq<char>, n: nat) -> Seq<Seq<char>> {
    Seq::new(n, |i: int| placeholder(prefix, (i + 1) as nat))
}

/// `name = placeholder` for each field, numbered from one.
pub open spec fn assignments(fields: Seq<Seq<char>>, prefix: Seq<char>) -> Seq<Seq<char>> {
    Seq::new(fields.len(), |i: int| fields[i] + " = "@ + placeholder(prefix, (i + 1) as nat))
}

/// `INSERT INTO t (f1, ..., fn) VALUES (p1,...,pn);`
pub open spec fn insert_text(fields: Seq<Seq<char>>, table: Seq<char>, prefix: Seq<char>) -> Seq<
    char,
> {
    "INSERT INTO "@ + table + " ("@ + join(fields, ", "@) + ") VALUES ("@ + join(
        placeholders(prefix, fields.len()),
        ","@,
    ) + ");"@
}

/// `UPDATE t SET (f1 = p1, ..., fn = pn);`
pub open spec fn update_text(fields: Seq<Seq<char>>, table: Seq<char>, prefix: Seq<char>) -> Seq<
    char,
> {
    "UPDATE "@ + table + " SET ("@ + join(assignments(fields, prefix), ", "@) + ");"@
}

/// `WHERE id = p1;`
pub open spec fn where_id_text(id: Seq<char>, prefix: Seq<char>) -> Seq<char> {
    " WHERE "@ + id + " = "@ + placeholder(prefix, 1) + ";"@
}

/// `DELETE FROM t WHERE id = p1;`
pub open spec fn delete_text(id: Seq<char>, table: Seq<char>, prefix: Seq<char>) -> Seq<char> {
    "DELETE FROM "@ + table + where_id_text(id, prefix)
}

/// `SELECT f1, ..., fn FROM t WHERE id = p1;`
pub open spec fn select_text(
    fields: Seq<Seq<char>>,
    id: Seq<char>,
    table: Seq<char>,
    prefix: Seq<char>,
) -> Seq<char> {
    "SELECT "@ + join(fields, ", "@) + " FROM "@ + table + where_id_text(id, prefix)
}

/// Joining one more item adds the separator (unless it is the first) and the item.
pub proof fn lemma_join_step(items: Seq<Seq<char>>, sep: Seq<char>, i: int)
    requires
        0 <= i < items.len(),
    ensures
        join(items.take(i + 1), sep) == if i == 0 {
            items[0]
        } else {
            join(items.take(i), sep) + sep + items[i]
        },
{
    let t = items.take(i + 1);
    assert(t.drop_last() =~= items.take(i));
    assert(t.last() == items[i]);
}

} // verus!
