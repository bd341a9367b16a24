use vstd::prelude::*;

use crate::decimal::{decimal, decimal_value, lemma_decimal_value};
use crate::schema::{duplicate_id, field_names, is_id_at, no_id, sole_id, FieldDecl, SchemaView};
use crate::text::{
    assignments, delete_text, insert_text, placeholders, select_text, update_text,
};

verus! {

/// Every list of declarations falls under exactly one of three cases: one
/// sole identifier, no identifier, or two or more identifiers. So [`sql`]
/// fails exactly when the number of identifier fields is not one.
///
/// [`sql`]: crate::sql
pub proof fn lemma_id_cases(ds: Seq<FieldDecl>)
    ensures
        (exists|k: int| sole_id(ds, k)) || no_id(ds) || duplicate_id(ds),
        !(no_id(ds) && duplicate_id(ds)),
        forall|k: int| sole_id(ds, k) ==> !no_id(ds) && !duplicate_id(ds),
{
    if !no_id(ds) {
        let k = choose|k: int| 0 <= k < ds.len() && ds[k].is_id;
        if !sole_id(ds, k) {
            let j = choose|j: int| 0 <= j < ds.len() && j != k && ds[j].is_id;
            assert(is_id_at(ds, j) && is_id_at(ds, k));
        }
    }
    assert forall|k: int| sole_id(ds, k) implies !no_id(ds) && !duplicate_id(ds) by {
        assert(ds[k].is_id);
        if duplicate_id(ds) {
            let (a, b) = choose|a: int, b: int|
                a != b && is_id_at(ds, a) && is_id_at(ds, b);
            if a == k {
                assert(!ds[b].is_id);
            } else {
                assert(!ds[a].is_id);
            }
        }
    }
}

/// What a successful check of a list of declarations yields is fixed by
/// that list: two schemas made from the same declarations are equal, and
/// so is every statement built from them for the same table and prefix.
pub proof fn lemma_generation_repeatable(
    ds: Seq<FieldDecl>,
    a: SchemaView,
    b: SchemaView,
    table: Seq<char>,
    prefix: Seq<char>,
)
    requires
        a.fields == field_names(ds),
        sole_id(ds, a.id as int),
        b.fields == field_names(ds),
        sole_id(ds, b.id as int),
    ensures
        a == b,
        insert_text(a.fields, table, prefix) == insert_text(b.fields, table, prefix),
        update_text(a.fields, table, prefix) == update_text(b.fields, table, prefix),
        delete_text(a.fields[a.id as int], table, prefix) == delete_text(
            b.fields[b.id as int],
            table,
            prefix,
        ),
        select_text(a.fields, a.fields[a.id as int], table, prefix) == select_text(
            b.fields,
            b.fields[b.id as int],
            table,
            prefix,
        ),
{
    if a.id != b.id {
        assert(ds[b.id as int].is_id);
    }
}

/// Placeholders are numbered from one, in field order: the `i`-th holds the
/// prefix and then the decimal text of `i + 1`, which reads back as `i + 1`.
/// The numbers depend on the position of a field alone, never on its name.
pub proof fn lemma_placeholder_numbering(fields: Seq<Seq<char>>, prefix: Seq<char>)
    ensures
        placeholders(prefix, fields.len()).len() == fields.len(),
        assignments(fields, prefix).len() == fields.len(),
        forall|i: int|
            #![trigger placeholders(prefix, fields.len())[i]]
            0 <= i < fields.len() ==> placeholders(prefix, fields.len())[i] == prefix + decimal(
                (i + 1) as nat,
            ) && decimal_value(decimal((i + 1) as nat)) == i + 1,
        forall|i: int|
            #![trigger assignments(fields, prefix)[i]]
            0 <= i < fields.len() ==> assignments(fields, prefix)[i] == fields[i] + " = "@
                + placeholders(prefix, fields.len())[i],
        forall|other: Seq<Seq<char>>|
            #![trigger placeholders(prefix, other.len())]
            other.len() == fields.len() ==> placeholders(prefix, other.len()) == placeholders(
                prefix,
                fields.len(),
            ),
{
    assert forall|i: int|
        #![trigger placeholders(prefix, fields.len())[i]]
        0 <= i < fields.len() implies placeholders(prefix, fields.len())[i] == prefix + decimal(
            (i + 1) as nat,
        ) && decimal_value(decimal((i + 1) as nat)) == i + 1 by {
        lemma_decimal_value((i + 1) as nat);
    }
}

} // verus!
