use vstd::prelude::*;

use crate::decimal::push_decimal;
use crate::text::{
    assignments, delete_text, insert_text, join, lemma_join_step, placeholders, select_text,
    update_text, where_id_text,
};

verus! {

/// One field of a record, as declared: its name, and whether it is the
/// row identifier.
pub struct FieldDecl {
    pub name: String,
    pub is_id: bool,
}

/// Why a list of fields does not describe a record that statements can be
/// built for.
#[derive(Debug, Clone, Copy, PartialEq, Eq, Structural)]
pub enum SchemaError {
    /// No field is marked as the identifier.
    MissingId,
    /// More than one field is marked as the identifier.
    DuplicateId,
}

/// The field names of a list of declarations, in order.
pub open spec fn field_names(ds: Seq<FieldDecl>) -> Seq<Seq<char>> {
    Seq::new(ds.len(), |i: int| ds[i].name@)
}

/// The field at `k` is marked as the identifier.
pub open spec fn is_id_at(ds: Seq<FieldDecl>, k: int) -> bool {
    0 <= k < ds.len() && ds[k].is_id
}

/// The field at `k` is the one and only identifier.
pub open spec fn sole_id(ds: Seq<FieldDecl>, k: int) -> bool {
    is_id_at(ds, k) && forall|j: int| #![auto] 0 <= j < ds.len() && j != k ==> !ds[j].is_id
}

/// No field is marked as the identifier.
pub open spec fn no_id(ds: Seq<FieldDecl>) -> bool {
    forall|j: int| #![auto] 0 <= j < ds.len() ==> !ds[j].is_id
}

/// Two different fields are marked as the identifier.
pub open spec fn duplicate_id(ds: Seq<FieldDecl>) -> bool {
    exists|a: int, b: int| a != b && is_id_at(ds, a) && is_id_at(ds, b)
}

/// What a schema stands for: the field names in declaration order, and the
/// position of the identifier among them.
pub struct SchemaView {
    pub fields: Seq<Seq<char>>,
    pub id: nat,
}

/// A checked record description: a list of field names with exactly one
/// identifier among them.
pub struct Schema {
    fields: Vec<String>,
    id: usize,
}

impl View for Schema {
    type V = SchemaView;

    closed spec fn view(&self) -> SchemaView {
        SchemaView { fields: self.fields@.map_values(|f: String| f@), id: self.id as nat }
    }
}

impl Schema {
    #[verifier::type_invariant]
    spec fn inv(self) -> bool {
        self.id < self.fields.len()
    }

    /// Appends the field names, separated by `", "`.
    fn push_field_list(&self, s: &mut String)
        ensures
            final(s)@ == old(s)@ + join(self@.fields, ", "@),
    {
        let ghost items = self@.fields;
        let ghost s0 = s@;
        let mut i: usize = 0;
        while i < self.fields.len()
            invariant
                i <= self.fields.len(),
                items == self@.fields,
                items.len() == self.fields.len(),
                s@ == s0 + join(items.take(i as int), ", "@),
            decreases self.fields.len() - i,
        {
            proof {
                lemma_join_step(items, ", "@, i as int);
            }
            if i > 0 {
                s.append(", ");
            }
            s.append(self.fields[i].as_str());
            assert(s@ =~= s0 + join(items.take(i + 1), ", "@));
            i = i + 1;
        }
        assert(items.take(i as int) =~= items);
    }

    /// Appends `name = placeholder` for each field, separated by `", "`.
    fn push_assignments(&self, s: &mut String, prefix: &str)
        ensures
            final(s)@ == old(s)@ + join(assignments(self@.fields, prefix@), ", "@),
    {
        let ghost items = assignments(self@.fields, prefix@);
        let ghost s0 = s@;
        let mut i: usize = 0;
        while i < self.fields.len()
            invariant
                i <= self.fields.len(),
                items == assignments(self@.fields, prefix@),
                items.len() == self.fields.len(),
                s@ == s0 + join(items.take(i as int), ", "@),
            decreases self.fields.len() - i,
        {
            proof {
                lemma_join_step(items, ", "@, i as int);
            }
            if i > 0 {
                s.append(", ");
            }
            let ghost mid = s@;
            s.append(self.fields[i].as_str());
            s.append(" = ");
            s.append(prefix);
            push_decimal(s, i + 1);
            assert(s@ =~= mid + items[i as int]);
            assert(s@ =~= s0 + join(items.take(i + 1), ", "@));
            i = i + 1;
        }
        assert(items.take(i as int) =~= items);
    }

    /// Builds `INSERT INTO t (f1, ..., fn) VALUES (p1,...,pn);`.
    pub fn create_sql(&self, tbl_name: &str, param_prefix: &str) -> (r: String)
        ensures
            r@ == insert_text(self@.fields, tbl_name@, param_prefix@),
    {
        let mut s = String::new();
        s.append("INSERT INTO ");
        s.append(tbl_name);
        s.append(" (");
        self.push_field_list(&mut s);
        s.append(") VALUES (");
        push_placeholders(&mut s, param_prefix, self.fields.len());
        s.append(");");
        assert(s@ =~= insert_text(self@.fields, tbl_name@, param_prefix@));
        s
    }

    /// Builds `UPDATE t SET (f1 = p1, ..., fn = pn);`.
    pub fn update_sql(&self, tbl_name: &str, param_prefix: &str) -> (r: String)
        ensures
            r@ == update_text(self@.fields, tbl_name@, param_prefix@),
    {
        let mut s = String::new();
        s.append("UPDATE ");
        s.append(tbl_name);
        s.append(" SET (");
        self.push_assignments(&mut s, param_prefix);
        s.append(");");
        assert(s@ =~= update_text(self@.fields, tbl_name@, param_prefix@));
        s
    }

    /// Appends ` WHERE id = p1;` for the identifier field.
    fn push_where_id(&self, s: &mut String, prefix: &str)
        ensures
            self@.id < self@.fields.len(),
            final(s)@ == old(s)@ + where_id_text(self@.fields[self@.id as int], prefix@),
    {
        proof {
            use_type_invariant(self);
        }
        let ghost s0 = s@;
        s.append(" WHERE ");
        s.append(self.fields[self.id].as_str());
        s.append(" = ");
        s.append(prefix);
        push_decimal(s, 1);
        s.append(";");
        assert(s@ =~= s0 + where_id_text(self@.fields[self@.id as int], prefix@));
    }

    /// Builds `DELETE FROM t WHERE id = p1;`, `id` being the identifier field.
    pub fn delete_sql(&self, tbl_name: &str, param_prefix: &str) -> (r: String)
        ensures
            r@ == delete_text(self@.fields[self@.id as int], tbl_name@, param_prefix@),
    {
        let mut s = String::new();
        s.append("DELETE FROM ");
        s.append(tbl_name);
        self.push_where_id(&mut s, param_prefix);
        assert(s@ =~= delete_text(self@.fields[self@.id as int], tbl_name@, param_prefix@));
        s
    }

    /// Builds `SELECT f1, ..., fn FROM t WHERE id = p1;`, `id` being the
    /// identifier field.
    pub fn get_by_id_sql(&self, tbl_name: &str, param_prefix: &str) -> (r: String)
        ensures
            r@ == select_text(
                self@.fields,
                self@.fields[self@.id as int],
                tbl_name@,
                param_prefix@,
            ),
    {
        let mut s = String::new();
        s.append("SELECT ");
        self.push_field_list(&mut s);
        s.append(" FROM ");
        s.append(tbl_name);
        self.push_where_id(&mut s, param_prefix);
        assert(s@ =~= select_text(
            self@.fields,
            self@.fields[self@.id as int],
            tbl_name@,
            param_prefix@,
        ));
        s
    }
}

/// Appends the placeholders of `n` parameters, separated by `","`.
fn push_placeholders(s: &mut String, prefix: &str, n: usize)
    ensures
        final(s)@ == old(s)@ + join(placeholders(prefix@, n as nat), ","@),
{
    let ghost items = placeholders(prefix@, n as nat);
    let ghost s0 = s@;
    let mut i: usize = 0;
    while i < n
        invariant
            i <= n,
            items == placeholders(prefix@, n as nat),
            s@ == s0 + join(items.take(i as int), ","@),
        decreases n - i,
    {
        proof {
            lemma_join_step(items, ","@, i as int);
        }
        if i > 0 {
            s.append(",");
        }
        let ghost mid = s@;
        s.append(prefix);
        push_decimal(s, i + 1);
        assert(s@ =~= mid + items[i as int]);
        assert(s@ =~= s0 + join(items.take(i + 1), ","@));
        i = i + 1;
    }
    assert(items.take(i as int) =~= items);
}

/// Checks a list of field declarations and makes the schema that the
/// statements are built from. Exactly one field must be the identifier.
pub fn sql(decls: &Vec<FieldDecl>) -> (r: Result<Schema, SchemaError>)
    ensures
        match r {
            Ok(s) => s@.fields == field_names(decls@) && sole_id(decls@, s@.id as int),
            Err(SchemaError::MissingId) => no_id(decls@),
            Err(SchemaError::DuplicateId) => duplicate_id(decls@),
        },
{
    let mut fields: Vec<String> = Vec::new();
    let mut first: Option<usize> = None;
    let mut i: usize = 0;
    while i < decls.len()
        invariant
            i <= decls.len(),
            fields@.len() == i,
            forall|j: int| 0 <= j < i ==> #[trigger] fields@[j]@ == decls@[j].name@,
            match first {
                None => forall|j: int| #![auto] 0 <= j < i ==> !decls@[j].is_id,
                Some(k) => k < i && decls@[k as int].is_id && forall|j: int|
                    #![auto]
                    0 <= j < i && j != k ==> !decls@[j].is_id,
            },
        decreases decls.len() - i,
    {
        let d = &decls[i];
        if d.is_id {
            match first {
                None => {
                    first = Some(i);
                },
                Some(k) => {
                    assert(is_id_at(decls@, k as int) && is_id_at(decls@, i as int));
                    return Err(SchemaError::DuplicateId);
                },
            }
        }
        fields.push(d.name.clone());
        i = i + 1;
    }
    match first {
        None => Err(SchemaError::MissingId),
        Some(k) => {
            let s = Schema { fields, id: k };
            assert(s@.fields =~= field_names(decls@));
            Ok(s)
        },
    }
}

} // verus!
