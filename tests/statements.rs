use crudcreator::{push_decimal, sql, FieldDecl, Schema, SchemaError};

fn decl(name: &str, is_id: bool) -> FieldDecl {
    FieldDecl { name: name.to_string(), is_id }
}

fn schema_of(names: &[&str], id: usize) -> Schema {
    let fields: Vec<FieldDecl> = names.iter().enumerate().map(|(i, n)| decl(n, i == id)).collect();
    sql(&fields).unwrap()
}

#[test]
fn persons_scenario() {
    let s = schema_of(&["id", "name"], 0);
    assert_eq!(s.create_sql("persons", "$"), "INSERT INTO persons (id, name) VALUES ($1,$2);");
    assert_eq!(s.delete_sql("persons", "$"), "DELETE FROM persons WHERE id = $1;");
}

#[test]
fn other_prefix() {
    let s = schema_of(&["id", "name"], 0);
    assert_eq!(s.create_sql("persons", "@P"), "INSERT INTO persons (id, name) VALUES (@P1,@P2);");
    assert_eq!(s.update_sql("persons", "@P"), "UPDATE persons SET (id = @P1, name = @P2);");
    assert_eq!(s.delete_sql("persons", "@P"), "DELETE FROM persons WHERE id = @P1;");
    assert_eq!(s.get_by_id_sql("persons", "@P"), "SELECT id, name FROM persons WHERE id = @P1;");
}

#[test]
fn identifier_not_first() {
    let s = schema_of(&["name", "key", "age"], 1);
    assert_eq!(s.create_sql("T", "$"), "INSERT INTO T (name, key, age) VALUES ($1,$2,$3);");
    assert_eq!(s.update_sql("T", "$"), "UPDATE T SET (name = $1, key = $2, age = $3);");
    assert_eq!(s.delete_sql("T", "$"), "DELETE FROM T WHERE key = $1;");
    assert_eq!(s.get_by_id_sql("T", "$"), "SELECT name, key, age FROM T WHERE key = $1;");
}

#[test]
fn single_field() {
    let s = schema_of(&["id"], 0);
    assert_eq!(s.create_sql("T", "$"), "INSERT INTO T (id) VALUES ($1);");
    assert_eq!(s.update_sql("T", "$"), "UPDATE T SET (id = $1);");
    assert_eq!(s.delete_sql("T", "$"), "DELETE FROM T WHERE id = $1;");
    assert_eq!(s.get_by_id_sql("T", "$"), "SELECT id FROM T WHERE id = $1;");
}

#[test]
fn numbering_past_nine() {
    let names = ["a", "b", "c", "d", "e", "f", "g", "h", "i", "j", "k", "l"];
    let s = schema_of(&names, 0);
    assert_eq!(
        s.create_sql("T", "$"),
        "INSERT INTO T (a, b, c, d, e, f, g, h, i, j, k, l) \
         VALUES ($1,$2,$3,$4,$5,$6,$7,$8,$9,$10,$11,$12);"
    );
    assert_eq!(
        s.update_sql("T", "$"),
        "UPDATE T SET (a = $1, b = $2, c = $3, d = $4, e = $5, f = $6, g = $7, h = $8, \
         i = $9, j = $10, k = $11, l = $12);"
    );
}

#[test]
fn numbering_ignores_field_names() {
    let s = schema_of(&["x9", "$3", "a, b"], 2);
    assert_eq!(s.create_sql("T", "$"), "INSERT INTO T (x9, $3, a, b) VALUES ($1,$2,$3);");
    assert_eq!(s.update_sql("T", "$"), "UPDATE T SET (x9 = $1, $3 = $2, a, b = $3);");
}

#[test]
fn repeated_generation_is_identical() {
    let a = schema_of(&["id", "name", "age"], 0);
    let b = schema_of(&["id", "name", "age"], 0);
    assert_eq!(a.create_sql("T", "$"), a.create_sql("T", "$"));
    assert_eq!(a.create_sql("T", "$"), b.create_sql("T", "$"));
    assert_eq!(a.update_sql("T", "$"), b.update_sql("T", "$"));
    assert_eq!(a.delete_sql("T", "$"), b.delete_sql("T", "$"));
    assert_eq!(a.get_by_id_sql("T", "$"), b.get_by_id_sql("T", "$"));
}

#[test]
fn missing_identifier() {
    let fields = vec![decl("id", false), decl("name", false)];
    assert_eq!(sql(&fields).err(), Some(SchemaError::MissingId));
}

#[test]
fn empty_field_list() {
    let fields: Vec<FieldDecl> = vec![];
    assert_eq!(sql(&fields).err(), Some(SchemaError::MissingId));
}

#[test]
fn duplicate_identifier() {
    let fields = vec![decl("id", true), decl("name", false), decl("key", true)];
    assert_eq!(sql(&fields).err(), Some(SchemaError::DuplicateId));
}

#[test]
fn decimal_text() {
    let mut s = String::from("n=");
    push_decimal(&mut s, 0);
    assert_eq!(s, "n=0");
    let mut s = String::new();
    push_decimal(&mut s, 10);
    assert_eq!(s, "10");
    let mut s = String::new();
    push_decimal(&mut s, 12345);
    assert_eq!(s, "12345");
    let mut s = String::new();
    push_decimal(&mut s, usize::MAX);
    assert_eq!(s, usize::MAX.to_string());
}
