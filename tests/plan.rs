use rusqlite_model::{
    append_comma_list, columns, create_table_sql, drop_table_sql, field_sql_type, insert_sql,
    plan_model, table_name, Column, FieldDecl, FieldType, ModelError, RecordData, RecordDecl,
};

fn field(name: &str, ty: &str) -> FieldDecl {
    FieldDecl { name: name.to_string(), ty: FieldType::Name(ty.to_string()), sql_type: None }
}

fn record(name: &str, fields: Vec<FieldDecl>) -> RecordDecl {
    RecordDecl { name: name.to_string(), data: RecordData::Named(fields) }
}

#[test]
fn table_name_is_lowercase_plural() {
    assert_eq!(table_name("Transaction"), "transactions");
    assert_eq!(table_name("HTTPLog"), "httplogs");
    assert_eq!(table_name("user_2"), "user_2s");
    assert_eq!(table_name(""), "s");
}

#[test]
fn table_name_keeps_non_ascii() {
    assert_eq!(table_name("ÄÖx"), "ÄÖxs");
}

#[test]
fn bool_and_string_map_to_sql() {
    assert_eq!(field_sql_type(&field("done", "bool"), 0), Ok("BOOL NOT NULL".to_string()));
    assert_eq!(field_sql_type(&field("memo", "String"), 1), Ok("TEXT NOT NULL".to_string()));
}

#[test]
fn hand_given_sql_type_wins() {
    let mut f = field("amount", "i64");
    f.sql_type = Some("INTEGER NOT NULL".to_string());
    assert_eq!(field_sql_type(&f, 0), Ok("INTEGER NOT NULL".to_string()));
    let g = FieldDecl { name: "x".to_string(), ty: FieldType::Other, sql_type: Some("BLOB".to_string()) };
    assert_eq!(field_sql_type(&g, 0), Ok("BLOB".to_string()));
}

#[test]
fn unknown_type_name_is_an_error() {
    assert_eq!(field_sql_type(&field("n", "i32"), 4), Err(ModelError::UnknownType { field: 4 }));
    assert_eq!(field_sql_type(&field("n", "string"), 0), Err(ModelError::UnknownType { field: 0 }));
}

#[test]
fn long_path_and_other_types_are_errors() {
    let p = FieldDecl { name: "p".to_string(), ty: FieldType::Path, sql_type: None };
    assert_eq!(field_sql_type(&p, 2), Err(ModelError::UnsupportedTypePath { field: 2 }));
    let o = FieldDecl { name: "o".to_string(), ty: FieldType::Other, sql_type: None };
    assert_eq!(field_sql_type(&o, 1), Err(ModelError::UnsupportedType { field: 1 }));
}

#[test]
fn columns_in_field_order() {
    let cols = columns(&vec![field("memo", "String"), field("done", "bool")]).unwrap();
    assert_eq!(cols.len(), 2);
    assert_eq!(cols[0].name, "memo");
    assert_eq!(cols[0].sql_type, "TEXT NOT NULL");
    assert_eq!(cols[1].name, "done");
    assert_eq!(cols[1].sql_type, "BOOL NOT NULL");
}

#[test]
fn columns_report_first_bad_field() {
    let fields = vec![
        field("a", "bool"),
        field("b", "u8"),
        FieldDecl { name: "c".to_string(), ty: FieldType::Other, sql_type: None },
    ];
    assert_eq!(columns(&fields).err(), Some(ModelError::UnknownType { field: 1 }));
}

#[test]
fn no_fields_no_columns() {
    assert_eq!(columns(&vec![]).unwrap().len(), 0);
}

#[test]
fn comma_list_joins() {
    let mut r = "(".to_string();
    append_comma_list(&mut r, &vec!["a".to_string(), "b".to_string(), "c".to_string()]);
    assert_eq!(r, "(a, b, c");
    let mut e = "x".to_string();
    append_comma_list(&mut e, &vec![]);
    assert_eq!(e, "x");
}

#[test]
fn create_table_statement() {
    let cols = vec![
        Column { name: "memo".to_string(), sql_type: "TEXT NOT NULL".to_string() },
        Column { name: "done".to_string(), sql_type: "BOOL NOT NULL".to_string() },
    ];
    assert_eq!(
        create_table_sql("notes", &cols),
        "CREATE TABLE \"notes\" (memo TEXT NOT NULL, done BOOL NOT NULL)"
    );
}

#[test]
fn drop_table_statement() {
    assert_eq!(drop_table_sql("notes"), "DROP TABLE IF EXISTS \"notes\"");
}

#[test]
fn insert_statement() {
    let names = vec!["memo".to_string(), "done".to_string(), "id".to_string()];
    assert_eq!(insert_sql("notes", &names), "INSERT INTO \"notes\" (memo, done, id) VALUES (?, ?, ?)");
    assert_eq!(insert_sql("t", &vec!["a".to_string()]), "INSERT INTO \"t\" (a) VALUES (?)");
}

#[test]
fn plan_for_a_record() {
    let mut amount = field("amount", "i64");
    amount.sql_type = Some("INTEGER NOT NULL".to_string());
    let decl = record("Transaction", vec![field("memo", "String"), amount, field("cleared", "bool")]);
    let p = plan_model(&decl).unwrap();
    assert_eq!(p.record, "Transaction");
    assert_eq!(p.table, "transactions");
    assert_eq!(p.fields, vec!["memo".to_string(), "amount".to_string(), "cleared".to_string()]);
    assert_eq!(
        p.create_table,
        "CREATE TABLE \"transactions\" (memo TEXT NOT NULL, amount INTEGER NOT NULL, cleared BOOL NOT NULL)"
    );
    assert_eq!(p.drop_table, "DROP TABLE IF EXISTS \"transactions\"");
    assert_eq!(p.insert, "INSERT INTO \"transactions\" (memo, amount, cleared) VALUES (?, ?, ?)");
}

#[test]
fn plan_for_a_record_without_fields() {
    let p = plan_model(&record("Empty", vec![])).unwrap();
    assert_eq!(p.table, "emptys");
    assert_eq!(p.fields.len(), 0);
    assert_eq!(p.create_table, "CREATE TABLE \"emptys\" ()");
    assert_eq!(p.insert, "INSERT INTO \"emptys\" () VALUES ()");
}

#[test]
fn plan_rejects_enums_and_tuple_structs() {
    let e = RecordDecl { name: "E".to_string(), data: RecordData::NotStruct };
    assert_eq!(plan_model(&e).err(), Some(ModelError::NotStruct));
    let t = RecordDecl { name: "T".to_string(), data: RecordData::Unnamed };
    assert_eq!(plan_model(&t).err(), Some(ModelError::UnnamedFields));
}

#[test]
fn plan_rejects_unmapped_field() {
    let decl = record("Row", vec![field("ok", "bool"), field("n", "u32")]);
    assert_eq!(plan_model(&decl).err(), Some(ModelError::UnknownType { field: 1 }));
}
