use vstd::prelude::*;
use crate::decl::{Column, column_texts};
use crate::text::{append_comma_list, comma_list, texts};

verus! {

/// A table name in double quotes.
pub open spec fn quoted(table: Seq<char>) -> Seq<char> {
    "\""@ + table + "\""@
}

/// Each column written as its name, a space and its SQL type.
pub open spec fn column_defs(cols: Seq<(Seq<char>, Seq<char>)>) -> Seq<Seq<char>> {
    cols.map_values(|c: (Seq<char>, Seq<char>)| c.0 + " "@ + c.1)
}

/// `CREATE TABLE "table" (name type, ...)`.
pub open spec fn create_table_text(table: Seq<char>, cols: Seq<(Seq<char>, Seq<char>)>) -> Seq<char> {
    "CREATE TABLE "@ + quoted(table) + " ("@ + comma_list(column_defs(cols)) + ")"@
}

/// `DROP TABLE IF EXISTS "table"`.
pub open spec fn drop_table_text(table: Seq<char>) -> Seq<char> {
    "DROP TABLE IF EXISTS "@ + quoted(table)
}

/// One `?` parameter for each of `n` values.
pub open spec fn placeholders(n: nat) -> Seq<Seq<char>> {
    Seq::new(n, |i: int| "?"@)
}

/// `INSERT INTO "table" (name, ...) VALUES (?, ...)`, one `?` per name.
pub open spec fn insert_text(table: Seq<char>, names: Seq<Seq<char>>) -> Seq<char> {
    "INSERT INTO "@ + quoted(table) + " ("@ + comma_list(names) + ") VALUES ("@
        + comma_list(placeholders(names.len())) + ")"@
}

/// The statement that creates the table `table` with the columns `cols`.
pub fn create_table_sql(table: &str, cols: &Vec<Column>) -> (r: String)
    ensures
        r@ == create_table_text(table@, column_texts(cols@)),
{
    let mut defs: Vec<String> = Vec::new();
    let mut i: usize = 0;
    while i < cols.len()
        invariant
            i <= cols.len(),
            texts(defs@) =~= column_defs(column_texts(cols@)).take(i as int),
        decreases cols.len() - i,
    {
        let mut d = cols[i].name.clone();
        d.append(" ");
        d.append(cols[i].sql_type.as_str());
        let ghost before = defs@;
        defs.push(d);
        assert(texts(defs@) =~= texts(before).push(d@));
        assert(column_defs(column_texts(cols@)).take(i + 1) =~= column_defs(column_texts(cols@)).take(
            i as int,
        ).push(d@));
        i = i + 1;
    }
    let mut r = String::from_str("CREATE TABLE ");
    r.append("\"");
    r.append(table);
    r.append("\"");
    r.append(" (");
    append_comma_list(&mut r, &defs);
    r.append(")");
    assert(texts(defs@) =~= column_defs(column_texts(cols@)));
    assert(r@ =~= create_table_text(table@, column_texts(cols@)));
    r
}

/// The statement that drops the table `table` where it exists.
pub fn drop_table_sql(table: &str) -> (r: String)
    ensures
        r@ == drop_table_text(table@),
{
    let mut r = String::from_str("DROP TABLE IF EXISTS ");
    r.append("\"");
    r.append(table);
    r.append("\"");
    assert(r@ =~= drop_table_text(table@));
    r
}

/// The statement that inserts a row into the table `table`, with one
/// parameter for each of the columns `names`.
pub fn insert_sql(table: &str, names: &Vec<String>) -> (r: String)
    ensures
        r@ == insert_text(table@, texts(names@)),
{
    let mut marks: Vec<String> = Vec::new();
    let mut i: usize = 0;
    while i < names.len()
        invariant
            i <= names.len(),
            texts(marks@) =~= placeholders(i as nat),
        decreases names.len() - i,
    {
        let ghost before = marks@;
        let m = String::from_str("?");
        marks.push(m);
        assert(texts(marks@) =~= texts(before).push(m@));
        assert(placeholders(i as nat + 1) =~= placeholders(i as nat).push(m@));
        i = i + 1;
    }
    let mut r = String::from_str("INSERT INTO ");
    r.append("\"");
    r.append(table);
    r.append("\"");
    r.append(" (");
    append_comma_list(&mut r, names);
    r.append(") VALUES (");
    append_comma_list(&mut r, &marks);
    r.append(")");
    assert(r@ =~= insert_text(table@, texts(names@)));
    r
}

} // verus!
