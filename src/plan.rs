use vstd::prelude::*;
use crate::columns::{columns, columns_of};
use crate::decl::{Column, FieldDecl, ModelError, RecordData, RecordDecl, column_texts};
use crate::sql::{
    create_table_sql, create_table_text, drop_table_sql, drop_table_text, insert_sql, insert_text,
};
use crate::text::{table_name, table_name_of, texts};

verus! {

/// Everything the persistence code of one record type is made of.
pub struct ModelPlan {
    /// The record type's name.
    pub record: String,
    /// The name of the table that holds the records.
    pub table: String,
    /// The field names, in the order of the declaration: the order of the
    /// columns and of the insert statement's parameters.
    pub fields: Vec<String>,
    /// The statement that creates the table.
    pub create_table: String,
    /// The statement that drops the table where it exists.
    pub drop_table: String,
    /// The statement that inserts one record, with one parameter per field.
    pub insert: String,
}

/// The fields of a declaration, or why it has none that can be stored.
pub open spec fn fields_of(decl: RecordDecl) -> Result<Seq<FieldDecl>, ModelError> {
    match decl.data {
        RecordData::Named(fs) => Ok(fs@),
        RecordData::Unnamed => Err(ModelError::UnnamedFields),
        RecordData::NotStruct => Err(ModelError::NotStruct),
    }
}

/// Why no persistence code can be planned for `decl`, if it cannot.
pub open spec fn plan_error(decl: RecordDecl) -> Option<ModelError> {
    match fields_of(decl) {
        Err(e) => Some(e),
        Ok(fs) => match columns_of(fs) {
            Err(e) => Some(e),
            Ok(_) => None,
        },
    }
}

/// The columns of the table for `decl`, where it can be stored.
pub open spec fn planned_columns(decl: RecordDecl) -> Seq<(Seq<char>, Seq<char>)> {
    match fields_of(decl) {
        Ok(fs) => match columns_of(fs) {
            Ok(cols) => cols,
            Err(_) => Seq::empty(),
        },
        Err(_) => Seq::empty(),
    }
}

/// The names of the columns.
pub open spec fn column_names(cols: Seq<(Seq<char>, Seq<char>)>) -> Seq<Seq<char>> {
    cols.map_values(|c: (Seq<char>, Seq<char>)| c.0)
}

/// `p` is the plan for `decl`, whose fields give the columns `cols`.
pub open spec fn is_plan_for(p: ModelPlan, decl: RecordDecl, cols: Seq<(Seq<char>, Seq<char>)>) -> bool {
    let table = table_name_of(decl.name@);
    &&& p.record@ == decl.name@
    &&& p.table@ == table
    &&& texts(p.fields@) == column_names(cols)
    &&& p.create_table@ == create_table_text(table, cols)
    &&& p.drop_table@ == drop_table_text(table)
    &&& p.insert@ == insert_text(table, column_names(cols))
}

/// Plans the persistence code of the record declared by `decl`.
pub fn plan_model(decl: &RecordDecl) -> (r: Result<ModelPlan, ModelError>)
    ensures
        r is Err <==> plan_error(*decl) is Some,
        match r {
            Ok(p) => is_plan_for(p, *decl, planned_columns(*decl)),
            Err(e) => plan_error(*decl) == Some(e),
        },
{
    let fields = match &decl.data {
        RecordData::Named(fs) => fs,
        RecordData::Unnamed => {
            return Err(ModelError::UnnamedFields);
        },
        RecordData::NotStruct => {
            return Err(ModelError::NotStruct);
        },
    };
    let cols = match columns(fields) {
        Ok(c) => c,
        Err(e) => {
            return Err(e);
        },
    };
    let ghost cv = column_texts(cols@);
    let mut names: Vec<String> = Vec::new();
    let mut i: usize = 0;
    while i < cols.len()
        invariant
            i <= cols.len(),
            cv == column_texts(cols@),
            texts(names@) =~= column_names(cv).take(i as int),
        decreases cols.len() - i,
    {
        let ghost before = names@;
        let n = cols[i].name.clone();
        names.push(n);
        assert(texts(names@) =~= texts(before).push(n@));
        assert(column_names(cv).take(i + 1) =~= column_names(cv).take(i as int).push(n@));
        i = i + 1;
    }
    assert(texts(names@) =~= column_names(cv));
    let table = table_name(decl.name.as_str());
    let create_table = create_table_sql(table.as_str(), &cols);
    let drop_table = drop_table_sql(table.as_str());
    let insert = insert_sql(table.as_str(), &names);
    let p = ModelPlan {
        record: decl.name.clone(),
        table,
        fields: names,
        create_table,
        drop_table,
        insert,
    };
    assert(is_plan_for(p, *decl, cv));
    Ok(p)
}

} // verus!
