use vstd::prelude::*;
use crate::decl::{Column, FieldDecl, FieldType, ModelError, column_texts};

verus! {

/// The SQL type of a `bool` field.
pub open spec fn bool_sql() -> Seq<char> {
    "BOOL NOT NULL"@
}

/// The SQL type of a `String` field.
pub open spec fn text_sql() -> Seq<char> {
    "TEXT NOT NULL"@
}

/// The SQL type of the field `f`, which stands at position `index`: the type
/// given by hand if there is one, else the type that its Rust type maps to.
pub open spec fn field_sql_type_of(f: FieldDecl, index: usize) -> Result<Seq<char>, ModelError> {
    match f.sql_type {
        Some(t) => Ok(t@),
        None => match f.ty {
            FieldType::Name(n) => if n@ == "bool"@ {
                Ok(bool_sql())
            } else if n@ == "String"@ {
                Ok(text_sql())
            } else {
                Err(ModelError::UnknownType { field: index })
            },
            FieldType::Path => Err(ModelError::UnsupportedTypePath { field: index }),
            FieldType::Other => Err(ModelError::UnsupportedType { field: index }),
        },
    }
}

/// The SQL type of the field `f`, which stands at position `index` of its record.
pub fn field_sql_type(f: &FieldDecl, index: usize) -> (r: Result<String, ModelError>)
    ensures
        match r {
            Ok(t) => field_sql_type_of(*f, index) == Ok::<Seq<char>, ModelError>(t@),
            Err(e) => field_sql_type_of(*f, index) == Err::<Seq<char>, ModelError>(e),
        },
{
    match &f.sql_type {
        Some(t) => Ok(t.clone()),
        None => match &f.ty {
            FieldType::Name(n) => {
                if *n == String::from_str("bool") {
                    Ok(String::from_str("BOOL NOT NULL"))
                } else if *n == String::from_str("String") {
                    Ok(String::from_str("TEXT NOT NULL"))
                } else {
                    Err(ModelError::UnknownType { field: index })
                }
            },
            FieldType::Path => Err(ModelError::UnsupportedTypePath { field: index }),
            FieldType::Other => Err(ModelError::UnsupportedType { field: index }),
        },
    }
}

/// The columns of a record with the fields `fields`, one per field in order,
/// or the error of the first field that has no SQL type.
pub open spec fn columns_of(fields: Seq<FieldDecl>) -> Result<Seq<(Seq<char>, Seq<char>)>, ModelError>
    decreases fields.len(),
{
    if fields.len() == 0 {
        Ok(Seq::empty())
    } else {
        match columns_of(fields.drop_last()) {
            Err(e) => Err(e),
            Ok(cols) => match field_sql_type_of(fields.last(), (fields.len() - 1) as usize) {
                Err(e) => Err(e),
                Ok(t) => Ok(cols.push((fields.last().name@, t))),
            },
        }
    }
}

/// The columns of the table for a record with the fields `fields`.
pub fn columns(fields: &Vec<FieldDecl>) -> (r: Result<Vec<Column>, ModelError>)
    ensures
        match r {
            Ok(cols) => columns_of(fields@) == Ok::<_, ModelError>(column_texts(cols@)),
            Err(e) => columns_of(fields@) == Err::<Seq<(Seq<char>, Seq<char>)>, _>(e),
        },
{
    let mut cols: Vec<Column> = Vec::new();
    let mut i: usize = 0;
    assert(fields@.take(0) =~= Seq::<FieldDecl>::empty());
    assert(column_texts(cols@) =~= Seq::empty());
    while i < fields.len()
        invariant
            i <= fields.len(),
            columns_of(fields@.take(i as int)) == Ok::<_, ModelError>(column_texts(cols@)),
        decreases fields.len() - i,
    {
        let ghost prefix = fields@.take(i as int);
        assert(fields@.take(i + 1).drop_last() =~= prefix);
        let f = &fields[i];
        match field_sql_type(f, i) {
            Err(e) => {
                proof {
                    lemma_columns_error_stays(fields@, i as int + 1);
                }
                return Err(e);
            },
            Ok(t) => {
                let ghost old_cols = cols@;
                cols.push(Column { name: f.name.clone(), sql_type: t });
                assert(column_texts(cols@) =~= column_texts(old_cols).push((f.name@, t@)));
            },
        }
        i = i + 1;
    }
    assert(fields@.take(fields.len() as int) =~= fields@);
    Ok(cols)
}

/// Once a field has no SQL type, neither has any longer prefix of the fields.
proof fn lemma_columns_error_stays(fields: Seq<FieldDecl>, n: int)
    requires
        0 <= n <= fields.len(),
        columns_of(fields.take(n)) is Err,
    ensures
        columns_of(fields) == columns_of(fields.take(n)),
    decreases fields.len() - n,
{
    if n < fields.len() {
        assert(fields.take(n + 1).drop_last() =~= fields.take(n));
        lemma_columns_error_stays(fields, n + 1);
    } else {
        assert(fields.take(n) =~= fields);
    }
}

} // verus!
