use vstd::prelude::*;

verus! {

/// How a field's type is written in the record's declaration.
pub enum FieldType {
    /// A path made of one plain name, such as `bool` or `String`.
    Name(String),
    /// Any other path: several segments, a leading `::` or generic arguments.
    Path,
    /// A type that is not a path at all (a reference, a tuple, an array, ...).
    Other,
}

/// One named field of a record.
pub struct FieldDecl {
    /// The field's name.
    pub name: String,
    /// How the field's type is written.
    pub ty: FieldType,
    /// The column type given for the field by hand, as SQL text, if any.
    pub sql_type: Option<String>,
}

/// What a declaration holds.
pub enum RecordData {
    /// A struct with named fields, in the order of the declaration.
    Named(Vec<FieldDecl>),
    /// A tuple struct or a unit struct.
    Unnamed,
    /// An enum or a union.
    NotStruct,
}

/// A record type's declaration: its name and what it holds.
pub struct RecordDecl {
    /// The type's name.
    pub name: String,
    /// Its fields, or what it is instead of a struct with named fields.
    pub data: RecordData,
}

/// Why no persistence code can be planned for a declaration.
#[derive(PartialEq, Eq, Structural, Debug, Clone, Copy)]
pub enum ModelError {
    /// The declaration is not a struct.
    NotStruct,
    /// The struct's fields have no names.
    UnnamedFields,
    /// The field at this position has a plain type name with no SQL type.
    UnknownType { field: usize },
    /// The field at this position has a type path that is not one plain name.
    UnsupportedTypePath { field: usize },
    /// The field at this position has a type that is not a path.
    UnsupportedType { field: usize },
}

/// A column of the table: a field's name and its SQL type.
pub struct Column {
    /// The column's name, which is the field's name.
    pub name: String,
    /// The column's SQL type.
    pub sql_type: String,
}

/// The name and SQL type of each column.
pub open spec fn column_texts(cols: Seq<Column>) -> Seq<(Seq<char>, Seq<char>)> {
    cols.map_values(|c: Column| (c.name@, c.sql_type@))
}

} // verus!
