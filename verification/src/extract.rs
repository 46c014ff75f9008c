//! Telling a struct with named fields from everything else.
use vstd::prelude::*;
use crate::faultmsg::Problem;
use crate::syntax::{Data, DataView, DeclaredItem, FieldDecl, FieldDeclView, Fields, FieldsView};

verus! {

/// The fields of an item that is a struct, or the reason why it is none.
pub open spec fn struct_of(data: DataView) -> Result<FieldsView, Problem> {
    match data {
        DataView::Struct(fields) => Ok(fields),
        DataView::Enum => Err(Problem::NotAStruct),
        DataView::Union => Err(Problem::NotAStruct),
    }
}

/// The list of fields where they are named, or the reason why there is none.
pub open spec fn named_of(fields: FieldsView) -> Result<Seq<FieldDeclView>, Problem> {
    match fields {
        FieldsView::Named(named) => Ok(named),
        FieldsView::Unnamed => Err(Problem::UnnamedFields),
        FieldsView::Unit => Err(Problem::UnitStruct),
    }
}

/// The named fields of an item, or the reason why it has none: that it is no
/// struct comes before what its fields are.
pub open spec fn named_fields_of(data: DataView) -> Result<Seq<FieldDeclView>, Problem> {
    match struct_of(data) {
        Ok(fields) => named_of(fields),
        Err(problem) => Err(problem),
    }
}

/// The fields of a struct; an enum or a union is refused.
pub fn named_struct(node: &DeclaredItem) -> (r: Result<&Fields, Problem>)
    ensures
        match r {
            Ok(fields) => node.data == Data::Struct(*fields) && struct_of(node@.data) == Ok::<
                FieldsView,
                Problem,
            >(fields@),
            Err(problem) => struct_of(node@.data) == Err::<FieldsView, Problem>(problem),
        },
{
    match &node.data {
        Data::Struct(fields) => Ok(fields),
        Data::Enum => Err(Problem::NotAStruct),
        Data::Union => Err(Problem::NotAStruct),
    }
}

/// The list of named fields; positional fields and no fields are refused.
pub fn named_fields(fields: &Fields) -> (r: Result<&Vec<FieldDecl>, Problem>)
    ensures
        match r {
            Ok(named) => *fields == Fields::Named(*named) && named_of(fields@) == Ok::<
                Seq<FieldDeclView>,
                Problem,
            >(crate::syntax::field_views(named@)),
            Err(problem) => named_of(fields@) == Err::<Seq<FieldDeclView>, Problem>(problem),
        },
{
    match fields {
        Fields::Named(named) => Ok(named),
        Fields::Unnamed => Err(Problem::UnnamedFields),
        Fields::Unit => Err(Problem::UnitStruct),
    }
}

} // verus!
