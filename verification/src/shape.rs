//! The shape test, the field extractor and the marker predicate shared by
//! both generators.

use crate::declaration::{Body, BodyView, Declaration, Field, FieldView, field_views};
use vstd::prelude::*;

verus! {

/// The one failure of this library: the declaration has a shape from which
/// no methods can be generated. The variant tells which of the two causes holds.
#[derive(Debug, Clone, Copy, PartialEq, Eq, Structural)]
pub enum UnsupportedShape {
    /// The declaration is an enumeration or a union.
    NotAStruct,
    /// The declaration is a struct with positional fields or with none.
    UnnamedFields,
}

impl UnsupportedShape {
    /// The text of the diagnostic.
    pub open spec fn message_text(self) -> Seq<char> {
        match self {
            UnsupportedShape::NotAStruct => "Can't derive functions from a non-struct"@,
            UnsupportedShape::UnnamedFields => "Can't derive functions from unnamed fields"@,
        }
    }

    /// The diagnostic to report at the declaration.
    pub fn message(&self) -> (r: String)
        ensures
            r@ == self.message_text(),
    {
        match self {
            UnsupportedShape::NotAStruct => "Can't derive functions from a non-struct".to_owned(),
            UnsupportedShape::UnnamedFields => {
                "Can't derive functions from unnamed fields".to_owned()
            },
        }
    }
}

impl BodyView {
    /// The named fields of a struct, or the reason why there are none.
    pub open spec fn named_fields(self) -> Result<Seq<FieldView>, UnsupportedShape> {
        match self {
            BodyView::Named(fields) => Ok(fields),
            BodyView::Unnamed | BodyView::Unit => Err(UnsupportedShape::UnnamedFields),
            BodyView::Enum | BodyView::Union => Err(UnsupportedShape::NotAStruct),
        }
    }

    /// Why no methods can be generated, or nothing for a struct with named
    /// fields.
    pub open spec fn unsupported(self) -> Option<UnsupportedShape> {
        match self.named_fields() {
            Ok(_) => None,
            Err(e) => Some(e),
        }
    }
}

/// The shape test. Both generators demand a struct with named fields; this
/// tells whether `decl` is one and, where it is not, which diagnostic the
/// caller aborts with: that of an enumeration or a union, or that of a struct
/// with positional fields or with none.
pub fn unsupported_shape(decl: &Declaration) -> (r: Option<UnsupportedShape>)
    ensures
        r == decl@.body.unsupported(),
        r is None <==> decl@.body is Named,
        r matches Some(e) ==> decl@.body.named_fields() == Err::<Seq<FieldView>, _>(e),
{
    match &decl.body {
        Body::Named(_) => None,
        Body::Unnamed => Some(UnsupportedShape::UnnamedFields),
        Body::Unit => Some(UnsupportedShape::UnnamedFields),
        Body::Enum => Some(UnsupportedShape::NotAStruct),
        Body::Union => Some(UnsupportedShape::NotAStruct),
    }
}

/// The field extractor: the named fields of `decl`, in declaration order.
/// A declaration of any other shape is outside what it accepts; the caller
/// makes the shape test first and aborts where it fails.
pub fn get_fields(decl: &Declaration) -> (r: &Vec<Field>)
    requires
        decl@.body is Named,
    ensures
        decl.body == Body::Named(*r),
        decl@.body.named_fields() == Ok::<_, UnsupportedShape>(field_views(r@)),
{
    match &decl.body {
        Body::Named(fields) => fields,
        _ => unreached(),
    }
}

/// Tells whether the marker `name` is attached to `field`: whether one of its
/// annotations is exactly the identifier `name`. Arguments of an annotation do
/// not count, and a longer path or a longer identifier does not match.
pub fn has_attribute(field: &Field, name: &str) -> (r: bool)
    ensures
        r == field@.has_attribute(name@),
{
    let mut i: usize = 0;
    while i < field.attrs.len()
        invariant
            i <= field.attrs.len(),
            forall|j: int| 0 <= j < i ==> !(#[trigger] field@.attrs[j]).is_ident(name@),
        decreases field.attrs.len() - i,
    {
        if field.attrs[i].is_ident(name) {
            assert(field@.attrs[i as int].is_ident(name@));
            return true;
        }
        i += 1;
    }
    false
}

} // verus!
