//! The data model of an annotated type declaration.

use vstd::prelude::*;

verus! {

/// The path of one annotation attached to a field, such as `get` in `#[get]`
/// or `serde::rename` in `#[serde::rename = "x"]`. Arguments of the annotation
/// are not part of the model: no generator reads them.
#[derive(Debug, Clone, PartialEq, Eq)]
pub struct Attribute {
    /// Whether the path starts with `::`.
    pub leading_colon: bool,
    /// The identifiers of the path, in order.
    pub segments: Vec<String>,
}

/// Mathematical value of an [`Attribute`].
pub struct AttributeView {
    pub leading_colon: bool,
    pub segments: Seq<Seq<char>>,
}

impl AttributeView {
    /// The path is the single identifier `name`: no leading `::`, exactly one
    /// segment, and that segment is `name`.
    pub open spec fn is_ident(self, name: Seq<char>) -> bool {
        &&& !self.leading_colon
        &&& self.segments.len() == 1
        &&& self.segments[0] == name
    }
}

impl View for Attribute {
    type V = AttributeView;

    open spec fn view(&self) -> AttributeView {
        AttributeView {
            leading_colon: self.leading_colon,
            segments: self.segments.deep_view(),
        }
    }
}

impl Attribute {
    /// The annotation whose path is the single identifier `name`.
    pub fn ident(name: &str) -> (r: Attribute)
        ensures
            r@.is_ident(name@),
            r@ == (AttributeView { leading_colon: false, segments: seq![name@] }),
    {
        let mut segments: Vec<String> = Vec::new();
        segments.push(name.to_owned());
        let r = Attribute { leading_colon: false, segments };
        assert(r@.segments =~= seq![name@]);
        r
    }

    /// Whether this annotation is exactly the identifier `name`.
    pub fn is_ident(&self, name: &str) -> (r: bool)
        ensures
            r == self@.is_ident(name@),
    {
        if self.leading_colon || self.segments.len() != 1 {
            return false;
        }
        assert(self.segments.deep_view()[0] == self.segments[0]@);
        let wanted = name.to_owned();
        self.segments[0] == wanted
    }
}

/// One named member of a declaration.
#[derive(Debug, Clone, PartialEq, Eq)]
pub struct Field {
    /// The identifier as written, a raw identifier with its `r#`.
    pub name: String,
    /// The declared type expression, as source text.
    pub ty: String,
    /// The annotations attached to the field, in source order.
    pub attrs: Vec<Attribute>,
}

/// Mathematical value of a [`Field`].
pub struct FieldView {
    pub name: Seq<char>,
    pub ty: Seq<char>,
    pub attrs: Seq<AttributeView>,
}

impl FieldView {
    /// The marker `name` is attached: some annotation of the field is exactly
    /// that identifier.
    pub open spec fn has_attribute(self, name: Seq<char>) -> bool {
        exists|i: int| 0 <= i < self.attrs.len() && (#[trigger] self.attrs[i]).is_ident(name)
    }
}

impl View for Field {
    type V = FieldView;

    open spec fn view(&self) -> FieldView {
        FieldView {
            name: self.name@,
            ty: self.ty@,
            attrs: Seq::new(self.attrs@.len(), |i: int| self.attrs@[i]@),
        }
    }
}

/// The generic parameters of a declaration, split into the three places
/// where an implementation block spells them.
#[derive(Debug, Clone, PartialEq, Eq)]
pub struct Generics {
    /// The parameters with their bounds, as they follow `impl`; empty or `<..>`.
    pub impl_generics: String,
    /// The bare parameters, as they follow the type's name; empty or `<..>`.
    pub type_generics: String,
    /// The `where` clause with its keyword, or empty.
    pub where_clause: String,
}

/// Mathematical value of [`Generics`].
pub struct GenericsView {
    pub impl_generics: Seq<char>,
    pub type_generics: Seq<char>,
    pub where_clause: Seq<char>,
}

impl View for Generics {
    type V = GenericsView;

    open spec fn view(&self) -> GenericsView {
        GenericsView {
            impl_generics: self.impl_generics@,
            type_generics: self.type_generics@,
            where_clause: self.where_clause@,
        }
    }
}

impl Generics {
    /// A copy with the same three texts.
    pub fn copy(&self) -> (r: Generics)
        ensures
            r@ == self@,
    {
        Generics {
            impl_generics: self.impl_generics.clone(),
            type_generics: self.type_generics.clone(),
            where_clause: self.where_clause.clone(),
        }
    }
}

/// What a declaration declares.
#[derive(Debug, Clone, PartialEq, Eq)]
pub enum Body {
    /// A struct with named fields, in declaration order.
    Named(Vec<Field>),
    /// A struct with positional fields.
    Unnamed,
    /// A struct without fields.
    Unit,
    /// An enumeration.
    Enum,
    /// A union.
    Union,
}

/// Mathematical value of a [`Body`].
pub enum BodyView {
    Named(Seq<FieldView>),
    Unnamed,
    Unit,
    Enum,
    Union,
}

/// The views of `fields`, in order.
pub open spec fn field_views(fields: Seq<Field>) -> Seq<FieldView> {
    Seq::new(fields.len(), |i: int| fields[i]@)
}

impl View for Body {
    type V = BodyView;

    open spec fn view(&self) -> BodyView {
        match self {
            Body::Named(fields) => BodyView::Named(field_views(fields@)),
            Body::Unnamed => BodyView::Unnamed,
            Body::Unit => BodyView::Unit,
            Body::Enum => BodyView::Enum,
            Body::Union => BodyView::Union,
        }
    }
}

/// An annotated type declaration: the input of both generators.
#[derive(Debug, Clone, PartialEq, Eq)]
pub struct Declaration {
    /// The visibility qualifier as source text; empty for a private type.
    pub visibility: String,
    /// The type's identifier.
    pub name: String,
    /// The generic parameters.
    pub generics: Generics,
    /// The kind of type and, for a struct with named fields, its fields.
    pub body: Body,
}

/// Mathematical value of a [`Declaration`].
pub struct DeclarationView {
    pub visibility: Seq<char>,
    pub name: Seq<char>,
    pub generics: GenericsView,
    pub body: BodyView,
}

impl View for Declaration {
    type V = DeclarationView;

    open spec fn view(&self) -> DeclarationView {
        DeclarationView {
            visibility: self.visibility@,
            name: self.name@,
            generics: self.generics@,
            body: self.body@,
        }
    }
}

} // verus!
