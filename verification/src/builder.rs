//! The builder generator: a wrapper type around the declared type, one
//! chainable setter for every field and a finalizer.

use crate::declaration::{Declaration, DeclarationView, Field, FieldView, field_views};
use crate::fragment::{
    BuilderFragment, BuilderFragmentView, ImplBlock, ImplBlockView, Method, MethodKind,
    MethodView, WrapperType, WrapperTypeView, method_views,
};
use crate::shape::{UnsupportedShape, get_fields};
use vstd::prelude::*;

verus! {

/// The wrapper's identifier: the declared identifier followed by `Builder`.
pub open spec fn builder_name(name: Seq<char>) -> Seq<char> {
    name + "Builder"@
}

/// The setter of `field`: named like the field, whatever is attached to it.
pub open spec fn builder_setter(field: FieldView) -> MethodView {
    MethodView {
        kind: MethodKind::BuilderSetter,
        name: field.name,
        field: field.name,
        ty: field.ty,
    }
}

/// The setters of `fields`, one for each, in declaration order.
pub open spec fn builder_setters(fields: Seq<FieldView>) -> Seq<MethodView> {
    Seq::new(fields.len(), |i: int| builder_setter(fields[i]))
}

/// The finalizer of the builder of `decl`: `build`, which returns the declared
/// type with its type parameters.
pub open spec fn finalizer(decl: DeclarationView) -> MethodView {
    MethodView {
        kind: MethodKind::BuilderFinalizer,
        name: "build"@,
        field: Seq::empty(),
        ty: decl.name + decl.generics.type_generics,
    }
}

/// What the builder pass comes to for `decl`: the wrapper type and its
/// implementation block, which holds the finalizer and then the setters; or,
/// for an unsupported shape, the diagnostic of the abort and no output.
pub open spec fn builder_fragment(decl: DeclarationView) -> Result<
    BuilderFragmentView,
    UnsupportedShape,
> {
    match decl.body.named_fields() {
        Ok(fields) => Ok(
            BuilderFragmentView {
                wrapper: WrapperTypeView {
                    visibility: decl.visibility,
                    name: builder_name(decl.name),
                    generics: decl.generics,
                    wrapped: decl.name,
                },
                implementation: ImplBlockView {
                    generics: decl.generics,
                    target: builder_name(decl.name),
                    methods: seq![finalizer(decl)] + builder_setters(fields),
                },
            },
        ),
        Err(e) => Err(e),
    }
}

/// The chainable setter of `field`. Every field has one: markers are not read.
pub fn derive_builder_function(field: &Field) -> (r: Method)
    ensures
        r@ == builder_setter(field@),
{
    Method {
        kind: MethodKind::BuilderSetter,
        name: field.name.clone(),
        field: field.name.clone(),
        ty: field.ty.clone(),
    }
}

/// The builder generator. It demands a struct with named fields and returns
/// the wrapper type, named by the declared identifier followed by `Builder`
/// and as visible as the declaration, and the implementation block on that
/// wrapper: first the finalizer `build`, then one setter for each field in
/// declaration order. Both carry the declaration's generic parameters.
pub fn derive_builder(decl: &Declaration) -> (r: BuilderFragment)
    requires
        decl@.body is Named,
    ensures
        Ok::<BuilderFragmentView, UnsupportedShape>(r@) == builder_fragment(decl@),
{
    let fields = get_fields(decl);
    let ghost views = field_views(fields@);
    let mut builder_name = decl.name.clone();
    builder_name.append("Builder");
    let mut returned = decl.name.clone();
    returned.append(decl.generics.type_generics.as_str());
    let mut methods: Vec<Method> = Vec::new();
    methods.push(
        Method {
            kind: MethodKind::BuilderFinalizer,
            name: "build".to_owned(),
            field: String::new(),
            ty: returned,
        },
    );
    let mut i: usize = 0;
    while i < fields.len()
        invariant
            i <= fields.len(),
            views == field_views(fields@),
            methods@.len() == i + 1,
            methods@[0]@ == finalizer(decl@),
            forall|k: int| 1 <= k <= i ==> (#[trigger] methods@[k])@ == builder_setter(views[k - 1]),
        decreases fields.len() - i,
    {
        methods.push(derive_builder_function(&fields[i]));
        i += 1;
    }
    assert(method_views(methods@) =~= seq![finalizer(decl@)] + builder_setters(views));
    BuilderFragment {
        wrapper: WrapperType {
            visibility: decl.visibility.clone(),
            name: builder_name.clone(),
            generics: decl.generics.copy(),
            wrapped: decl.name.clone(),
        },
        implementation: ImplBlock { generics: decl.generics.copy(), target: builder_name, methods },
    }
}

} // verus!
