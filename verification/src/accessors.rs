//! The accessor generator: read, write and mutable-reference accessors,
//! selected field by field from the markers `get`, `set` and `all`.

use crate::declaration::{Declaration, DeclarationView, Field, FieldView, field_views};
use crate::fragment::{ImplBlock, ImplBlockView, Method, MethodKind, MethodView, method_views};
use crate::shape::{UnsupportedShape, get_fields, has_attribute};
use vstd::prelude::*;

verus! {

/// A field gets a read accessor when it carries `get`, `set` or `all`.
pub open spec fn is_readable(field: FieldView) -> bool {
    field.has_attribute("all"@) || field.has_attribute("set"@) || field.has_attribute("get"@)
}

/// A field gets a write accessor when it carries `set` or `all`.
pub open spec fn is_writable(field: FieldView) -> bool {
    field.has_attribute("all"@) || field.has_attribute("set"@)
}

/// A field gets a mutable-reference accessor when it carries `all`.
pub open spec fn is_exposed(field: FieldView) -> bool {
    field.has_attribute("all"@)
}

/// The read accessor of `field`: named like the field.
pub open spec fn getter(field: FieldView) -> MethodView {
    MethodView {
        kind: MethodKind::ReadAccessor,
        name: field.name,
        field: field.name,
        ty: field.ty,
    }
}

/// The write accessor of `field`: the field's name behind `set_`.
pub open spec fn setter(field: FieldView) -> MethodView {
    MethodView {
        kind: MethodKind::WriteAccessor,
        name: "set_"@ + field.name,
        field: field.name,
        ty: field.ty,
    }
}

/// The mutable-reference accessor of `field`: the field's name behind `mut_`.
pub open spec fn mutget(field: FieldView) -> MethodView {
    MethodView {
        kind: MethodKind::MutableAccessor,
        name: "mut_"@ + field.name,
        field: field.name,
        ty: field.ty,
    }
}

/// The one method, or none.
pub open spec fn optional(method: Option<MethodView>) -> Seq<MethodView> {
    match method {
        Some(m) => seq![m],
        None => Seq::empty(),
    }
}

/// The accessors of one field: those that its markers select, read before
/// write before mutable reference.
pub open spec fn field_accessors(field: FieldView) -> Seq<MethodView> {
    optional(if is_readable(field) { Some(getter(field)) } else { None })
        + optional(if is_writable(field) { Some(setter(field)) } else { None })
        + optional(if is_exposed(field) { Some(mutget(field)) } else { None })
}

/// The accessors of each field, one group for each, in declaration order.
pub open spec fn accessor_groups(fields: Seq<FieldView>) -> Seq<Seq<MethodView>> {
    Seq::new(fields.len(), |i: int| field_accessors(fields[i]))
}

/// All accessors of `fields`: the groups of the fields one behind the other.
pub open spec fn accessors(fields: Seq<FieldView>) -> Seq<MethodView> {
    accessor_groups(fields).flatten()
}

/// What the accessor pass comes to for `decl`: one implementation block on
/// the declared type itself or, for an unsupported shape, the diagnostic of
/// the abort and no output.
pub open spec fn accessor_block(decl: DeclarationView) -> Result<ImplBlockView, UnsupportedShape> {
    match decl.body.named_fields() {
        Ok(fields) => Ok(
            ImplBlockView {
                generics: decl.generics,
                target: decl.name,
                methods: accessors(fields),
            },
        ),
        Err(e) => Err(e),
    }
}

/// The read accessor of `field`, if one of `get`, `set`, `all` is attached.
pub fn derive_getter_function(field: &Field) -> (r: Option<Method>)
    ensures
        r is Some <==> is_readable(field@),
        r matches Some(m) ==> m@ == getter(field@),
{
    if !has_attribute(field, "all") && !has_attribute(field, "set") && !has_attribute(
        field,
        "get",
    ) {
        return None;
    }
    Some(
        Method {
            kind: MethodKind::ReadAccessor,
            name: field.name.clone(),
            field: field.name.clone(),
            ty: field.ty.clone(),
        },
    )
}

/// The write accessor of `field`, if `set` or `all` is attached.
pub fn derive_setter_function(field: &Field) -> (r: Option<Method>)
    ensures
        r is Some <==> is_writable(field@),
        r matches Some(m) ==> m@ == setter(field@),
{
    if !has_attribute(field, "all") && !has_attribute(field, "set") {
        return None;
    }
    let mut name = "set_".to_owned();
    name.append(field.name.as_str());
    Some(
        Method {
            kind: MethodKind::WriteAccessor,
            name,
            field: field.name.clone(),
            ty: field.ty.clone(),
        },
    )
}

/// The mutable-reference accessor of `field`, if `all` is attached.
pub fn derive_mutget_function(field: &Field) -> (r: Option<Method>)
    ensures
        r is Some <==> is_exposed(field@),
        r matches Some(m) ==> m@ == mutget(field@),
{
    if !has_attribute(field, "all") {
        return None;
    }
    let mut name = "mut_".to_owned();
    name.append(field.name.as_str());
    Some(
        Method {
            kind: MethodKind::MutableAccessor,
            name,
            field: field.name.clone(),
            ty: field.ty.clone(),
        },
    )
}

/// Appends `method`, if there is one.
fn push_optional(methods: &mut Vec<Method>, method: Option<Method>)
    ensures
        method_views(final(methods)@) == method_views(old(methods)@) + optional(
            match method {
                Some(m) => Some(m@),
                None => None,
            },
        ),
{
    match method {
        Some(m) => {
            methods.push(m);
            assert(method_views(methods@) =~= method_views(old(methods)@) + seq![m@]);
        },
        None => {
            assert(method_views(methods@) =~= method_views(old(methods)@) + Seq::empty());
        },
    }
}

/// The accessor generator. It demands a struct with named fields and returns
/// one implementation block on the declared type, with the declaration's
/// generic parameters, that holds the accessors of every field in declaration
/// order and, for each field, in the order read, write, mutable reference.
pub fn derive_get_set(decl: &Declaration) -> (r: ImplBlock)
    requires
        decl@.body is Named,
    ensures
        Ok::<ImplBlockView, UnsupportedShape>(r@) == accessor_block(decl@),
{
    let fields = get_fields(decl);
    let ghost views = field_views(fields@);
    let mut methods: Vec<Method> = Vec::new();
    let mut i: usize = 0;
    assert(accessor_groups(views.take(0)) =~= Seq::<Seq<MethodView>>::empty());
    assert(method_views(methods@) =~= Seq::<MethodView>::empty());
    while i < fields.len()
        invariant
            i <= fields.len(),
            views == field_views(fields@),
            method_views(methods@) == accessors(views.take(i as int)),
        decreases fields.len() - i,
    {
        let field = &fields[i];
        let ghost before = method_views(methods@);
        push_optional(&mut methods, derive_getter_function(field));
        push_optional(&mut methods, derive_setter_function(field));
        push_optional(&mut methods, derive_mutget_function(field));
        proof {
            let group = field_accessors(field@);
            assert(method_views(methods@) =~= before + group);
            assert(accessor_groups(views.take(i + 1)) =~= accessor_groups(views.take(i as int)).push(
                group,
            ));
            accessor_groups(views.take(i as int)).lemma_flatten_push(group);
        }
        i += 1;
    }
    assert(views.take(i as int) =~= views);
    ImplBlock { generics: decl.generics.copy(), target: decl.name.clone(), methods }
}

} // verus!
