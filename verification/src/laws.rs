//! Laws of the two generators, proved from the definitions of what they produce.

use crate::accessors::{
    accessor_block, accessor_groups, accessors, field_accessors, getter, is_exposed,
    is_readable, is_writable, mutget, setter,
};
use crate::builder::{builder_fragment, builder_setter, builder_setters, finalizer};
use crate::declaration::{DeclarationView, FieldView};
use crate::fragment::{
    BuilderFragment, BuilderFragmentView, ImplBlock, ImplBlockView, MethodKind, MethodView,
};
use crate::render::{builder_text, impl_text};
use crate::shape::UnsupportedShape;
use vstd::prelude::*;
use vstd::seq_lib::lemma_flatten_concat;

verus! {

/// The marker table. A field that carries `all` has the three accessors; one
/// that carries `set` but not `all` has the read and the write accessor; one
/// that carries only `get` has the read accessor; one that carries none of the
/// three has no accessor. Other annotations change nothing.
pub proof fn lemma_marker_table(field: FieldView)
    ensures
        field.has_attribute("all"@) ==> field_accessors(field) == seq![
            getter(field),
            setter(field),
            mutget(field),
        ],
        !field.has_attribute("all"@) && field.has_attribute("set"@) ==> field_accessors(field)
            == seq![getter(field), setter(field)],
        !field.has_attribute("all"@) && !field.has_attribute("set"@) && field.has_attribute(
            "get"@,
        ) ==> field_accessors(field) == seq![getter(field)],
        !field.has_attribute("all"@) && !field.has_attribute("set"@) && !field.has_attribute(
            "get"@,
        ) ==> field_accessors(field) == Seq::<MethodView>::empty(),
{
    let group = field_accessors(field);
    if field.has_attribute("all"@) {
        assert(group =~= seq![getter(field), setter(field), mutget(field)]);
    } else if field.has_attribute("set"@) {
        assert(group =~= seq![getter(field), setter(field)]);
    } else if field.has_attribute("get"@) {
        assert(group =~= seq![getter(field)]);
    } else {
        assert(group =~= Seq::<MethodView>::empty());
    }
}

/// Each kind of accessor is generated exactly for the fields whose markers
/// select it, and at most once for a field.
pub proof fn lemma_accessor_selection(field: FieldView)
    ensures
        field_accessors(field).contains(getter(field)) <==> is_readable(field),
        field_accessors(field).contains(setter(field)) <==> is_writable(field),
        field_accessors(field).contains(mutget(field)) <==> is_exposed(field),
        field_accessors(field).len() == (if is_readable(field) { 1int } else { 0 }) + (
        if is_writable(field) { 1int } else { 0 }) + (if is_exposed(field) { 1int } else { 0 }),
        forall|k: int| 0 <= k < field_accessors(field).len() ==> {
            let m = #[trigger] field_accessors(field)[k];
            m == getter(field) || m == setter(field) || m == mutget(field)
        },
{
    lemma_marker_table(field);
    let group = field_accessors(field);
    if field.has_attribute("all"@) {
        assert(group[0] == getter(field) && group[1] == setter(field) && group[2] == mutget(field));
    } else if field.has_attribute("set"@) {
        assert(group[0] == getter(field) && group[1] == setter(field));
    } else if field.has_attribute("get"@) {
        assert(group[0] == getter(field));
    }
}

/// The accessors of two runs of fields, one behind the other, are the
/// accessors of the first run followed by those of the second.
pub proof fn lemma_accessors_concat(first: Seq<FieldView>, second: Seq<FieldView>)
    ensures
        accessors(first + second) == accessors(first) + accessors(second),
{
    assert(accessor_groups(first + second) =~= accessor_groups(first) + accessor_groups(second));
    lemma_flatten_concat(accessor_groups(first), accessor_groups(second));
}

/// A method is among the accessors of `fields` exactly if it is an accessor of
/// one of them.
pub proof fn lemma_accessor_membership(fields: Seq<FieldView>, method: MethodView)
    ensures
        accessors(fields).contains(method) <==> exists|i: int|
            0 <= i < fields.len() && (#[trigger] field_accessors(fields[i])).contains(method),
    decreases fields.len(),
{
    if fields.len() == 0 {
        assert(accessor_groups(fields) =~= Seq::<Seq<MethodView>>::empty());
        assert(accessors(fields) =~= Seq::<MethodView>::empty());
    } else {
        let front = fields.drop_last();
        let last = fields.last();
        assert(fields =~= front + seq![last]);
        lemma_accessors_concat(front, seq![last]);
        lemma_accessor_membership(front, method);
        assert(accessor_groups(seq![last]) =~= seq![field_accessors(last)]);
        accessor_groups(seq![last]).lemma_flatten_singleton();
        let whole = accessors(front) + field_accessors(last);
        assert(accessors(fields) == whole);
        if whole.contains(method) {
            let k = choose|k: int| 0 <= k < whole.len() && whole[k] == method;
            if k < accessors(front).len() {
                assert(accessors(front)[k] == method);
                assert(accessors(front).contains(method));
                let i = choose|i: int|
                    0 <= i < front.len() && (#[trigger] field_accessors(front[i])).contains(method);
                assert(fields[i] == front[i]);
            } else {
                assert(field_accessors(last)[k - accessors(front).len()] == method);
                assert(field_accessors(fields[fields.len() - 1]).contains(method));
            }
        }
        if exists|i: int|
            0 <= i < fields.len() && (#[trigger] field_accessors(fields[i])).contains(method) {
            let i = choose|i: int|
                0 <= i < fields.len() && (#[trigger] field_accessors(fields[i])).contains(method);
            if i < front.len() {
                assert(fields[i] == front[i]);
                assert(accessors(front).contains(method));
                let k = choose|k: int| 0 <= k < accessors(front).len() && accessors(front)[k] == method;
                assert(whole[k] == method);
            } else {
                let group = field_accessors(last);
                let k = choose|k: int| 0 <= k < group.len() && group[k] == method;
                assert(whole[accessors(front).len() + k] == method);
            }
        }
    }
}

/// `fields` in another order: position `k` holds the field that stood at
/// `order[k]`.
pub open spec fn reordered(fields: Seq<FieldView>, order: Seq<int>) -> Seq<FieldView> {
    Seq::new(order.len(), |k: int| fields[order[k]])
}

/// Accessors follow their fields. When the fields of a declaration are put in
/// another order, the groups of accessors stand in that same order, each
/// unchanged, and the generated methods are those groups one behind the other.
pub proof fn lemma_accessor_order(fields: Seq<FieldView>, order: Seq<int>)
    requires
        forall|k: int| 0 <= k < order.len() ==> 0 <= #[trigger] order[k] < fields.len(),
    ensures
        accessor_groups(reordered(fields, order)) == Seq::new(
            order.len(),
            |k: int| accessor_groups(fields)[order[k]],
        ),
        accessors(reordered(fields, order)) == Seq::new(
            order.len(),
            |k: int| accessor_groups(fields)[order[k]],
        ).flatten(),
{
    assert(accessor_groups(reordered(fields, order)) =~= Seq::new(
        order.len(),
        |k: int| accessor_groups(fields)[order[k]],
    ));
}

/// Builder setters follow their fields. When the fields of a declaration are
/// put in another order, the setters stand in that same order, each unchanged.
pub proof fn lemma_builder_order(fields: Seq<FieldView>, order: Seq<int>)
    requires
        forall|k: int| 0 <= k < order.len() ==> 0 <= #[trigger] order[k] < fields.len(),
    ensures
        builder_setters(reordered(fields, order)) == Seq::new(
            order.len(),
            |k: int| builder_setters(fields)[order[k]],
        ),
{
    assert(builder_setters(reordered(fields, order)) =~= Seq::new(
        order.len(),
        |k: int| builder_setters(fields)[order[k]],
    ));
}

/// The builder of a struct with named fields holds one finalizer, which comes
/// first, and behind it exactly one setter for each field, in declaration
/// order and named like the field.
pub proof fn lemma_builder_methods(decl: DeclarationView)
    requires
        decl.body is Named,
    ensures
        builder_fragment(decl) is Ok,
        ({
            let fields = decl.body->Named_0;
            let methods = builder_fragment(decl)->Ok_0.implementation.methods;
            &&& methods.len() == fields.len() + 1
            &&& methods[0] == finalizer(decl)
            &&& methods[0].kind == MethodKind::BuilderFinalizer
            &&& forall|i: int|
                0 <= i < fields.len() ==> {
                    let m = #[trigger] methods[i + 1];
                    &&& m == builder_setter(fields[i])
                    &&& m.kind == MethodKind::BuilderSetter
                    &&& m.name == fields[i].name
                    &&& m.field == fields[i].name
                    &&& m.ty == fields[i].ty
                }
        }),
{
}

/// The builder generator reads no marker: two declarations that differ only in
/// what is attached to their fields have the same builder.
pub proof fn lemma_builder_ignores_attributes(a: DeclarationView, b: DeclarationView)
    requires
        a.visibility == b.visibility,
        a.name == b.name,
        a.generics == b.generics,
        a.body is Named,
        b.body is Named,
        a.body->Named_0.len() == b.body->Named_0.len(),
        forall|i: int|
            0 <= i < a.body->Named_0.len() ==> {
                &&& (#[trigger] a.body->Named_0[i]).name == b.body->Named_0[i].name
                &&& a.body->Named_0[i].ty == b.body->Named_0[i].ty
            },
    ensures
        builder_fragment(a) == builder_fragment(b),
{
    assert(builder_setters(a.body->Named_0) =~= builder_setters(b.body->Named_0));
}

/// The fatal path. The shape test passes exactly the structs with named
/// fields, which are exactly the declarations that the generators accept and
/// for which the passes have an output. For any other declaration the shape
/// test gives the diagnostic, the same for both passes, and neither pass has
/// an output: an enumeration or a union is no struct, a struct with
/// positional fields or with none has no named fields.
pub proof fn lemma_unsupported_shape_is_fatal(decl: DeclarationView)
    ensures
        decl.body is Named <==> decl.body.unsupported() is None,
        decl.body is Named <==> accessor_block(decl) is Ok,
        decl.body is Named <==> builder_fragment(decl) is Ok,
        decl.body is Enum || decl.body is Union ==> {
            &&& decl.body.unsupported() == Some(UnsupportedShape::NotAStruct)
            &&& accessor_block(decl) matches Err(e) && e == UnsupportedShape::NotAStruct
            &&& builder_fragment(decl) matches Err(e) && e == UnsupportedShape::NotAStruct
        },
        decl.body is Unnamed || decl.body is Unit ==> {
            &&& decl.body.unsupported() == Some(UnsupportedShape::UnnamedFields)
            &&& accessor_block(decl) matches Err(e) && e == UnsupportedShape::UnnamedFields
            &&& builder_fragment(decl) matches Err(e) && e == UnsupportedShape::UnnamedFields
        },
{
}

/// Running the accessor generator twice on one declaration gives the same
/// block and the same source text.
pub proof fn lemma_accessor_generator_is_deterministic(
    decl: DeclarationView,
    first: ImplBlock,
    second: ImplBlock,
)
    requires
        accessor_block(decl) == Ok::<ImplBlockView, UnsupportedShape>(first@),
        accessor_block(decl) == Ok::<ImplBlockView, UnsupportedShape>(second@),
    ensures
        first@ == second@,
        impl_text(first@) == impl_text(second@),
{
}

/// Running the builder generator twice on one declaration gives the same
/// fragment and the same source text.
pub proof fn lemma_builder_generator_is_deterministic(
    decl: DeclarationView,
    first: BuilderFragment,
    second: BuilderFragment,
)
    requires
        builder_fragment(decl) == Ok::<BuilderFragmentView, UnsupportedShape>(first@),
        builder_fragment(decl) == Ok::<BuilderFragmentView, UnsupportedShape>(second@),
    ensures
        first@ == second@,
        builder_text(first@) == builder_text(second@),
{
}

/// A value of the declared struct, seen as what each field holds: a map from
/// the field's name to its content.
pub type Record<V> = Map<Seq<char>, V>;

/// The fields of `fields` have names of their own, as those of a struct have.
pub open spec fn distinct_names(fields: Seq<FieldView>) -> bool {
    forall|i: int, j: int|
        0 <= i < fields.len() && 0 <= j < fields.len() && i != j ==> (#[trigger] fields[i]).name != (
        #[trigger] fields[j]).name
}

/// What a call of `setter` with `value` does to the wrapped value: it assigns
/// the setter's field and leaves the others.
pub open spec fn assign<V>(wrapped: Record<V>, setter: MethodView, value: V) -> Record<V> {
    wrapped.insert(setter.field, value)
}

/// What a call of the finalizer hands out: the wrapped value, as it is.
pub open spec fn finish<V>(wrapped: Record<V>) -> Record<V> {
    wrapped
}

/// The wrapped value after a chain of calls on a builder that started from
/// `start`: call `k` is that of the setter of field `calls[k]`, with
/// `values[calls[k]]`.
pub open spec fn chain<V>(
    start: Record<V>,
    setters: Seq<MethodView>,
    values: Seq<V>,
    calls: Seq<int>,
) -> Record<V>
    decreases calls.len(),
{
    if calls.len() == 0 {
        start
    } else {
        assign(
            chain(start, setters, values, calls.drop_last()),
            setters[calls.last()],
            values[calls.last()],
        )
    }
}

/// The value built by assigning `values[i]` to field `i` directly.
pub open spec fn constructed<V>(fields: Seq<FieldView>, values: Seq<V>) -> Record<V> {
    Map::new(
        |name: Seq<char>| exists|i: int| 0 <= i < fields.len() && (#[trigger] fields[i]).name == name,
        |name: Seq<char>|
            values[choose|i: int| 0 <= i < fields.len() && (#[trigger] fields[i]).name == name],
    )
}

/// After a chain of setter calls, a field whose setter was called holds the
/// value given for it, and a name that no call assigned is as it was.
proof fn lemma_chain_contents<V>(
    start: Record<V>,
    fields: Seq<FieldView>,
    values: Seq<V>,
    calls: Seq<int>,
)
    requires
        distinct_names(fields),
        values.len() == fields.len(),
        forall|k: int| 0 <= k < calls.len() ==> 0 <= #[trigger] calls[k] < fields.len(),
    ensures
        forall|i: int|
            0 <= i < fields.len() && calls.contains(i) ==> {
                let after = chain(start, builder_setters(fields), values, calls);
                after.contains_key((#[trigger] fields[i]).name) && after[fields[i].name] == values[i]
            },
        forall|name: Seq<char>|
            #[trigger] chain(start, builder_setters(fields), values, calls).contains_key(name)
                ==> start.contains_key(name) || exists|i: int|
                0 <= i < fields.len() && (#[trigger] fields[i]).name == name,
    decreases calls.len(),
{
    if calls.len() > 0 {
        let front = calls.drop_last();
        let last = calls.last();
        let before = chain(start, builder_setters(fields), values, front);
        let after = chain(start, builder_setters(fields), values, calls);
        lemma_chain_contents(start, fields, values, front);
        assert(after == before.insert(fields[last].name, values[last]));
        assert forall|i: int| 0 <= i < fields.len() && calls.contains(i) implies after.contains_key(
            (#[trigger] fields[i]).name,
        ) && after[fields[i].name] == values[i] by {
            if i != last {
                let k = choose|k: int| 0 <= k < calls.len() && calls[k] == i;
                assert(front[k] == i);
                assert(front.contains(i));
            }
        }
        assert forall|name: Seq<char>| #[trigger] after.contains_key(name) implies start.contains_key(
            name,
        ) || exists|i: int| 0 <= i < fields.len() && (#[trigger] fields[i]).name == name by {
            if name != fields[last].name {
                assert(before.contains_key(name));
            }
        }
    }
}

/// A chain that calls the setter of every field, in any order, and then the
/// finalizer hands out the value that direct assignment of every field
/// constructs. This is stated of records: a call of a setter is taken to
/// assign its field, as [`assign`] says, and the finalizer to return the
/// wrapped value, as [`finish`] says.
pub proof fn lemma_builder_chain_constructs<V>(
    start: Record<V>,
    fields: Seq<FieldView>,
    values: Seq<V>,
    calls: Seq<int>,
)
    requires
        distinct_names(fields),
        values.len() == fields.len(),
        forall|name: Seq<char>| #[trigger]
            start.contains_key(name) ==> exists|i: int|
                0 <= i < fields.len() && (#[trigger] fields[i]).name == name,
        forall|k: int| 0 <= k < calls.len() ==> 0 <= #[trigger] calls[k] < fields.len(),
        forall|i: int| 0 <= i < fields.len() ==> calls.contains(i),
    ensures
        finish(chain(start, builder_setters(fields), values, calls)) == constructed(fields, values),
{
    let after = chain(start, builder_setters(fields), values, calls);
    let direct = constructed(fields, values);
    lemma_chain_contents(start, fields, values, calls);
    assert forall|name: Seq<char>| after.contains_key(name) <==> direct.contains_key(name) by {
        if direct.contains_key(name) {
            let i = choose|i: int| 0 <= i < fields.len() && (#[trigger] fields[i]).name == name;
            assert(calls.contains(i));
            assert(after.contains_key(fields[i].name));
        }
    }
    assert forall|name: Seq<char>| after.contains_key(name) implies after[name] == direct[name] by {
        let i = choose|i: int| 0 <= i < fields.len() && (#[trigger] fields[i]).name == name;
        assert(calls.contains(i));
        assert(after[fields[i].name] == values[i]);
    }
    assert(after =~= direct);
}

} // verus!
