//! The data model of generated code: methods, implementation blocks and the
//! builder's wrapper type.

use crate::declaration::{Generics, GenericsView};
use vstd::prelude::*;

verus! {

/// The five forms of generated method.
#[derive(Debug, Clone, Copy, PartialEq, Eq, Structural)]
pub enum MethodKind {
    /// `fn field(&self) -> &T`: borrows the field.
    ReadAccessor,
    /// `fn set_field(&mut self, value: T) -> &mut Self`: assigns the field and
    /// hands the receiver back.
    WriteAccessor,
    /// `fn mut_field(&mut self) -> &mut T`: borrows the field mutably.
    MutableAccessor,
    /// `fn field(mut self, value: T) -> Self`: assigns the field of the wrapped
    /// value and hands the builder back.
    BuilderSetter,
    /// `fn build(self) -> T`: gives up the wrapped value.
    BuilderFinalizer,
}

/// One generated method.
#[derive(Debug, Clone, PartialEq, Eq)]
pub struct Method {
    pub kind: MethodKind,
    /// The method's name.
    pub name: String,
    /// The field that the method reads or assigns; empty for the finalizer.
    pub field: String,
    /// The field's type; for the finalizer, the type that it returns.
    pub ty: String,
}

/// Mathematical value of a [`Method`].
pub struct MethodView {
    pub kind: MethodKind,
    pub name: Seq<char>,
    pub field: Seq<char>,
    pub ty: Seq<char>,
}

impl View for Method {
    type V = MethodView;

    open spec fn view(&self) -> MethodView {
        MethodView { kind: self.kind, name: self.name@, field: self.field@, ty: self.ty@ }
    }
}

/// The views of `methods`, in order.
pub open spec fn method_views(methods: Seq<Method>) -> Seq<MethodView> {
    Seq::new(methods.len(), |i: int| methods[i]@)
}

/// One generated implementation block: `impl<..> Target<..> where .. { methods }`.
#[derive(Debug, Clone, PartialEq, Eq)]
pub struct ImplBlock {
    /// The generic parameters, as the declaration has them.
    pub generics: Generics,
    /// The identifier of the type that the block is attached to.
    pub target: String,
    /// The methods, in the order in which they are emitted.
    pub methods: Vec<Method>,
}

/// Mathematical value of an [`ImplBlock`].
pub struct ImplBlockView {
    pub generics: GenericsView,
    pub target: Seq<char>,
    pub methods: Seq<MethodView>,
}

impl View for ImplBlock {
    type V = ImplBlockView;

    open spec fn view(&self) -> ImplBlockView {
        ImplBlockView {
            generics: self.generics@,
            target: self.target@,
            methods: method_views(self.methods@),
        }
    }
}

/// The builder's wrapper type: a tuple struct whose single, private field
/// holds one value of the declared type.
#[derive(Debug, Clone, PartialEq, Eq)]
pub struct WrapperType {
    /// The visibility qualifier, as the declaration has it.
    pub visibility: String,
    /// The wrapper's identifier.
    pub name: String,
    /// The generic parameters, as the declaration has them.
    pub generics: Generics,
    /// The identifier of the declared type.
    pub wrapped: String,
}

/// Mathematical value of a [`WrapperType`].
pub struct WrapperTypeView {
    pub visibility: Seq<char>,
    pub name: Seq<char>,
    pub generics: GenericsView,
    pub wrapped: Seq<char>,
}

impl View for WrapperType {
    type V = WrapperTypeView;

    open spec fn view(&self) -> WrapperTypeView {
        WrapperTypeView {
            visibility: self.visibility@,
            name: self.name@,
            generics: self.generics@,
            wrapped: self.wrapped@,
        }
    }
}

/// What the builder generator produces: the wrapper type and its
/// implementation block.
#[derive(Debug, Clone, PartialEq, Eq)]
pub struct BuilderFragment {
    pub wrapper: WrapperType,
    pub implementation: ImplBlock,
}

/// Mathematical value of a [`BuilderFragment`].
pub struct BuilderFragmentView {
    pub wrapper: WrapperTypeView,
    pub implementation: ImplBlockView,
}

impl View for BuilderFragment {
    type V = BuilderFragmentView;

    open spec fn view(&self) -> BuilderFragmentView {
        BuilderFragmentView { wrapper: self.wrapper@, implementation: self.implementation@ }
    }
}

} // verus!
