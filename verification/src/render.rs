//! The source text of generated code.

use crate::fragment::{
    BuilderFragment, BuilderFragmentView, ImplBlock, ImplBlockView, Method, MethodKind,
    MethodView, WrapperType, WrapperTypeView, method_views,
};
use vstd::prelude::*;

verus! {

/// The source text of one method, indented as a member of an implementation
/// block and closed by a line break.
pub open spec fn method_text(method: MethodView) -> Seq<char> {
    match method.kind {
        MethodKind::ReadAccessor => "    #[inline(always)]\n    pub fn "@ + method.name
            + "(&self) -> &"@ + method.ty + " {\n        &self."@ + method.field + "\n    }\n"@,
        MethodKind::WriteAccessor => "    #[inline(always)]\n    pub fn "@ + method.name
            + "(&mut self, value: "@ + method.ty + ") -> &mut Self {\n        self."@
            + method.field + " = value;\n        self\n    }\n"@,
        MethodKind::MutableAccessor => "    #[inline(always)]\n    pub fn "@ + method.name
            + "(&mut self) -> &mut "@ + method.ty + " {\n        &mut self."@ + method.field
            + "\n    }\n"@,
        MethodKind::BuilderSetter => "    #[inline(always)]\n    pub fn "@ + method.name
            + "(mut self, value: "@ + method.ty + ") -> Self {\n        self.0."@ + method.field
            + " = value;\n        self\n    }\n"@,
        MethodKind::BuilderFinalizer => "    pub fn "@ + method.name + "(self) -> "@ + method.ty
            + " {\n        self.0\n    }\n"@,
    }
}

/// The source texts of `methods`, one behind the other.
pub open spec fn methods_text(methods: Seq<MethodView>) -> Seq<char>
    decreases methods.len(),
{
    if methods.len() == 0 {
        Seq::empty()
    } else {
        methods_text(methods.drop_last()) + method_text(methods.last())
    }
}

/// `text` behind a space, or nothing where `text` is empty.
pub open spec fn preceded(text: Seq<char>) -> Seq<char> {
    if text.len() == 0 {
        text
    } else {
        " "@ + text
    }
}

/// `text` before a space, or nothing where `text` is empty.
pub open spec fn followed(text: Seq<char>) -> Seq<char> {
    if text.len() == 0 {
        text
    } else {
        text + " "@
    }
}

/// The source text of an implementation block.
pub open spec fn impl_text(block: ImplBlockView) -> Seq<char> {
    "#[allow(dead_code)]\nimpl"@ + block.generics.impl_generics + " "@ + block.target
        + block.generics.type_generics + preceded(block.generics.where_clause) + " {\n"@
        + methods_text(block.methods) + "}\n"@
}

/// The source text of the wrapper type's definition.
pub open spec fn wrapper_text(wrapper: WrapperTypeView) -> Seq<char> {
    "#[derive(Debug)]\n"@ + followed(wrapper.visibility) + "struct "@ + wrapper.name
        + wrapper.generics.impl_generics + "("@ + wrapper.wrapped + wrapper.generics.type_generics
        + ")"@ + preceded(wrapper.generics.where_clause) + ";\n"@
}

/// The source text of a builder: the wrapper type, an empty line, the
/// implementation block.
pub open spec fn builder_text(fragment: BuilderFragmentView) -> Seq<char> {
    wrapper_text(fragment.wrapper) + "\n"@ + impl_text(fragment.implementation)
}

/// Appends `text` behind a space, or nothing where `text` is empty.
fn append_preceded(out: &mut String, text: &str)
    ensures
        final(out)@ == old(out)@ + preceded(text@),
{
    if !text.is_empty() {
        out.append(" ");
        out.append(text);
        assert(out@ =~= old(out)@ + (" "@ + text@));
    } else {
        assert(out@ =~= old(out)@ + text@);
    }
}

/// Appends `text` before a space, or nothing where `text` is empty.
fn append_followed(out: &mut String, text: &str)
    ensures
        final(out)@ == old(out)@ + followed(text@),
{
    if !text.is_empty() {
        out.append(text);
        out.append(" ");
        assert(out@ =~= old(out)@ + (text@ + " "@));
    } else {
        assert(out@ =~= old(out)@ + text@);
    }
}

impl Method {
    /// The method as source text.
    pub fn render(&self) -> (r: String)
        ensures
            r@ == method_text(self@),
    {
        match self.kind {
            MethodKind::ReadAccessor => {
                let mut out = "    #[inline(always)]\n    pub fn ".to_owned();
                out.append(self.name.as_str());
                out.append("(&self) -> &");
                out.append(self.ty.as_str());
                out.append(" {\n        &self.");
                out.append(self.field.as_str());
                out.append("\n    }\n");
                out
            },
            MethodKind::WriteAccessor => {
                let mut out = "    #[inline(always)]\n    pub fn ".to_owned();
                out.append(self.name.as_str());
                out.append("(&mut self, value: ");
                out.append(self.ty.as_str());
                out.append(") -> &mut Self {\n        self.");
                out.append(self.field.as_str());
                out.append(" = value;\n        self\n    }\n");
                out
            },
            MethodKind::MutableAccessor => {
                let mut out = "    #[inline(always)]\n    pub fn ".to_owned();
                out.append(self.name.as_str());
                out.append("(&mut self) -> &mut ");
                out.append(self.ty.as_str());
                out.append(" {\n        &mut self.");
                out.append(self.field.as_str());
                out.append("\n    }\n");
                out
            },
            MethodKind::BuilderSetter => {
                let mut out = "    #[inline(always)]\n    pub fn ".to_owned();
                out.append(self.name.as_str());
                out.append("(mut self, value: ");
                out.append(self.ty.as_str());
                out.append(") -> Self {\n        self.0.");
                out.append(self.field.as_str());
                out.append(" = value;\n        self\n    }\n");
                out
            },
            MethodKind::BuilderFinalizer => {
                let mut out = "    pub fn ".to_owned();
                out.append(self.name.as_str());
                out.append("(self) -> ");
                out.append(self.ty.as_str());
                out.append(" {\n        self.0\n    }\n");
                out
            },
        }
    }
}

impl ImplBlock {
    /// The block as source text: the header with the generic parameters, then
    /// the methods in their order.
    pub fn render(&self) -> (r: String)
        ensures
            r@ == impl_text(self@),
    {
        let mut out = "#[allow(dead_code)]\nimpl".to_owned();
        out.append(self.generics.impl_generics.as_str());
        out.append(" ");
        out.append(self.target.as_str());
        out.append(self.generics.type_generics.as_str());
        append_preceded(&mut out, self.generics.where_clause.as_str());
        out.append(" {\n");
        let ghost header = out@;
        let ghost views = method_views(self.methods@);
        let mut i: usize = 0;
        assert(out@ =~= header + methods_text(views.take(0)));
        while i < self.methods.len()
            invariant
                i <= self.methods.len(),
                views == method_views(self.methods@),
                out@ == header + methods_text(views.take(i as int)),
            decreases self.methods.len() - i,
        {
            let text = self.methods[i].render();
            out.append(text.as_str());
            proof {
                let next = views.take(i + 1);
                assert(next.drop_last() =~= views.take(i as int));
                assert(next.last() == self.methods[i as int]@);
                assert(out@ =~= header + methods_text(next));
            }
            i += 1;
        }
        assert(views.take(i as int) =~= views);
        out.append("}\n");
        out
    }
}

impl WrapperType {
    /// The definition of the wrapper type as source text.
    pub fn render(&self) -> (r: String)
        ensures
            r@ == wrapper_text(self@),
    {
        let mut out = "#[derive(Debug)]\n".to_owned();
        append_followed(&mut out, self.visibility.as_str());
        out.append("struct ");
        out.append(self.name.as_str());
        out.append(self.generics.impl_generics.as_str());
        out.append("(");
        out.append(self.wrapped.as_str());
        out.append(self.generics.type_generics.as_str());
        out.append(")");
        append_preceded(&mut out, self.generics.where_clause.as_str());
        out.append(";\n");
        out
    }
}

impl BuilderFragment {
    /// The builder as source text.
    pub fn render(&self) -> (r: String)
        ensures
            r@ == builder_text(self@),
    {
        let mut out = self.wrapper.render();
        out.append("\n");
        let block = self.implementation.render();
        out.append(block.as_str());
        assert(out@ =~= builder_text(self@));
        out
    }
}

} // verus!
