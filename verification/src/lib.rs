//! A compile-time transformation engine for composable stateful units
//! ("hooks") of a reactive UI framework.
//!
//! The engine accepts the structured form of a function definition,
//! validates it against the hook conventions, rewrites its signature and
//! body so every nested hook invocation is threaded through a shared
//! execution context, and emits the text of an equivalent definition that
//! satisfies the framework's polymorphic `Hook` interface.

use vstd::prelude::*;

pub mod ast;
pub mod body;
pub mod doc;
pub mod emit;
pub mod lifetime;
pub mod render;
pub mod signature;
pub mod validate;

verus! {

/// True when a name follows the mandated hook naming convention:
/// it begins with the prefix `use_`.
pub open spec fn is_hook_name(s: Seq<char>) -> bool {
    s.len() >= 4 && s[0] == 'u' && s[1] == 's' && s[2] == 'e' && s[3] == '_'
}

/// Checks the hook naming convention on an executable string.
pub fn check_hook_name(s: &str) -> (r: bool)
    ensures
        r == is_hook_name(s@),
{
    if s.unicode_len() < 4 {
        return false;
    }
    s.get_char(0) == 'u' && s.get_char(1) == 's' && s.get_char(2) == 'e' && s.get_char(3) == '_'
}

/// A validated hook definition, ready for transformation.
pub struct HookFn {
    pub inner: ast::HookDefinition,
}

impl View for HookFn {
    type V = ast::HookDefinitionV;

    open spec fn view(&self) -> ast::HookDefinitionV {
        self.inner@
    }
}

impl HookFn {
    /// Wraps a parsed definition, reporting every constraint it
    /// violates. The definition is kept even when defective, so that
    /// the pipeline can continue to a best-effort output.
    pub fn from_definition(inner: ast::HookDefinition) -> (r: (HookFn, Vec<validate::Diagnostic>))
        ensures
            r.0@ == inner@,
            r.1@ == validate::expected_diagnostics(inner@),
    {
        let diags = validate::validate(&inner);
        (HookFn { inner }, diags)
    }

    /// The documentation note attached to the emitted function: the
    /// effective synchronous signature with its body elided.
    pub fn doc_attr(&self) -> (r: String)
        ensures
            r@ == doc::doc_note_v(self@),
    {
        doc::doc_note(&self.inner)
    }
}

/// Transforms a hook definition into the text of an equivalent
/// definition satisfying the framework's polymorphic interface; under
/// the documentation-example extraction build mode, emits the original
/// definition verbatim instead.
pub fn hook_impl(hook: HookFn, doc_example_mode: bool) -> (r: String)
    ensures
        r@ == if doc_example_mode {
            emit::original_text_v(hook@)
        } else {
            emit::transformed_v(hook@)
        },
{
    let HookFn { inner } = hook;
    let ghost dv = inner@;
    if doc_example_mode {
        return emit::render_original(&inner);
    }
    let doc_text = doc::doc_note(&inner);
    let hs = signature::HookSignature::rewrite(&inner);
    let ast::HookDefinition { name, vis, attrs, generics, params, body, .. } = inner;
    let rewriter = body::BodyRewriter::new(String::from_str("_ctx"));
    let rb = rewriter.rewrite_block(body);
    let inner_text = emit::inner_fn_text(&hs, &rb);
    proof {
        assert(inner_text@ == emit::inner_fn_text_v(dv));
    }
    let strat = if hs.needs_boxing {
        emit::boxed_strategy(&hs)
    } else {
        emit::struct_strategy(&hs)
    };
    proof {
        assert(strat@ == emit::strategy_v(dv));
    }
    let mut doc_attr_text = String::from_str("#[doc = \"");
    let esc = emit::escape(doc_text.as_str());
    doc_attr_text.append(esc.as_str());
    doc_attr_text.append("\"] ");
    proof {
        assert(doc_attr_text@ == emit::doc_attr_text_v(dv));
    }
    let mut outer_ret = String::from_str(" -> impl ::yew::functional::Hook<Output = ");
    let out_t = render::render_ty(&hs.output);
    outer_ret.append(out_t.as_str());
    outer_ret.append(">");
    proof {
        assert(outer_ret@ == emit::outer_ret_text_v(dv));
    }
    let mut s = emit::attrs_concat(&attrs);
    s.append(doc_attr_text.as_str());
    let vis_text = render::render_vis(&vis);
    s.append(vis_text.as_str());
    s.append("fn ");
    s.append(name.as_str());
    let g = render::render_generics(&generics);
    s.append(g.as_str());
    s.append("(");
    let p = render::join_params(&params);
    s.append(p.as_str());
    s.append(")");
    s.append(outer_ret.as_str());
    s.append(" { ");
    s.append(inner_text.as_str());
    s.append(" ");
    s.append(strat.as_str());
    s.append(" }");
    proof {
        assert(s@ =~= emit::transformed_v(dv));
    }
    s
}

} // verus!
