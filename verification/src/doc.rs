//! The documentation synthesizer: renders the original signature with a
//! placeholder body, for embedding as generated documentation on the
//! emitted function. The output is for human readers, never compiled.

use vstd::prelude::*;

use crate::ast::{HookDefinition, HookDefinitionV};
use crate::render::{
    join_params, join_params_v, render_generics, render_generics_v, render_ret, render_ret_v,
    render_vis, render_vis_v,
};

verus! {

/// The text of the signature with the implementation elided behind a
/// single unambiguous placeholder marker.
pub open spec fn signature_with_placeholder_v(d: HookDefinitionV) -> Seq<char> {
    render_vis_v(d.vis) + "fn "@ + d.name + render_generics_v(d.generics) + "("@ + join_params_v(
        d.params,
    ) + ")"@ + render_ret_v(d.ret) + " { /* implementation omitted */ }"@
}

/// The full documentation note: a heading, an explanation, and the
/// effective synchronous signature in a fenced code block.
pub open spec fn doc_note_v(d: HookDefinitionV) -> Seq<char> {
    "\n# Note\n\nWhen used in function components and hooks, this hook is equivalent to:\n\n```\n"@
        + signature_with_placeholder_v(d) + "\n```\n"@
}

/// Renders the signature with the placeholder body.
pub fn signature_with_placeholder(d: &HookDefinition) -> (r: String)
    ensures
        r@ == signature_with_placeholder_v(d@),
{
    let mut s = render_vis(&d.vis);
    s.append("fn ");
    s.append(d.name.as_str());
    let g = render_generics(&d.generics);
    s.append(g.as_str());
    s.append("(");
    let p = join_params(&d.params);
    s.append(p.as_str());
    s.append(")");
    let ret = render_ret(&d.ret);
    s.append(ret.as_str());
    s.append(" { /* implementation omitted */ }");
    s
}

/// Renders the documentation note for a definition.
pub fn doc_note(d: &HookDefinition) -> (r: String)
    ensures
        r@ == doc_note_v(d@),
{
    let mut s = String::from_str(
        "\n# Note\n\nWhen used in function components and hooks, this hook is equivalent to:\n\n```\n",
    );
    let sig = signature_with_placeholder(d);
    s.append(sig.as_str());
    s.append("\n```\n");
    s
}

/// Rendering the documentation note is deterministic: any two renderings
/// of the same signature are identical, character for character.
pub proof fn lemma_doc_note_deterministic(d: HookDefinitionV, r1: Seq<char>, r2: Seq<char>)
    requires
        r1 == doc_note_v(d),
        r2 == doc_note_v(d),
    ensures
        r1 == r2,
{
}

} // verus!
