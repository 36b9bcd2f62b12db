//! The code emitter: assembles the text of the final equivalent
//! definition, choosing between the struct-provider and boxed-provider
//! strategies, and attaching the synthesized documentation note.

use vstd::prelude::*;

use crate::ast::{
    Block, GenericParam, GenericParamV, HookDefinition, HookDefinitionV, Param, ParamV, Ty, TyV,
    ty_view, strs_view, block_view, BlockV,
};
use crate::doc::{doc_note, doc_note_v};
use crate::render::{
    comma_concat, comma_concat_v, join_params, join_params_v, render_block,
    render_block_v, render_generic_args, render_generic_args_v, render_generics,
    render_generics_v, render_ret, render_ret_v, render_ty, render_ty_v, render_vis, render_vis_v,
};
use crate::signature::{
    arg_names_v, desugar_params_v, hook_lifetime_name_v, HookSignature, phantom_lifetimes_v,
    phantom_types_v, provider_generics_v, spec_needs_boxing, spec_output_type, turbofish_names_v,
};
use crate::lifetime::{params_with_lifetime_v, with_lifetime_v};
use crate::body::rewrite_block_v;

verus! {

/// The escape of one character for embedding in a quoted literal.
pub open spec fn esc_char_v(c: char) -> Seq<char> {
    if c == '"' {
        seq!['\\', '"']
    } else if c == '\\' {
        seq!['\\', '\\']
    } else if c == '\n' {
        seq!['\\', 'n']
    } else if c == '\r' {
        seq!['\\', 'r']
    } else {
        seq![c]
    }
}

/// The escape of a text for embedding in a quoted literal.
pub open spec fn escape_v(s: Seq<char>) -> Seq<char>
    decreases s,
{
    if s.len() == 0 {
        Seq::<char>::empty()
    } else {
        escape_v(s.drop_last()) + esc_char_v(s[s.len() - 1])
    }
}

/// Escapes a text for embedding in a quoted literal.
pub fn escape(s: &str) -> (r: String)
    ensures
        r@ == escape_v(s@),
{
    let n: usize = s.unicode_len();
    let mut out = String::new();
    let mut i: usize = 0;
    proof {
        assert(s@.take(0) =~= Seq::<char>::empty());
    }
    while i < n
        invariant
            i <= n,
            n == s@.len(),
            out@ == escape_v(s@.take(i as int)),
        decreases n - i,
    {
        let c = s.get_char(i);
        if c == '"' {
            out.append("\\\"");
            proof {
                reveal_strlit("\\\"");
                assert("\\\""@ =~= seq!['\\', '"']);
            }
        } else if c == '\\' {
            out.append("\\\\");
            proof {
                reveal_strlit("\\\\");
                assert("\\\\"@ =~= seq!['\\', '\\']);
            }
        } else if c == '\n' {
            out.append("\\n");
            proof {
                reveal_strlit("\\n");
                assert("\\n"@ =~= seq!['\\', 'n']);
            }
        } else if c == '\r' {
            out.append("\\r");
            proof {
                reveal_strlit("\\r");
                assert("\\r"@ =~= seq!['\\', 'r']);
            }
        } else {
            out.push(c);
            proof {
                assert(out@ =~= escape_v(s@.take(i as int)) + seq![c]);
            }
        }
        proof {
            let prefix = s@.take(i as int + 1);
            assert(prefix.drop_last() =~= s@.take(i as int));
            assert(prefix[prefix.len() - 1] == s@[i as int]);
        }
        i = i + 1;
    }
    proof {
        assert(s@.take(n as int) =~= s@);
    }
    out
}

/// The turbofish argument list, empty when there is nothing to name.
pub open spec fn turbofish_v(names: Seq<Seq<char>>) -> Seq<char> {
    if names.len() == 0 {
        Seq::<char>::empty()
    } else {
        "::<"@ + comma_concat_v(names) + ">"@
    }
}

/// Renders the turbofish from the argument texts.
pub fn turbofish(names: &Vec<String>) -> (r: String)
    ensures
        r@ == turbofish_v(strs_view(names@)),
{
    if names.len() == 0 {
        String::new()
    } else {
        let mut s = String::from_str("::<");
        let c = comma_concat(names);
        s.append(c.as_str());
        s.append(">");
        s
    }
}

/// The zero-size markers preserving unused lifetimes: one `&'l ()`
/// reference per lifetime, each followed by a comma.
pub open spec fn lifetime_markers_v(ls: Seq<Seq<char>>) -> Seq<char>
    decreases ls,
{
    if ls.len() == 0 {
        Seq::<char>::empty()
    } else {
        lifetime_markers_v(ls.drop_last()) + ("&'"@ + ls[ls.len() - 1] + " (),"@)
    }
}

/// Renders the zero-size lifetime markers.
pub fn lifetime_markers(ls: &Vec<String>) -> (r: String)
    ensures
        r@ == lifetime_markers_v(strs_view(ls@)),
{
    let ghost lsv = strs_view(ls@);
    let mut s = String::new();
    let mut i: usize = 0;
    proof {
        assert(lsv.take(0) =~= Seq::<Seq<char>>::empty());
    }
    while i < ls.len()
        invariant
            i <= ls.len(),
            lsv == strs_view(ls@),
            lsv.len() == ls@.len(),
            s@ == lifetime_markers_v(lsv.take(i as int)),
        decreases ls@.len() - i,
    {
        s.append("&'");
        s.append(ls[i].as_str());
        s.append(" (),");
        proof {
            let prefix = lsv.take(i as int + 1);
            assert(prefix.drop_last() =~= lsv.take(i as int));
            assert(prefix[prefix.len() - 1] == lsv[i as int]);
            assert(lsv[i as int] == ls@[i as int]@);
        }
        i = i + 1;
    }
    proof {
        assert(lsv.take(lsv.len() as int) =~= lsv);
    }
    s
}

/// The rendered texts of the parameters' types, in order.
pub open spec fn param_ty_texts_v(ps: Seq<ParamV>) -> Seq<Seq<char>> {
    ps.map_values(|p: ParamV| render_ty_v(p.ty))
}

/// Renders each parameter's type.
pub fn param_ty_texts(ps: &Vec<Param>) -> (r: Vec<String>)
    ensures
        strs_view(r@) == param_ty_texts_v(ps@.map_values(|p: Param| p@)),
{
    let ghost psv = ps@.map_values(|p: Param| p@);
    let mut r: Vec<String> = Vec::new();
    let mut i: usize = 0;
    while i < ps.len()
        invariant
            i <= ps.len(),
            psv == ps@.map_values(|p: Param| p@),
            psv.len() == ps@.len(),
            r@.len() == i,
            forall|j: int| 0 <= j < i ==> r@[j]@ == render_ty_v(psv[j].ty),
        decreases ps@.len() - i,
    {
        let t = render_ty(&ps[i].ty);
        r.push(t);
        i = i + 1;
    }
    proof {
        assert(strs_view(r@) =~= param_ty_texts_v(psv));
    }
    r
}

/// The attributes of the definition, each followed by a single space.
pub open spec fn attrs_concat_v(ss: Seq<Seq<char>>) -> Seq<char>
    decreases ss,
{
    if ss.len() == 0 {
        Seq::<char>::empty()
    } else {
        attrs_concat_v(ss.drop_last()) + (ss[ss.len() - 1] + " "@)
    }
}

/// Renders the attributes, each followed by a single space.
pub fn attrs_concat(ss: &Vec<String>) -> (r: String)
    ensures
        r@ == attrs_concat_v(strs_view(ss@)),
{
    let ghost ssv = strs_view(ss@);
    let mut s = String::new();
    let mut i: usize = 0;
    proof {
        assert(ssv.take(0) =~= Seq::<Seq<char>>::empty());
    }
    while i < ss.len()
        invariant
            i <= ss.len(),
            ssv == strs_view(ss@),
            ssv.len() == ss@.len(),
            s@ == attrs_concat_v(ssv.take(i as int)),
        decreases ss@.len() - i,
    {
        s.append(ss[i].as_str());
        s.append(" ");
        proof {
            let prefix = ssv.take(i as int + 1);
            assert(prefix.drop_last() =~= ssv.take(i as int));
            assert(prefix[prefix.len() - 1] == ssv[i as int]);
            assert(ssv[i as int] == ss@[i as int]@);
        }
        i = i + 1;
    }
    proof {
        assert(ssv.take(ssv.len() as int) =~= ssv);
    }
    s
}

/// The inner implementation function's text, from its pieces: generic
/// list, parameters, optional return annotation, and rewritten body.
pub open spec fn inner_fn_parts_v(
    inner_generics: Seq<GenericParamV>,
    params: Seq<ParamV>,
    explicit_output: bool,
    output: TyV,
    body: BlockV,
) -> Seq<char> {
    "fn inner_fn"@ + render_generics_v(inner_generics)
        + "(_ctx: &mut ::yew::functional::HookContext"@ + (if params.len() == 0 {
        Seq::<char>::empty()
    } else {
        ", "@ + join_params_v(params)
    }) + ")"@ + (if explicit_output {
        " -> "@ + render_ty_v(output)
    } else {
        Seq::<char>::empty()
    }) + " "@ + render_block_v(body)
}

/// The inner implementation function's text of a definition.
pub open spec fn inner_fn_text_v(d: HookDefinitionV) -> Seq<char> {
    inner_fn_parts_v(
        if spec_needs_boxing(d.ret) {
            seq![GenericParamV::Lifetime { name: hook_lifetime_name_v(d.generics) }]
                + provider_generics_v(d.generics, d.params)
        } else {
            provider_generics_v(d.generics, d.params)
        },
        desugar_params_v(
            if spec_needs_boxing(d.ret) {
                params_with_lifetime_v(d.params, hook_lifetime_name_v(d.generics))
            } else {
                d.params
            },
        ),
        d.ret is Some,
        if spec_needs_boxing(d.ret) {
            with_lifetime_v(spec_output_type(d.ret), hook_lifetime_name_v(d.generics))
        } else {
            spec_output_type(d.ret)
        },
        rewrite_block_v(d.body, "_ctx"@),
    )
}

/// Renders the inner implementation function from the rewritten
/// signature and the rewritten body.
pub fn inner_fn_text(hs: &HookSignature, body: &Block) -> (r: String)
    ensures
        r@ == inner_fn_parts_v(
            hs.inner_generics@.map_values(|g: GenericParam| g@),
            hs.params@.map_values(|p: Param| p@),
            hs.explicit_output,
            ty_view(hs.output),
            block_view(*body),
        ),
{
    let mut s = String::from_str("fn inner_fn");
    let g = render_generics(&hs.inner_generics);
    s.append(g.as_str());
    s.append("(_ctx: &mut ::yew::functional::HookContext");
    if hs.params.len() > 0 {
        s.append(", ");
        let p = join_params(&hs.params);
        s.append(p.as_str());
    }
    s.append(")");
    if hs.explicit_output {
        s.append(" -> ");
        let t = render_ty(&hs.output);
        s.append(t.as_str());
    }
    s.append(" ");
    let b = render_block(body);
    s.append(b.as_str());
    s
}

/// The struct-provider strategy's text, from its pieces.
pub open spec fn struct_parts_v(
    gs: Seq<GenericParamV>,
    ps: Seq<ParamV>,
    output: TyV,
    arg_names: Seq<Seq<char>>,
    phantom_tys: Seq<Seq<char>>,
    phantom_lts: Seq<Seq<char>>,
    tf_names: Seq<Seq<char>>,
) -> Seq<char> {
    "struct HookProvider"@ + render_generics_v(gs) + " { _marker: ::std::marker::PhantomData<("@
        + comma_concat_v(phantom_tys) + lifetime_markers_v(phantom_lts) + ")>, args: ("@
        + comma_concat_v(param_ty_texts_v(ps)) + ") } "@ + "#[automatically_derived] impl"@
        + render_generics_v(gs) + " ::yew::functional::Hook for HookProvider"@
        + render_generic_args_v(gs) + " { type Output = "@ + render_ty_v(output)
        + "; fn run(mut self, _ctx: &mut ::yew::functional::HookContext) -> Self::Output { let ("@
        + comma_concat_v(arg_names) + ") = self.args; inner_fn"@ + turbofish_v(tf_names) + "(_ctx, "@
        + comma_concat_v(arg_names) + ") } } "@ + "#[automatically_derived] impl"@
        + render_generics_v(gs) + " HookProvider"@ + render_generic_args_v(gs) + " { fn new("@
        + join_params_v(ps) + ") -> Self { HookProvider { _marker: ::std::marker::PhantomData, args: ("@
        + comma_concat_v(arg_names) + ") } } } "@ + "HookProvider"@ + turbofish_v(tf_names) + "::new("@
        + comma_concat_v(arg_names) + ")"@
}

/// Renders the struct-provider strategy from the rewritten signature.
pub fn struct_strategy(hs: &HookSignature) -> (r: String)
    ensures
        r@ == struct_parts_v(
            hs.provider_generics@.map_values(|g: GenericParam| g@),
            hs.params@.map_values(|p: Param| p@),
            ty_view(hs.output),
            strs_view(hs.arg_names@),
            strs_view(hs.phantom_types@),
            strs_view(hs.phantom_lifetimes@),
            strs_view(hs.turbofish_names@),
        ),
{
    let generics_text = render_generics(&hs.provider_generics);
    let generic_args_text = render_generic_args(&hs.provider_generics);
    let turbofish_text = turbofish(&hs.turbofish_names);
    let output_text = render_ty(&hs.output);
    let args_text = comma_concat(&hs.arg_names);
    let phantom_tys_text = comma_concat(&hs.phantom_types);
    let phantom_lts_text = lifetime_markers(&hs.phantom_lifetimes);
    let tys = param_ty_texts(&hs.params);
    let tys_text = comma_concat(&tys);
    let params_text = join_params(&hs.params);

    let mut s = String::from_str("struct HookProvider");
    s.append(generics_text.as_str());
    s.append(" { _marker: ::std::marker::PhantomData<(");
    s.append(phantom_tys_text.as_str());
    s.append(phantom_lts_text.as_str());
    s.append(")>, args: (");
    s.append(tys_text.as_str());
    s.append(") } ");
    s.append("#[automatically_derived] impl");
    s.append(generics_text.as_str());
    s.append(" ::yew::functional::Hook for HookProvider");
    s.append(generic_args_text.as_str());
    s.append(" { type Output = ");
    s.append(output_text.as_str());
    s.append("; fn run(mut self, _ctx: &mut ::yew::functional::HookContext) -> Self::Output { let (");
    s.append(args_text.as_str());
    s.append(") = self.args; inner_fn");
    s.append(turbofish_text.as_str());
    s.append("(_ctx, ");
    s.append(args_text.as_str());
    s.append(") } } ");
    s.append("#[automatically_derived] impl");
    s.append(generics_text.as_str());
    s.append(" HookProvider");
    s.append(generic_args_text.as_str());
    s.append(" { fn new(");
    s.append(params_text.as_str());
    s.append(") -> Self { HookProvider { _marker: ::std::marker::PhantomData, args: (");
    s.append(args_text.as_str());
    s.append(") } } } ");
    s.append("HookProvider");
    s.append(turbofish_text.as_str());
    s.append("::new(");
    s.append(args_text.as_str());
    s.append(")");
    s
}

/// The boxed-provider strategy's text, from its pieces.
pub open spec fn boxed_parts_v(tf_names: Seq<Seq<char>>, arg_names: Seq<Seq<char>>) -> Seq<
    char,
> {
    "let boxed_inner = ::std::boxed::Box::new(move |_ctx: &mut ::yew::functional::HookContext| { inner_fn"@
        + turbofish_v(tf_names) + "(_ctx, "@ + comma_concat_v(arg_names) + ") }); "@
        + "::yew::functional::BoxedHook::new(boxed_inner)"@
}

/// Renders the boxed-provider strategy from the rewritten signature.
pub fn boxed_strategy(hs: &HookSignature) -> (r: String)
    ensures
        r@ == boxed_parts_v(strs_view(hs.turbofish_names@), strs_view(hs.arg_names@)),
{
    let turbofish_text = turbofish(&hs.turbofish_names);
    let args_text = comma_concat(&hs.arg_names);
    let mut s = String::from_str(
        "let boxed_inner = ::std::boxed::Box::new(move |_ctx: &mut ::yew::functional::HookContext| { inner_fn",
    );
    s.append(turbofish_text.as_str());
    s.append("(_ctx, ");
    s.append(args_text.as_str());
    s.append(") }); ");
    s.append("::yew::functional::BoxedHook::new(boxed_inner)");
    s
}

/// The strategy text of a definition, selected by the return type shape.
pub open spec fn strategy_v(d: HookDefinitionV) -> Seq<char> {
    if spec_needs_boxing(d.ret) {
        boxed_parts_v(turbofish_names_v(d.generics, d.params), arg_names_v(d.params))
    } else {
        struct_parts_v(
            provider_generics_v(d.generics, d.params),
            desugar_params_v(d.params),
            spec_output_type(d.ret),
            arg_names_v(d.params),
            phantom_types_v(d.generics, d.params),
            phantom_lifetimes_v(d.generics, d.params),
            turbofish_names_v(d.generics, d.params),
        )
    }
}

/// The emitted public function's return type: the framework's
/// polymorphic interface over the resolved output type.
pub open spec fn outer_ret_text_v(d: HookDefinitionV) -> Seq<char> {
    " -> impl ::yew::functional::Hook<Output = "@ + render_ty_v(
        if spec_needs_boxing(d.ret) {
            with_lifetime_v(spec_output_type(d.ret), hook_lifetime_name_v(d.generics))
        } else {
            spec_output_type(d.ret)
        },
    ) + ">"@
}

/// The documentation attribute holding the escaped note.
pub open spec fn doc_attr_text_v(d: HookDefinitionV) -> Seq<char> {
    "#[doc = \""@ + escape_v(doc_note_v(d)) + "\"] "@
}

/// The full transformed definition's text.
pub open spec fn transformed_v(d: HookDefinitionV) -> Seq<char> {
    attrs_concat_v(d.attrs) + doc_attr_text_v(d) + render_vis_v(d.vis) + "fn "@ + d.name
        + render_generics_v(d.generics) + "("@ + join_params_v(d.params) + ")"@ + outer_ret_text_v(
        d,
    ) + " { "@ + inner_fn_text_v(d) + " "@ + strategy_v(d) + " }"@
}

/// The original definition's text, emitted verbatim under the
/// documentation-example extraction build mode.
pub open spec fn original_text_v(d: HookDefinitionV) -> Seq<char> {
    attrs_concat_v(d.attrs) + render_vis_v(d.vis) + "fn "@ + d.name + render_generics_v(d.generics)
        + "("@ + join_params_v(d.params) + ")"@ + render_ret_v(d.ret) + " "@ + render_block_v(
        d.body,
    )
}

/// Renders the original definition verbatim.
pub fn render_original(d: &HookDefinition) -> (r: String)
    ensures
        r@ == original_text_v(d@),
{
    let mut s = attrs_concat(&d.attrs);
    let vis = render_vis(&d.vis);
    s.append(vis.as_str());
    s.append("fn ");
    s.append(d.name.as_str());
    let g = render_generics(&d.generics);
    s.append(g.as_str());
    s.append("(");
    let p = join_params(&d.params);
    s.append(p.as_str());
    s.append(")");
    let ret = render_ret(&d.ret);
    s.append(ret.as_str());
    s.append(" ");
    let b = render_block(&d.body);
    s.append(b.as_str());
    s
}

} // verus!
