//! The signature rewriter: computes, from a validated definition, the
//! shape of the emitted code — the public generic contract, the inner
//! function's generic list, the resolved output type, the choice between
//! the struct-provider and the boxed-provider strategy, and the phantom
//! markers that keep the generated provider type generic-complete.

use vstd::prelude::*;

use crate::ast::{
    copy_generic, copy_generics, copy_ty, GenericParam, GenericParamV, HookDefinition, HookDefinitionV, Param, ParamV, Ty, TyV,
    ty_view, tys_view, lemma_tys_view,
};
use crate::lifetime::{
    copy_params, params_with_lifetime, params_with_lifetime_v, with_lifetime, with_lifetime_v,
};

verus! {

/// Whether a type mentions the type parameter named `g`.
pub open spec fn ty_mentions_type_v(t: TyV, g: Seq<char>) -> bool
    decreases t,
{
    match t {
        TyV::Unit => false,
        TyV::Path { name, args } => name == g || tys_mention_type_v(args, g),
        TyV::Reference { lifetime, inner } => ty_mentions_type_v(*inner, g),
        TyV::Opaque { bounds } => false,
    }
}

/// Whether any of the types mentions the type parameter named `g`.
pub open spec fn tys_mention_type_v(ts: Seq<TyV>, g: Seq<char>) -> bool
    decreases ts,
{
    if ts.len() == 0 {
        false
    } else {
        ty_mentions_type_v(ts[0], g) || tys_mention_type_v(ts.subrange(1, ts.len() as int), g)
    }
}

/// Whether a type mentions the lifetime named `l`.
pub open spec fn ty_mentions_lifetime_v(t: TyV, l: Seq<char>) -> bool
    decreases t,
{
    match t {
        TyV::Unit => false,
        TyV::Path { name, args } => tys_mention_lifetime_v(args, l),
        TyV::Reference { lifetime, inner } => (match lifetime {
            Option::Some(x) => x == l,
            Option::None => false,
        }) || ty_mentions_lifetime_v(*inner, l),
        TyV::Opaque { bounds } => false,
    }
}

/// Whether any of the types mentions the lifetime named `l`.
pub open spec fn tys_mention_lifetime_v(ts: Seq<TyV>, l: Seq<char>) -> bool
    decreases ts,
{
    if ts.len() == 0 {
        false
    } else {
        ty_mentions_lifetime_v(ts[0], l) || tys_mention_lifetime_v(
            ts.subrange(1, ts.len() as int),
            l,
        )
    }
}

/// Whether some parameter's declared type mentions the type parameter `g`.
pub open spec fn params_mention_type_v(ps: Seq<ParamV>, g: Seq<char>) -> bool {
    exists|i: int| 0 <= i < ps.len() && ty_mentions_type_v(ps[i].ty, g)
}

/// Whether some parameter's declared type mentions the lifetime `l`.
pub open spec fn params_mention_lifetime_v(ps: Seq<ParamV>, l: Seq<char>) -> bool {
    exists|i: int| 0 <= i < ps.len() && ty_mentions_lifetime_v(ps[i].ty, l)
}

/// Dynamic dispatch is needed exactly when the return type is written as
/// an opaque/existential constraint: such a type cannot be spelled as a
/// field of a concretely named provider struct, so the value must be
/// captured by a type-erased boxed callable instead.
pub open spec fn spec_needs_boxing(ret: Option<TyV>) -> bool {
    match ret {
        Option::Some(t) => t is Opaque,
        Option::None => false,
    }
}

/// The resolved output type: the declared return type, or the inferred
/// placeholder unit type where no annotation was written.
pub open spec fn spec_output_type(ret: Option<TyV>) -> TyV {
    match ret {
        Option::Some(t) => t,
        Option::None => TyV::Unit,
    }
}

/// The names of the declared type parameters that no parameter type
/// mentions, in declaration order: these must be preserved through
/// zero-size markers on the provider struct.
pub open spec fn phantom_types_v(gs: Seq<GenericParamV>, ps: Seq<ParamV>) -> Seq<Seq<char>>
    decreases gs,
{
    if gs.len() == 0 {
        Seq::<Seq<char>>::empty()
    } else {
        phantom_types_v(gs.drop_last(), ps) + (match gs.last() {
            GenericParamV::TypeParam { name, bounds } => if !params_mention_type_v(ps, name) {
                seq![name]
            } else {
                Seq::<Seq<char>>::empty()
            },
            GenericParamV::Lifetime { name } => Seq::<Seq<char>>::empty(),
        })
    }
}

/// The names of the declared lifetime parameters that no parameter type
/// mentions, in declaration order.
pub open spec fn phantom_lifetimes_v(gs: Seq<GenericParamV>, ps: Seq<ParamV>) -> Seq<Seq<char>>
    decreases gs,
{
    if gs.len() == 0 {
        Seq::<Seq<char>>::empty()
    } else {
        phantom_lifetimes_v(gs.drop_last(), ps) + (match gs.last() {
            GenericParamV::Lifetime { name } => if !params_mention_lifetime_v(ps, name) {
                seq![name]
            } else {
                Seq::<Seq<char>>::empty()
            },
            GenericParamV::TypeParam { name, bounds } => Seq::<Seq<char>>::empty(),
        })
    }
}

/// The argument-binding names, in the stable order of the parameter list.
pub open spec fn arg_names_v(ps: Seq<ParamV>) -> Seq<Seq<char>> {
    ps.map_values(|p: ParamV| p.name)
}

/// The length of the longest declared lifetime-parameter name.
pub open spec fn max_lifetime_name_len_v(gs: Seq<GenericParamV>) -> nat
    decreases gs,
{
    if gs.len() == 0 {
        0
    } else {
        let rest = max_lifetime_name_len_v(gs.drop_last());
        let here: nat = match gs[gs.len() - 1] {
            GenericParamV::Lifetime { name } => name.len(),
            GenericParamV::TypeParam { name, bounds } => 0,
        };
        if here > rest {
            here
        } else {
            rest
        }
    }
}

/// `n` underscores.
pub open spec fn underscores_v(n: nat) -> Seq<char>
    decreases n,
{
    if n == 0 {
        Seq::<char>::empty()
    } else {
        underscores_v((n - 1) as nat) + seq!['_']
    }
}

/// `underscores_v(n)` has length `n`.
pub proof fn lemma_underscores_len(n: nat)
    ensures
        underscores_v(n).len() == n,
    decreases n,
{
    if n > 0 {
        lemma_underscores_len((n - 1) as nat);
    }
}

/// The name of the synthesized unit lifetime: `hook`, extended with one
/// underscore per character of the longest declared lifetime name, so
/// that it is longer than — and therefore distinct from — every
/// lifetime name the input declares.
pub open spec fn hook_lifetime_name_v(gs: Seq<GenericParamV>) -> Seq<char> {
    "hook"@ + underscores_v(max_lifetime_name_len_v(gs))
}

/// No declared lifetime name exceeds the maximum.
pub proof fn lemma_max_lifetime_len(gs: Seq<GenericParamV>)
    ensures
        forall|i: int|
            0 <= i < gs.len() ==> ((#[trigger] gs[i]) matches GenericParamV::Lifetime { name }
                ==> name.len() <= max_lifetime_name_len_v(gs)),
    decreases gs,
{
    if gs.len() > 0 {
        lemma_max_lifetime_len(gs.drop_last());
        assert forall|i: int|
            0 <= i < gs.len() implies ((#[trigger] gs[i]) matches GenericParamV::Lifetime { name }
            ==> name.len() <= max_lifetime_name_len_v(gs)) by {
            if i < gs.len() - 1 {
                assert(gs.drop_last()[i] == gs[i]);
            }
        }
    }
}

/// The synthesized unit lifetime never collides with a declared
/// lifetime parameter.
pub proof fn lemma_hook_lifetime_fresh(gs: Seq<GenericParamV>)
    ensures
        forall|i: int|
            0 <= i < gs.len() ==> ((#[trigger] gs[i]) matches GenericParamV::Lifetime { name }
                ==> name != hook_lifetime_name_v(gs)),
{
    reveal_strlit("hook");
    lemma_underscores_len(max_lifetime_name_len_v(gs));
    lemma_max_lifetime_len(gs);
    assert(hook_lifetime_name_v(gs).len() == 4 + max_lifetime_name_len_v(gs));
}

/// Computes the synthesized unit-lifetime name for a definition.
pub fn fresh_hook_lifetime(gs: &Vec<GenericParam>) -> (r: String)
    ensures
        r@ == hook_lifetime_name_v(gs@.map_values(|g: GenericParam| g@)),
{
    let ghost gsv = gs@.map_values(|g: GenericParam| g@);
    let mut m: usize = 0;
    let mut i: usize = 0;
    proof {
        assert(gsv.take(0) =~= Seq::<GenericParamV>::empty());
    }
    while i < gs.len()
        invariant
            i <= gs.len(),
            gsv == gs@.map_values(|g: GenericParam| g@),
            gsv.len() == gs@.len(),
            m as nat == max_lifetime_name_len_v(gsv.take(i as int)),
        decreases gs@.len() - i,
    {
        match &gs[i] {
            GenericParam::Lifetime { name } => {
                let l: usize = name.as_str().unicode_len();
                if l > m {
                    m = l;
                }
            },
            GenericParam::TypeParam { name, bounds } => {},
        }
        proof {
            let prefix = gsv.take(i as int + 1);
            assert(prefix.drop_last() =~= gsv.take(i as int));
            assert(prefix[prefix.len() - 1] == gsv[i as int]);
            assert(gsv[i as int] == gs@[i as int]@);
        }
        i = i + 1;
    }
    proof {
        assert(gsv.take(gsv.len() as int) =~= gsv);
    }
    let mut s = String::from_str("hook");
    let mut k: usize = 0;
    while k < m
        invariant
            k <= m,
            s@ == "hook"@ + underscores_v(k as nat),
        decreases m - k,
    {
        s.push('_');
        proof {
            assert(s@ =~= "hook"@ + underscores_v((k + 1) as nat));
        }
        k = k + 1;
    }
    s
}

/// The synthesized type-parameter name standing for a parameter whose
/// declared type is opaque.
pub open spec fn synth_name_v(param_name: Seq<char>) -> Seq<char> {
    "__HookArg_"@ + param_name
}

/// A parameter whose declared type is opaque, rewritten to name the
/// synthesized type parameter that stands for it; any other parameter
/// unchanged. An opaque parameter type is sugar for an anonymous type
/// parameter, and the generated provider must name it to hold the value
/// as a field.
pub open spec fn desugared_param_v(p: ParamV) -> ParamV {
    match p.ty {
        TyV::Opaque { bounds } => ParamV {
            name: p.name,
            ty: TyV::Path { name: synth_name_v(p.name), args: Seq::<TyV>::empty() },
        },
        _ => p,
    }
}

/// The parameter list with every opaque parameter type desugared.
pub open spec fn desugar_params_v(ps: Seq<ParamV>) -> Seq<ParamV> {
    ps.map_values(|p: ParamV| desugared_param_v(p))
}

/// The synthesized type parameters: one per parameter with an opaque
/// declared type, carrying that type's bounds, in parameter order.
pub open spec fn synth_params_v(ps: Seq<ParamV>) -> Seq<GenericParamV>
    decreases ps,
{
    if ps.len() == 0 {
        Seq::<GenericParamV>::empty()
    } else {
        synth_params_v(ps.drop_last()) + (match ps[ps.len() - 1].ty {
            TyV::Opaque { bounds } => seq![
                GenericParamV::TypeParam { name: synth_name_v(ps[ps.len() - 1].name), bounds },
            ],
            _ => Seq::<GenericParamV>::empty(),
        })
    }
}

/// Inference placeholders for the turbofish: one `_` per synthesized
/// type parameter, whose concrete type cannot be named at the call site.
pub open spec fn synth_placeholders_v(ps: Seq<ParamV>) -> Seq<Seq<char>>
    decreases ps,
{
    if ps.len() == 0 {
        Seq::<Seq<char>>::empty()
    } else {
        synth_placeholders_v(ps.drop_last()) + (match ps[ps.len() - 1].ty {
            TyV::Opaque { bounds } => seq!["_"@],
            _ => Seq::<Seq<char>>::empty(),
        })
    }
}

/// The names of the declared type parameters, in order.
pub open spec fn type_param_names_v(gs: Seq<GenericParamV>) -> Seq<Seq<char>>
    decreases gs,
{
    if gs.len() == 0 {
        Seq::<Seq<char>>::empty()
    } else {
        type_param_names_v(gs.drop_last()) + (match gs[gs.len() - 1] {
            GenericParamV::TypeParam { name, bounds } => seq![name],
            GenericParamV::Lifetime { name } => Seq::<Seq<char>>::empty(),
        })
    }
}

/// The turbofish argument texts: the declared type parameters by name,
/// then one inference placeholder per synthesized type parameter.
pub open spec fn turbofish_names_v(gs: Seq<GenericParamV>, ps: Seq<ParamV>) -> Seq<Seq<char>> {
    type_param_names_v(gs) + synth_placeholders_v(ps)
}

/// The generic parameter list of the generated provider type: the
/// declared list, followed by the synthesized type parameters.
pub open spec fn provider_generics_v(gs: Seq<GenericParamV>, ps: Seq<ParamV>) -> Seq<
    GenericParamV,
> {
    gs + synth_params_v(ps)
}

/// The names of the declared type parameters, in order.
pub fn type_param_names(gs: &Vec<GenericParam>) -> (r: Vec<String>)
    ensures
        crate::ast::strs_view(r@) == type_param_names_v(gs@.map_values(|g: GenericParam| g@)),
{
    let ghost gsv = gs@.map_values(|g: GenericParam| g@);
    let mut r: Vec<String> = Vec::new();
    let mut i: usize = 0;
    proof {
        assert(gsv.take(0) =~= Seq::<GenericParamV>::empty());
        assert(crate::ast::strs_view(r@) =~= type_param_names_v(gsv.take(0)));
    }
    while i < gs.len()
        invariant
            i <= gs.len(),
            gsv == gs@.map_values(|g: GenericParam| g@),
            gsv.len() == gs@.len(),
            crate::ast::strs_view(r@) == type_param_names_v(gsv.take(i as int)),
        decreases gs@.len() - i,
    {
        match &gs[i] {
            GenericParam::TypeParam { name, bounds } => {
                r.push(name.clone());
            },
            GenericParam::Lifetime { name } => {},
        }
        proof {
            let prefix = gsv.take(i as int + 1);
            assert(prefix.drop_last() =~= gsv.take(i as int));
            assert(prefix[prefix.len() - 1] == gsv[i as int]);
            assert(gsv[i as int] == gs@[i as int]@);
            assert(crate::ast::strs_view(r@) =~= type_param_names_v(prefix));
        }
        i = i + 1;
    }
    proof {
        assert(gsv.take(gsv.len() as int) =~= gsv);
    }
    r
}

/// Computes the synthesized type parameters of a parameter list.
pub fn synth_params(ps: &Vec<Param>) -> (r: Vec<GenericParam>)
    ensures
        r@.map_values(|g: GenericParam| g@) == synth_params_v(ps@.map_values(|p: Param| p@)),
{
    let ghost psv = ps@.map_values(|p: Param| p@);
    let mut r: Vec<GenericParam> = Vec::new();
    let mut i: usize = 0;
    proof {
        assert(psv.take(0) =~= Seq::<ParamV>::empty());
        assert(r@.map_values(|g: GenericParam| g@) =~= synth_params_v(psv.take(0)));
    }
    while i < ps.len()
        invariant
            i <= ps.len(),
            psv == ps@.map_values(|p: Param| p@),
            psv.len() == ps@.len(),
            r@.map_values(|g: GenericParam| g@) == synth_params_v(psv.take(i as int)),
        decreases ps@.len() - i,
    {
        match &ps[i].ty {
            Ty::Opaque { bounds } => {
                let mut n = String::from_str("__HookArg_");
                n.append(ps[i].name.as_str());
                r.push(GenericParam::TypeParam { name: n, bounds: bounds.clone() });
            },
            _ => {},
        }
        proof {
            let prefix = psv.take(i as int + 1);
            assert(prefix.drop_last() =~= psv.take(i as int));
            assert(prefix[prefix.len() - 1] == psv[i as int]);
            assert(psv[i as int] == ps@[i as int]@);
            assert(r@.map_values(|g: GenericParam| g@) =~= synth_params_v(prefix));
        }
        i = i + 1;
    }
    proof {
        assert(psv.take(psv.len() as int) =~= psv);
    }
    r
}

/// Desugars every opaque parameter type into its synthesized named type.
pub fn desugar_params(ps: &Vec<Param>) -> (r: Vec<Param>)
    ensures
        r@.map_values(|p: Param| p@) == desugar_params_v(ps@.map_values(|p: Param| p@)),
        r@.len() == ps@.len(),
{
    let ghost psv = ps@.map_values(|p: Param| p@);
    let mut r: Vec<Param> = Vec::new();
    let mut i: usize = 0;
    while i < ps.len()
        invariant
            i <= ps.len(),
            psv == ps@.map_values(|p: Param| p@),
            psv.len() == ps@.len(),
            r@.len() == i,
            forall|j: int| 0 <= j < i ==> r@[j]@ == desugared_param_v(psv[j]),
        decreases ps@.len() - i,
    {
        match &ps[i].ty {
            Ty::Opaque { bounds } => {
                let mut n = String::from_str("__HookArg_");
                n.append(ps[i].name.as_str());
                r.push(
                    Param { name: ps[i].name.clone(), ty: Ty::Path { name: n, args: Vec::new() } },
                );
                proof {
                    assert(psv[i as int] == ps@[i as int]@);
                    assert(psv[i as int].ty == ty_view(ps@[i as int].ty));
                    assert(tys_view(Seq::<Ty>::empty()) =~= Seq::<TyV>::empty());
                    assert(r@[i as int]@ == desugared_param_v(psv[i as int]));
                }
            },
            _ => {
                let c = crate::ast::copy_param(&ps[i]);
                r.push(c);
                proof {
                    assert(psv[i as int] == ps@[i as int]@);
                    assert(psv[i as int].ty == ty_view(ps@[i as int].ty));
                    assert(r@[i as int]@ == desugared_param_v(psv[i as int]));
                }
            },
        }
        i = i + 1;
    }
    proof {
        assert(r@.map_values(|p: Param| p@) =~= desugar_params_v(psv));
    }
    r
}

/// The turbofish argument texts of a definition.
pub fn turbofish_names(gs: &Vec<GenericParam>, ps: &Vec<Param>) -> (r: Vec<String>)
    ensures
        crate::ast::strs_view(r@) == turbofish_names_v(
            gs@.map_values(|g: GenericParam| g@),
            ps@.map_values(|p: Param| p@),
        ),
{
    let ghost gsv = gs@.map_values(|g: GenericParam| g@);
    let ghost psv = ps@.map_values(|p: Param| p@);
    let mut r = type_param_names(gs);
    let mut i: usize = 0;
    proof {
        assert(psv.take(0) =~= Seq::<ParamV>::empty());
        assert(crate::ast::strs_view(r@) =~= type_param_names_v(gsv) + synth_placeholders_v(
            psv.take(0),
        ));
    }
    while i < ps.len()
        invariant
            i <= ps.len(),
            gsv == gs@.map_values(|g: GenericParam| g@),
            psv == ps@.map_values(|p: Param| p@),
            psv.len() == ps@.len(),
            crate::ast::strs_view(r@) == type_param_names_v(gsv) + synth_placeholders_v(
                psv.take(i as int),
            ),
        decreases ps@.len() - i,
    {
        let ghost pre = r@;
        match &ps[i].ty {
            Ty::Opaque { bounds } => {
                r.push(String::from_str("_"));
                proof {
                    assert(psv[i as int] == ps@[i as int]@);
                    assert(psv[i as int].ty == ty_view(ps@[i as int].ty));
                    assert(psv[i as int].ty is Opaque);
                    let prefix = psv.take(i as int + 1);
                    assert(prefix.drop_last() =~= psv.take(i as int));
                    assert(prefix[prefix.len() - 1] == psv[i as int]);
                    assert(synth_placeholders_v(prefix) == synth_placeholders_v(
                        psv.take(i as int),
                    ) + seq!["_"@]);
                    assert(crate::ast::strs_view(r@) =~= crate::ast::strs_view(pre) + seq![
                        "_"@,
                    ]);
                    assert(crate::ast::strs_view(r@) =~= type_param_names_v(gsv)
                        + synth_placeholders_v(prefix));
                }
            },
            _ => {
                proof {
                    assert(psv[i as int] == ps@[i as int]@);
                    assert(psv[i as int].ty == ty_view(ps@[i as int].ty));
                    assert(!(psv[i as int].ty is Opaque));
                    let prefix = psv.take(i as int + 1);
                    assert(prefix.drop_last() =~= psv.take(i as int));
                    assert(prefix[prefix.len() - 1] == psv[i as int]);
                    assert(synth_placeholders_v(prefix) =~= synth_placeholders_v(
                        psv.take(i as int),
                    ));
                    assert(crate::ast::strs_view(r@) =~= type_param_names_v(gsv)
                        + synth_placeholders_v(prefix));
                }
            },
        }
        i = i + 1;
    }
    proof {
        assert(psv.take(psv.len() as int) =~= psv);
    }
    r
}

/// Appends copies of the given generic parameters.
pub fn append_generics(dst: &mut Vec<GenericParam>, src: &Vec<GenericParam>)
    ensures
        final(dst)@.map_values(|g: GenericParam| g@) == old(dst)@.map_values(
            |g: GenericParam| g@,
        ) + src@.map_values(|g: GenericParam| g@),
{
    let mut i: usize = 0;
    while i < src.len()
        invariant
            i <= src.len(),
            dst@.len() == old(dst)@.len() + i,
            forall|j: int| 0 <= j < old(dst)@.len() ==> dst@[j] == old(dst)@[j],
            forall|j: int| 0 <= j < i ==> dst@[old(dst)@.len() + j]@ == src@[j]@,
        decreases src@.len() - i,
    {
        let c = copy_generic(&src[i]);
        dst.push(c);
        i = i + 1;
    }
    proof {
        assert(dst@.map_values(|g: GenericParam| g@) =~= old(dst)@.map_values(
            |g: GenericParam| g@,
        ) + src@.map_values(|g: GenericParam| g@));
    }
}

/// Whether a type mentions the type parameter named `g`.
pub fn ty_mentions_type(t: &Ty, g: &String) -> (r: bool)
    ensures
        r == ty_mentions_type_v(ty_view(*t), g@),
    decreases t,
{
    match t {
        Ty::Unit => false,
        Ty::Path { name, args } => name.eq(g) || tys_mention_type(args, g),
        Ty::Reference { lifetime, inner } => ty_mentions_type(inner, g),
        Ty::Opaque { bounds } => false,
    }
}

/// Whether any of the types mentions the type parameter named `g`.
pub fn tys_mention_type(ts: &Vec<Ty>, g: &String) -> (r: bool)
    ensures
        r == tys_mention_type_v(tys_view(ts@), g@),
    decreases ts,
{
    let mut i: usize = 0;
    let ghost tsv = tys_view(ts@);
    proof {
        lemma_tys_view(ts@);
    }
    while i < ts.len()
        invariant
            i <= ts.len(),
            tsv == tys_view(ts@),
            tsv.len() == ts@.len(),
            forall|j: int| 0 <= j < ts@.len() ==> tsv[j] == ty_view(ts@[j]),
            forall|j: int| 0 <= j < i ==> !ty_mentions_type_v(tsv[j], g@),
        decreases ts@.len() - i,
    {
        proof {
            assert(decreases_to!(ts => ts@[i as int]));
        }
        if ty_mentions_type(&ts[i], g) {
            proof {
                lemma_tys_mention_type_index(tsv, g@);
                assert(ty_mentions_type_v(tsv[i as int], g@));
                assert(exists|j: int| 0 <= j < tsv.len() && ty_mentions_type_v(tsv[j], g@));
            }
            return true;
        }
        i = i + 1;
    }
    proof {
        lemma_tys_mention_type_index(tsv, g@);
    }
    false
}

/// A sequence of types mentions `g` exactly when one of its elements does.
pub proof fn lemma_tys_mention_type_index(ts: Seq<TyV>, g: Seq<char>)
    ensures
        tys_mention_type_v(ts, g) <==> exists|i: int|
            0 <= i < ts.len() && ty_mentions_type_v(ts[i], g),
    decreases ts,
{
    if ts.len() > 0 {
        let tail = ts.subrange(1, ts.len() as int);
        lemma_tys_mention_type_index(tail, g);
        if ty_mentions_type_v(ts[0], g) {
            assert(exists|i: int| 0 <= i < ts.len() && ty_mentions_type_v(ts[i], g));
        } else if tys_mention_type_v(tail, g) {
            let k = choose|i: int| 0 <= i < tail.len() && ty_mentions_type_v(tail[i], g);
            assert(ts[k + 1] == tail[k]);
            assert(exists|i: int| 0 <= i < ts.len() && ty_mentions_type_v(ts[i], g));
        } else {
            assert forall|i: int| 0 <= i < ts.len() implies !ty_mentions_type_v(ts[i], g) by {
                if i > 0 {
                    assert(tail[i - 1] == ts[i]);
                    assert(!ty_mentions_type_v(tail[i - 1], g));
                }
            }
        }
    }
}

/// Whether a type mentions the lifetime named `l`.
pub fn ty_mentions_lifetime(t: &Ty, l: &String) -> (r: bool)
    ensures
        r == ty_mentions_lifetime_v(ty_view(*t), l@),
    decreases t,
{
    match t {
        Ty::Unit => false,
        Ty::Path { name, args } => tys_mention_lifetime(args, l),
        Ty::Reference { lifetime, inner } => {
            let here = match lifetime {
                Option::Some(x) => x.eq(l),
                Option::None => false,
            };
            here || ty_mentions_lifetime(inner, l)
        },
        Ty::Opaque { bounds } => false,
    }
}

/// Whether any of the types mentions the lifetime named `l`.
pub fn tys_mention_lifetime(ts: &Vec<Ty>, l: &String) -> (r: bool)
    ensures
        r == tys_mention_lifetime_v(tys_view(ts@), l@),
    decreases ts,
{
    let mut i: usize = 0;
    let ghost tsv = tys_view(ts@);
    proof {
        lemma_tys_view(ts@);
    }
    while i < ts.len()
        invariant
            i <= ts.len(),
            tsv == tys_view(ts@),
            tsv.len() == ts@.len(),
            forall|j: int| 0 <= j < ts@.len() ==> tsv[j] == ty_view(ts@[j]),
            forall|j: int| 0 <= j < i ==> !ty_mentions_lifetime_v(tsv[j], l@),
        decreases ts@.len() - i,
    {
        proof {
            assert(decreases_to!(ts => ts@[i as int]));
        }
        if ty_mentions_lifetime(&ts[i], l) {
            proof {
                lemma_tys_mention_lifetime_index(tsv, l@);
                assert(ty_mentions_lifetime_v(tsv[i as int], l@));
                assert(exists|j: int| 0 <= j < tsv.len() && ty_mentions_lifetime_v(tsv[j], l@));
            }
            return true;
        }
        i = i + 1;
    }
    proof {
        lemma_tys_mention_lifetime_index(tsv, l@);
    }
    false
}

/// A sequence of types mentions `l` exactly when one of its elements does.
pub proof fn lemma_tys_mention_lifetime_index(ts: Seq<TyV>, l: Seq<char>)
    ensures
        tys_mention_lifetime_v(ts, l) <==> exists|i: int|
            0 <= i < ts.len() && ty_mentions_lifetime_v(ts[i], l),
    decreases ts,
{
    if ts.len() > 0 {
        let tail = ts.subrange(1, ts.len() as int);
        lemma_tys_mention_lifetime_index(tail, l);
        if ty_mentions_lifetime_v(ts[0], l) {
            assert(exists|i: int| 0 <= i < ts.len() && ty_mentions_lifetime_v(ts[i], l));
        } else if tys_mention_lifetime_v(tail, l) {
            let k = choose|i: int| 0 <= i < tail.len() && ty_mentions_lifetime_v(tail[i], l);
            assert(ts[k + 1] == tail[k]);
            assert(exists|i: int| 0 <= i < ts.len() && ty_mentions_lifetime_v(ts[i], l));
        } else {
            assert forall|i: int| 0 <= i < ts.len() implies !ty_mentions_lifetime_v(ts[i], l) by {
                if i > 0 {
                    assert(tail[i - 1] == ts[i]);
                    assert(!ty_mentions_lifetime_v(tail[i - 1], l));
                }
            }
        }
    }
}

/// Whether some parameter's declared type mentions the type parameter `g`.
pub fn params_mention_type(ps: &Vec<Param>, g: &String) -> (r: bool)
    ensures
        r == params_mention_type_v(ps@.map_values(|p: Param| p@), g@),
{
    let ghost psv = ps@.map_values(|p: Param| p@);
    let mut i: usize = 0;
    while i < ps.len()
        invariant
            i <= ps.len(),
            psv == ps@.map_values(|p: Param| p@),
            forall|j: int| 0 <= j < i ==> !ty_mentions_type_v(psv[j].ty, g@),
        decreases ps@.len() - i,
    {
        if ty_mentions_type(&ps[i].ty, g) {
            assert(ty_mentions_type_v(psv[i as int].ty, g@));
            return true;
        }
        i = i + 1;
    }
    false
}

/// Computes the phantom type-parameter names of a definition.
pub fn phantom_types(gs: &Vec<GenericParam>, ps: &Vec<Param>) -> (r: Vec<String>)
    ensures
        crate::ast::strs_view(r@) == phantom_types_v(
            gs@.map_values(|g: GenericParam| g@),
            ps@.map_values(|p: Param| p@),
        ),
{
    let ghost gsv = gs@.map_values(|g: GenericParam| g@);
    let ghost psv = ps@.map_values(|p: Param| p@);
    let mut r: Vec<String> = Vec::new();
    let mut i: usize = 0;
    proof {
        assert(gsv.take(0) =~= Seq::<GenericParamV>::empty());
        assert(crate::ast::strs_view(r@) =~= phantom_types_v(gsv.take(0), psv));
    }
    while i < gs.len()
        invariant
            i <= gs.len(),
            gsv == gs@.map_values(|g: GenericParam| g@),
            psv == ps@.map_values(|p: Param| p@),
            gsv.len() == gs@.len(),
            crate::ast::strs_view(r@) == phantom_types_v(gsv.take(i as int), psv),
        decreases gs@.len() - i,
    {
        match &gs[i] {
            GenericParam::TypeParam { name, bounds } => {
                if !params_mention_type(ps, name) {
                    r.push(name.clone());
                }
            },
            GenericParam::Lifetime { name } => {},
        }
        proof {
            let prefix = gsv.take(i as int + 1);
            assert(prefix.drop_last() =~= gsv.take(i as int));
            assert(prefix.last() == gsv[i as int]);
            assert(gsv[i as int] == gs@[i as int]@);
            assert(crate::ast::strs_view(r@) =~= phantom_types_v(prefix, psv));
        }
        i = i + 1;
    }
    proof {
        assert(gsv.take(gsv.len() as int) =~= gsv);
    }
    r
}

/// Computes the phantom lifetime-parameter names of a definition.
pub fn phantom_lifetimes(gs: &Vec<GenericParam>, ps: &Vec<Param>) -> (r: Vec<String>)
    ensures
        crate::ast::strs_view(r@) == phantom_lifetimes_v(
            gs@.map_values(|g: GenericParam| g@),
            ps@.map_values(|p: Param| p@),
        ),
{
    let ghost gsv = gs@.map_values(|g: GenericParam| g@);
    let ghost psv = ps@.map_values(|p: Param| p@);
    let mut r: Vec<String> = Vec::new();
    let mut i: usize = 0;
    proof {
        assert(gsv.take(0) =~= Seq::<GenericParamV>::empty());
        assert(crate::ast::strs_view(r@) =~= phantom_lifetimes_v(gsv.take(0), psv));
    }
    while i < gs.len()
        invariant
            i <= gs.len(),
            gsv == gs@.map_values(|g: GenericParam| g@),
            psv == ps@.map_values(|p: Param| p@),
            gsv.len() == gs@.len(),
            crate::ast::strs_view(r@) == phantom_lifetimes_v(gsv.take(i as int), psv),
        decreases gs@.len() - i,
    {
        match &gs[i] {
            GenericParam::Lifetime { name } => {
                if !params_mention_lifetime(ps, name) {
                    r.push(name.clone());
                }
            },
            GenericParam::TypeParam { name, bounds } => {},
        }
        proof {
            let prefix = gsv.take(i as int + 1);
            assert(prefix.drop_last() =~= gsv.take(i as int));
            assert(prefix.last() == gsv[i as int]);
            assert(gsv[i as int] == gs@[i as int]@);
            assert(crate::ast::strs_view(r@) =~= phantom_lifetimes_v(prefix, psv));
        }
        i = i + 1;
    }
    proof {
        assert(gsv.take(gsv.len() as int) =~= gsv);
    }
    r
}

/// The rewritten signature: everything the code emitter needs to know
/// about the shape of the definition being transformed.
pub struct HookSignature {
    /// The public generic parameter list, unchanged from the input.
    pub generics: Vec<GenericParam>,
    /// The generic list of the inner implementation function: the public
    /// list, then the synthesized type parameters, preceded by the unit
    /// lifetime when boxing is required.
    pub inner_generics: Vec<GenericParam>,
    /// The generic list of the generated provider type: the public list,
    /// then the synthesized type parameters.
    pub provider_generics: Vec<GenericParam>,
    /// The parameter list, opaque parameter types desugared to their
    /// synthesized named types; when boxing is required, elided lifetimes
    /// in the parameter types are rewritten to the unit lifetime.
    pub params: Vec<Param>,
    /// The resolved output type, lifetime-rewritten when boxing.
    pub output: Ty,
    /// Whether the input wrote a return-type annotation at all.
    pub explicit_output: bool,
    /// Whether the boxed-provider strategy is selected.
    pub needs_boxing: bool,
    /// The name of the synthesized unit lifetime, without the leading `'`.
    pub hook_lifetime: String,
    /// The argument-binding names, in the order of the parameter list.
    pub arg_names: Vec<String>,
    /// The turbofish argument texts: declared type parameters by name,
    /// inference placeholders for the synthesized ones.
    pub turbofish_names: Vec<String>,
    /// Type parameters preserved only through zero-size markers.
    pub phantom_types: Vec<String>,
    /// Lifetime parameters preserved only through zero-size markers.
    pub phantom_lifetimes: Vec<String>,
}

impl HookSignature {
    /// Computes the rewritten signature of a definition. This stage is
    /// total: it succeeds on every validated definition.
    pub fn rewrite(d: &HookDefinition) -> (r: HookSignature)
        ensures
            r.generics@.map_values(|g: GenericParam| g@) == d@.generics,
            r.needs_boxing == spec_needs_boxing(d@.ret),
            r.hook_lifetime@ == hook_lifetime_name_v(d@.generics),
            r.explicit_output == (d@.ret is Some),
            r.provider_generics@.map_values(|g: GenericParam| g@) == provider_generics_v(
                d@.generics,
                d@.params,
            ),
            r.inner_generics@.map_values(|g: GenericParam| g@) == if spec_needs_boxing(d@.ret) {
                seq![GenericParamV::Lifetime { name: hook_lifetime_name_v(d@.generics) }]
                    + provider_generics_v(d@.generics, d@.params)
            } else {
                provider_generics_v(d@.generics, d@.params)
            },
            ty_view(r.output) == if spec_needs_boxing(d@.ret) {
                with_lifetime_v(spec_output_type(d@.ret), hook_lifetime_name_v(d@.generics))
            } else {
                spec_output_type(d@.ret)
            },
            r.params@.map_values(|p: Param| p@) == desugar_params_v(
                if spec_needs_boxing(d@.ret) {
                    params_with_lifetime_v(d@.params, hook_lifetime_name_v(d@.generics))
                } else {
                    d@.params
                },
            ),
            crate::ast::strs_view(r.arg_names@) == arg_names_v(d@.params),
            crate::ast::strs_view(r.turbofish_names@) == turbofish_names_v(
                d@.generics,
                d@.params,
            ),
            crate::ast::strs_view(r.phantom_types@) == phantom_types_v(d@.generics, d@.params),
            crate::ast::strs_view(r.phantom_lifetimes@) == phantom_lifetimes_v(
                d@.generics,
                d@.params,
            ),
    {
        let needs_boxing = match &d.ret {
            Option::Some(t) => match t {
                Ty::Opaque { bounds } => true,
                _ => false,
            },
            Option::None => false,
        };
        let hook_lifetime = fresh_hook_lifetime(&d.generics);
        let generics = copy_generics(&d.generics);
        let synth = synth_params(&d.params);
        let mut provider_generics = copy_generics(&d.generics);
        append_generics(&mut provider_generics, &synth);
        let mut inner_generics = copy_generics(&d.generics);
        append_generics(&mut inner_generics, &synth);
        if needs_boxing {
            let ghost pre = inner_generics@;
            inner_generics.insert(0, GenericParam::Lifetime { name: hook_lifetime.clone() });
            proof {
                assert(inner_generics@.map_values(|g: GenericParam| g@) =~= seq![
                    GenericParamV::Lifetime { name: hook_lifetime_name_v(d@.generics) },
                ] + pre.map_values(|g: GenericParam| g@));
            }
        }
        let base_output = match &d.ret {
            Option::None => Ty::Unit,
            Option::Some(t) => copy_ty(t),
        };
        let output = if needs_boxing {
            with_lifetime(&base_output, &hook_lifetime)
        } else {
            base_output
        };
        let base_params = if needs_boxing {
            params_with_lifetime(&d.params, &hook_lifetime)
        } else {
            copy_params(&d.params)
        };
        let params = desugar_params(&base_params);
        let mut arg_names: Vec<String> = Vec::new();
        let mut i: usize = 0;
        while i < d.params.len()
            invariant
                i <= d.params.len(),
                arg_names@.len() == i,
                forall|j: int| 0 <= j < i ==> arg_names@[j]@ == d.params@[j]@.name,
            decreases d.params@.len() - i,
        {
            arg_names.push(d.params[i].name.clone());
            i = i + 1;
        }
        proof {
            assert(crate::ast::strs_view(arg_names@) =~= arg_names_v(d@.params));
        }
        let explicit_output = match &d.ret {
            Option::Some(t) => true,
            Option::None => false,
        };
        HookSignature {
            generics,
            inner_generics,
            provider_generics,
            params,
            output,
            explicit_output,
            needs_boxing,
            hook_lifetime,
            arg_names,
            turbofish_names: turbofish_names(&d.generics, &d.params),
            phantom_types: phantom_types(&d.generics, &d.params),
            phantom_lifetimes: phantom_lifetimes(&d.generics, &d.params),
        }
    }
}

/// Strategy selection is a pure function of the return type's shape: two
/// definitions with the same return type select the same strategy, the
/// boxed strategy is selected exactly for an opaque/existential return
/// type, and every other shape — a named type or a bare absence of a
/// return type — selects the struct-provider strategy.
pub proof fn lemma_boxing_selected_by_return_shape(d1: HookDefinitionV, d2: HookDefinitionV)
    requires
        d1.ret == d2.ret,
    ensures
        spec_needs_boxing(d1.ret) == spec_needs_boxing(d2.ret),
        spec_needs_boxing(d1.ret) <==> spec_output_type(d1.ret) is Opaque,
        d1.ret is None ==> !spec_needs_boxing(d1.ret),
{
}

/// Whether some parameter's declared type mentions the lifetime `l`.
pub fn params_mention_lifetime(ps: &Vec<Param>, l: &String) -> (r: bool)
    ensures
        r == params_mention_lifetime_v(ps@.map_values(|p: Param| p@), l@),
{
    let ghost psv = ps@.map_values(|p: Param| p@);
    let mut i: usize = 0;
    while i < ps.len()
        invariant
            i <= ps.len(),
            psv == ps@.map_values(|p: Param| p@),
            forall|j: int| 0 <= j < i ==> !ty_mentions_lifetime_v(psv[j].ty, l@),
        decreases ps@.len() - i,
    {
        if ty_mentions_lifetime(&ps[i].ty, l) {
            assert(ty_mentions_lifetime_v(psv[i as int].ty, l@));
            return true;
        }
        i = i + 1;
    }
    false
}

} // verus!
