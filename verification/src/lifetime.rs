//! Rewriting of elided lifetimes: where the boxed strategy synthesizes a
//! unit lifetime, every reference type written without a lifetime is
//! rewritten to borrow for that lifetime, consistently across the
//! parameter and return types.

use vstd::prelude::*;

use crate::ast::{copy_param, Param, ParamV, Ty, TyV, ty_view, tys_view, lemma_tys_view};

verus! {

/// The given type with every elided lifetime replaced by `lt`.
pub open spec fn with_lifetime_v(t: TyV, lt: Seq<char>) -> TyV
    decreases t,
{
    match t {
        TyV::Unit => TyV::Unit,
        TyV::Path { name, args } => TyV::Path { name, args: with_lifetime_tys_v(args, lt) },
        TyV::Reference { lifetime, inner } => TyV::Reference {
            lifetime: match lifetime {
                Option::None => Option::Some(lt),
                Option::Some(l) => Option::Some(l),
            },
            inner: Box::new(with_lifetime_v(*inner, lt)),
        },
        TyV::Opaque { bounds } => TyV::Opaque { bounds },
    }
}

/// The given types, each with every elided lifetime replaced by `lt`.
pub open spec fn with_lifetime_tys_v(ts: Seq<TyV>, lt: Seq<char>) -> Seq<TyV>
    decreases ts,
{
    if ts.len() == 0 {
        Seq::<TyV>::empty()
    } else {
        seq![with_lifetime_v(ts[0], lt)] + with_lifetime_tys_v(ts.subrange(1, ts.len() as int), lt)
    }
}

/// `with_lifetime_tys_v` maps `with_lifetime_v` element by element.
pub proof fn lemma_with_lifetime_tys_v(ts: Seq<TyV>, lt: Seq<char>)
    ensures
        with_lifetime_tys_v(ts, lt).len() == ts.len(),
        forall|i: int|
            0 <= i < ts.len() ==> with_lifetime_tys_v(ts, lt)[i] == with_lifetime_v(ts[i], lt),
    decreases ts,
{
    if ts.len() > 0 {
        lemma_with_lifetime_tys_v(ts.subrange(1, ts.len() as int), lt);
    }
}

/// Replaces every elided lifetime of a type with `lt`.
pub fn with_lifetime(t: &Ty, lt: &String) -> (r: Ty)
    ensures
        ty_view(r) == with_lifetime_v(ty_view(*t), lt@),
    decreases t,
{
    match t {
        Ty::Unit => Ty::Unit,
        Ty::Path { name, args } => Ty::Path {
            name: name.clone(),
            args: with_lifetime_tys(args, lt),
        },
        Ty::Reference { lifetime, inner } => {
            let new_lifetime = match lifetime {
                Option::None => Option::Some(lt.clone()),
                Option::Some(l) => Option::Some(l.clone()),
            };
            Ty::Reference { lifetime: new_lifetime, inner: Box::new(with_lifetime(inner, lt)) }
        },
        Ty::Opaque { bounds } => Ty::Opaque { bounds: bounds.clone() },
    }
}

/// Replaces every elided lifetime of each type with `lt`.
pub fn with_lifetime_tys(ts: &Vec<Ty>, lt: &String) -> (r: Vec<Ty>)
    ensures
        tys_view(r@) == with_lifetime_tys_v(tys_view(ts@), lt@),
        r@.len() == ts@.len(),
    decreases ts,
{
    let mut r: Vec<Ty> = Vec::new();
    let mut i: usize = 0;
    while i < ts.len()
        invariant
            i <= ts.len(),
            r@.len() == i,
            forall|j: int|
                0 <= j < i ==> ty_view(r@[j]) == with_lifetime_v(ty_view(ts@[j]), lt@),
        decreases ts@.len() - i,
    {
        proof {
            assert(decreases_to!(ts => ts@[i as int]));
        }
        let c = with_lifetime(&ts[i], lt);
        r.push(c);
        i = i + 1;
    }
    proof {
        lemma_tys_view(r@);
        lemma_tys_view(ts@);
        lemma_with_lifetime_tys_v(tys_view(ts@), lt@);
        assert(tys_view(r@) =~= with_lifetime_tys_v(tys_view(ts@), lt@));
    }
    r
}

/// The given parameters, their types rewritten to borrow for `lt`
/// wherever a lifetime was elided; names and order are kept.
pub open spec fn params_with_lifetime_v(ps: Seq<ParamV>, lt: Seq<char>) -> Seq<ParamV> {
    ps.map_values(|p: ParamV| ParamV { name: p.name, ty: with_lifetime_v(p.ty, lt) })
}

/// Replaces every elided lifetime in the parameter types with `lt`.
pub fn params_with_lifetime(ps: &Vec<Param>, lt: &String) -> (r: Vec<Param>)
    ensures
        r@.map_values(|p: Param| p@) == params_with_lifetime_v(
            ps@.map_values(|p: Param| p@),
            lt@,
        ),
        r@.len() == ps@.len(),
{
    let mut r: Vec<Param> = Vec::new();
    let mut i: usize = 0;
    while i < ps.len()
        invariant
            i <= ps.len(),
            r@.len() == i,
            forall|j: int|
                0 <= j < i ==> r@[j]@ == (ParamV {
                    name: ps@[j]@.name,
                    ty: with_lifetime_v(ps@[j]@.ty, lt@),
                }),
        decreases ps@.len() - i,
    {
        let new_ty = with_lifetime(&ps[i].ty, lt);
        r.push(Param { name: ps[i].name.clone(), ty: new_ty });
        i = i + 1;
    }
    proof {
        assert(r@.map_values(|p: Param| p@) =~= params_with_lifetime_v(
            ps@.map_values(|p: Param| p@),
            lt@,
        ));
    }
    r
}

/// Copies parameters unchanged.
pub fn copy_params(ps: &Vec<Param>) -> (r: Vec<Param>)
    ensures
        r@.map_values(|p: Param| p@) == ps@.map_values(|p: Param| p@),
        r@.len() == ps@.len(),
{
    let mut r: Vec<Param> = Vec::new();
    let mut i: usize = 0;
    while i < ps.len()
        invariant
            i <= ps.len(),
            r@.len() == i,
            forall|j: int| 0 <= j < i ==> r@[j]@ == ps@[j]@,
        decreases ps@.len() - i,
    {
        let c = copy_param(&ps[i]);
        r.push(c);
        i = i + 1;
    }
    proof {
        assert(r@.map_values(|p: Param| p@) =~= ps@.map_values(|p: Param| p@));
    }
    r
}

} // verus!
