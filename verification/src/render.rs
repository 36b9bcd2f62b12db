//! Rendering of the structured forms back to text.
//!
//! Every rendering function is deterministic: its output is pinned, char
//! for char, to a spec-level rendering of the value's view.

use vstd::prelude::*;

use crate::ast::{
    Arm, ArmV, Block, BlockV, Expr, ExprV, GenericParam, GenericParamV, Param, ParamV, Stmt,
    StmtV, Ty, TyV, ty_view, tys_view, lemma_tys_view, strs_view, block_view,
};

verus! {

/// Relies on String::push of std: appends the character to the end of
/// the string, which vstd leaves unspecified.
pub assume_specification[ String::push ](s: &mut String, c: char)
    ensures
        final(s)@ == old(s)@.push(c),
;

/// The text of one generic parameter as declared, bounds included.
pub open spec fn render_generic_v(g: GenericParamV) -> Seq<char> {
    match g {
        GenericParamV::Lifetime { name } => "'"@ + name,
        GenericParamV::TypeParam { name, bounds } => if bounds.len() == 0 {
            name
        } else {
            name + ": "@ + bounds
        },
    }
}

/// The text of one generic argument: the parameter's name without bounds.
pub open spec fn render_generic_arg_v(g: GenericParamV) -> Seq<char> {
    match g {
        GenericParamV::Lifetime { name } => "'"@ + name,
        GenericParamV::TypeParam { name, bounds } => name,
    }
}

/// The declared generic parameters joined by `, `.
pub open spec fn join_generics_v(gs: Seq<GenericParamV>) -> Seq<char>
    decreases gs,
{
    if gs.len() == 0 {
        Seq::<char>::empty()
    } else if gs.len() == 1 {
        render_generic_v(gs[0])
    } else {
        join_generics_v(gs.drop_last()) + ", "@ + render_generic_v(gs[gs.len() - 1])
    }
}

/// The generic arguments joined by `, `.
pub open spec fn join_generic_args_v(gs: Seq<GenericParamV>) -> Seq<char>
    decreases gs,
{
    if gs.len() == 0 {
        Seq::<char>::empty()
    } else if gs.len() == 1 {
        render_generic_arg_v(gs[0])
    } else {
        join_generic_args_v(gs.drop_last()) + ", "@ + render_generic_arg_v(gs[gs.len() - 1])
    }
}

/// The angle-bracketed generic parameter list, empty when none declared.
pub open spec fn render_generics_v(gs: Seq<GenericParamV>) -> Seq<char> {
    if gs.len() == 0 {
        Seq::<char>::empty()
    } else {
        "<"@ + join_generics_v(gs) + ">"@
    }
}

/// The angle-bracketed generic argument list, empty when none declared.
pub open spec fn render_generic_args_v(gs: Seq<GenericParamV>) -> Seq<char> {
    if gs.len() == 0 {
        Seq::<char>::empty()
    } else {
        "<"@ + join_generic_args_v(gs) + ">"@
    }
}

/// The text of a type.
pub open spec fn render_ty_v(t: TyV) -> Seq<char>
    decreases t,
{
    match t {
        TyV::Unit => "()"@,
        TyV::Path { name, args } => if args.len() == 0 {
            name
        } else {
            name + "<"@ + join_tys_v(args) + ">"@
        },
        TyV::Reference { lifetime, inner } => match lifetime {
            Option::None => "&"@ + render_ty_v(*inner),
            Option::Some(l) => "&'"@ + l + " "@ + render_ty_v(*inner),
        },
        TyV::Opaque { bounds } => "impl "@ + bounds,
    }
}

/// The texts of the types joined by `, `.
pub open spec fn join_tys_v(ts: Seq<TyV>) -> Seq<char>
    decreases ts,
{
    if ts.len() == 0 {
        Seq::<char>::empty()
    } else if ts.len() == 1 {
        render_ty_v(ts[0])
    } else {
        join_tys_v(ts.drop_last()) + ", "@ + render_ty_v(ts[ts.len() - 1])
    }
}

/// The text of one parameter: its name, a colon, its type.
pub open spec fn render_param_v(p: ParamV) -> Seq<char> {
    p.name + ": "@ + render_ty_v(p.ty)
}

/// The parameter texts joined by `, `.
pub open spec fn join_params_v(ps: Seq<ParamV>) -> Seq<char>
    decreases ps,
{
    if ps.len() == 0 {
        Seq::<char>::empty()
    } else if ps.len() == 1 {
        render_param_v(ps[0])
    } else {
        join_params_v(ps.drop_last()) + ", "@ + render_param_v(ps[ps.len() - 1])
    }
}

/// The given texts joined by `, `.
pub open spec fn join_strs_v(ss: Seq<Seq<char>>) -> Seq<char>
    decreases ss,
{
    if ss.len() == 0 {
        Seq::<char>::empty()
    } else if ss.len() == 1 {
        ss[0]
    } else {
        join_strs_v(ss.drop_last()) + ", "@ + ss[ss.len() - 1]
    }
}

/// The given texts, each followed by a comma: the tuple-element form.
pub open spec fn comma_concat_v(ss: Seq<Seq<char>>) -> Seq<char>
    decreases ss,
{
    if ss.len() == 0 {
        Seq::<char>::empty()
    } else {
        comma_concat_v(ss.drop_last()) + ss[ss.len() - 1] + ","@
    }
}

/// The return-type annotation, empty where no return type was written.
pub open spec fn render_ret_v(ret: Option<TyV>) -> Seq<char> {
    match ret {
        Option::None => Seq::<char>::empty(),
        Option::Some(t) => " -> "@ + render_ty_v(t),
    }
}

/// The visibility marker followed by a space, or nothing.
pub open spec fn render_vis_v(vis: Seq<char>) -> Seq<char> {
    if vis.len() == 0 {
        Seq::<char>::empty()
    } else {
        vis + " "@
    }
}

/// The text of an expression.
pub open spec fn render_expr_v(e: ExprV) -> Seq<char>
    decreases e,
{
    match e {
        ExprV::Verbatim { text } => text,
        ExprV::Path { name } => name,
        ExprV::Call { callee, args } => callee + "("@ + join_exprs_v(args) + ")"@,
        ExprV::If { cond, then_branch, else_branch } => match else_branch {
            Option::None => "if "@ + render_expr_v(*cond) + " "@ + render_block_v(then_branch),
            Option::Some(b) => "if "@ + render_expr_v(*cond) + " "@ + render_block_v(then_branch)
                + " else "@ + render_block_v(b),
        },
        ExprV::Loop { body } => "loop "@ + render_block_v(body),
        ExprV::Match { scrutinee, arms } => "match "@ + render_expr_v(*scrutinee) + " { "@
            + render_arms_v(arms) + "}"@,
        ExprV::Closure { params, body } => "|"@ + join_strs_v(params) + "| "@ + render_block_v(
            body,
        ),
    }
}

/// The expression texts joined by `, `.
pub open spec fn join_exprs_v(es: Seq<ExprV>) -> Seq<char>
    decreases es,
{
    if es.len() == 0 {
        Seq::<char>::empty()
    } else if es.len() == 1 {
        render_expr_v(es[0])
    } else {
        join_exprs_v(es.drop_last()) + ", "@ + render_expr_v(es[es.len() - 1])
    }
}

/// The text of one match arm, ended by a comma and a space.
pub open spec fn render_arm_v(a: ArmV) -> Seq<char> {
    a.pat + " => "@ + render_block_v(a.body) + ", "@
}

/// The concatenated texts of the match arms.
pub open spec fn render_arms_v(arms: Seq<ArmV>) -> Seq<char>
    decreases arms,
{
    if arms.len() == 0 {
        Seq::<char>::empty()
    } else {
        render_arms_v(arms.drop_last()) + (arms[arms.len() - 1].pat + " => "@ + render_block_v(
            arms[arms.len() - 1].body,
        ) + ", "@)
    }
}

/// The text of a statement.
pub open spec fn render_stmt_v(s: StmtV) -> Seq<char>
    decreases s,
{
    match s {
        StmtV::Let { name, init } => "let "@ + name + " = "@ + render_expr_v(init) + ";"@,
        StmtV::Expr { expr } => render_expr_v(expr),
        StmtV::Semi { expr } => render_expr_v(expr) + ";"@,
    }
}

/// The statement texts joined by a single space.
pub open spec fn join_stmts_v(ss: Seq<StmtV>) -> Seq<char>
    decreases ss,
{
    if ss.len() == 0 {
        Seq::<char>::empty()
    } else if ss.len() == 1 {
        render_stmt_v(ss[0])
    } else {
        join_stmts_v(ss.drop_last()) + " "@ + render_stmt_v(ss[ss.len() - 1])
    }
}

/// The text of a block: braces around its statements.
pub open spec fn render_block_v(b: BlockV) -> Seq<char>
    decreases b,
{
    if b.stmts.len() == 0 {
        "{ }"@
    } else {
        "{ "@ + join_stmts_v(b.stmts) + " }"@
    }
}

/// Renders one generic parameter as declared.
pub fn render_generic(g: &GenericParam) -> (r: String)
    ensures
        r@ == render_generic_v(g@),
{
    match g {
        GenericParam::Lifetime { name } => {
            let mut s = String::from_str("'");
            s.append(name.as_str());
            s
        },
        GenericParam::TypeParam { name, bounds } => {
            if bounds.as_str().unicode_len() == 0 {
                name.clone()
            } else {
                let mut s = name.clone();
                s.append(": ");
                s.append(bounds.as_str());
                s
            }
        },
    }
}

/// Renders one generic argument: the name without bounds.
pub fn render_generic_arg(g: &GenericParam) -> (r: String)
    ensures
        r@ == render_generic_arg_v(g@),
{
    match g {
        GenericParam::Lifetime { name } => {
            let mut s = String::from_str("'");
            s.append(name.as_str());
            s
        },
        GenericParam::TypeParam { name, bounds } => name.clone(),
    }
}

/// Renders the declared generic parameter list, brackets included.
pub fn render_generics(gs: &Vec<GenericParam>) -> (r: String)
    ensures
        r@ == render_generics_v(gs@.map_values(|g: GenericParam| g@)),
{
    let ghost gsv = gs@.map_values(|g: GenericParam| g@);
    if gs.len() == 0 {
        return String::new();
    }
    let mut s = String::from_str("<");
    let mut i: usize = 0;
    while i < gs.len()
        invariant
            i <= gs.len(),
            gsv == gs@.map_values(|g: GenericParam| g@),
            gsv.len() == gs@.len(),
            gs@.len() > 0,
            s@ == "<"@ + join_generics_v(gsv.take(i as int)),
        decreases gs@.len() - i,
    {
        if i > 0 {
            s.append(", ");
        }
        let piece = render_generic(&gs[i]);
        s.append(piece.as_str());
        proof {
            let prefix = gsv.take(i as int + 1);
            assert(prefix.drop_last() =~= gsv.take(i as int));
            assert(prefix[prefix.len() - 1] == gsv[i as int]);
            assert(gsv[i as int] == gs@[i as int]@);
        }
        i = i + 1;
    }
    s.append(">");
    proof {
        assert(gsv.take(gsv.len() as int) =~= gsv);
    }
    s
}

/// Renders the generic argument list, brackets included.
pub fn render_generic_args(gs: &Vec<GenericParam>) -> (r: String)
    ensures
        r@ == render_generic_args_v(gs@.map_values(|g: GenericParam| g@)),
{
    let ghost gsv = gs@.map_values(|g: GenericParam| g@);
    if gs.len() == 0 {
        return String::new();
    }
    let mut s = String::from_str("<");
    let mut i: usize = 0;
    while i < gs.len()
        invariant
            i <= gs.len(),
            gsv == gs@.map_values(|g: GenericParam| g@),
            gsv.len() == gs@.len(),
            gs@.len() > 0,
            s@ == "<"@ + join_generic_args_v(gsv.take(i as int)),
        decreases gs@.len() - i,
    {
        if i > 0 {
            s.append(", ");
        }
        let piece = render_generic_arg(&gs[i]);
        s.append(piece.as_str());
        proof {
            let prefix = gsv.take(i as int + 1);
            assert(prefix.drop_last() =~= gsv.take(i as int));
            assert(prefix[prefix.len() - 1] == gsv[i as int]);
            assert(gsv[i as int] == gs@[i as int]@);
        }
        i = i + 1;
    }
    s.append(">");
    proof {
        assert(gsv.take(gsv.len() as int) =~= gsv);
    }
    s
}

/// Renders a type.
pub fn render_ty(t: &Ty) -> (r: String)
    ensures
        r@ == render_ty_v(ty_view(*t)),
    decreases t,
{
    match t {
        Ty::Unit => String::from_str("()"),
        Ty::Path { name, args } => {
            if args.len() == 0 {
                proof {
                    assert(tys_view(args@) =~= Seq::<TyV>::empty());
                }
                name.clone()
            } else {
                let mut s = name.clone();
                s.append("<");
                let inner = join_tys(args);
                s.append(inner.as_str());
                s.append(">");
                proof {
                    crate::ast::lemma_tys_view(args@);
                }
                s
            }
        },
        Ty::Reference { lifetime, inner } => {
            match lifetime {
                Option::None => {
                    let mut s = String::from_str("&");
                    let t2 = render_ty(inner);
                    s.append(t2.as_str());
                    s
                },
                Option::Some(l) => {
                    let mut s = String::from_str("&'");
                    s.append(l.as_str());
                    s.append(" ");
                    let t2 = render_ty(inner);
                    s.append(t2.as_str());
                    s
                },
            }
        },
        Ty::Opaque { bounds } => {
            let mut s = String::from_str("impl ");
            s.append(bounds.as_str());
            s
        },
    }
}

/// Renders the type texts joined by `, `.
pub fn join_tys(ts: &Vec<Ty>) -> (r: String)
    ensures
        r@ == join_tys_v(tys_view(ts@)),
    decreases ts,
{
    let ghost tsv = tys_view(ts@);
    proof {
        lemma_tys_view(ts@);
    }
    let mut s = String::new();
    let mut i: usize = 0;
    proof {
        assert(tsv.take(0) =~= Seq::<TyV>::empty());
    }
    while i < ts.len()
        invariant
            i <= ts.len(),
            tsv == tys_view(ts@),
            tsv.len() == ts@.len(),
            forall|j: int| 0 <= j < ts@.len() ==> tsv[j] == ty_view(ts@[j]),
            s@ == join_tys_v(tsv.take(i as int)),
        decreases ts@.len() - i,
    {
        if i > 0 {
            s.append(", ");
        }
        proof {
            assert(decreases_to!(ts => ts@[i as int]));
        }
        let piece = render_ty(&ts[i]);
        s.append(piece.as_str());
        proof {
            let prefix = tsv.take(i as int + 1);
            assert(prefix.drop_last() =~= tsv.take(i as int));
            assert(prefix[prefix.len() - 1] == tsv[i as int]);
        }
        i = i + 1;
    }
    proof {
        assert(tsv.take(tsv.len() as int) =~= tsv);
    }
    s
}

/// Renders one parameter.
pub fn render_param(p: &Param) -> (r: String)
    ensures
        r@ == render_param_v(p@),
{
    let mut s = p.name.clone();
    s.append(": ");
    let t = render_ty(&p.ty);
    s.append(t.as_str());
    s
}

/// Renders the parameter texts joined by `, `.
pub fn join_params(ps: &Vec<Param>) -> (r: String)
    ensures
        r@ == join_params_v(ps@.map_values(|p: Param| p@)),
{
    let ghost psv = ps@.map_values(|p: Param| p@);
    let mut s = String::new();
    let mut i: usize = 0;
    proof {
        assert(psv.take(0) =~= Seq::<ParamV>::empty());
    }
    while i < ps.len()
        invariant
            i <= ps.len(),
            psv == ps@.map_values(|p: Param| p@),
            psv.len() == ps@.len(),
            s@ == join_params_v(psv.take(i as int)),
        decreases ps@.len() - i,
    {
        if i > 0 {
            s.append(", ");
        }
        let piece = render_param(&ps[i]);
        s.append(piece.as_str());
        proof {
            let prefix = psv.take(i as int + 1);
            assert(prefix.drop_last() =~= psv.take(i as int));
            assert(prefix[prefix.len() - 1] == psv[i as int]);
            assert(psv[i as int] == ps@[i as int]@);
        }
        i = i + 1;
    }
    proof {
        assert(psv.take(psv.len() as int) =~= psv);
    }
    s
}

/// Renders the given texts joined by `, `.
pub fn join_strs(ss: &Vec<String>) -> (r: String)
    ensures
        r@ == join_strs_v(strs_view(ss@)),
{
    let ghost ssv = strs_view(ss@);
    let mut s = String::new();
    let mut i: usize = 0;
    proof {
        assert(ssv.take(0) =~= Seq::<Seq<char>>::empty());
    }
    while i < ss.len()
        invariant
            i <= ss.len(),
            ssv == strs_view(ss@),
            ssv.len() == ss@.len(),
            s@ == join_strs_v(ssv.take(i as int)),
        decreases ss@.len() - i,
    {
        if i > 0 {
            s.append(", ");
        }
        s.append(ss[i].as_str());
        proof {
            let prefix = ssv.take(i as int + 1);
            assert(prefix.drop_last() =~= ssv.take(i as int));
            assert(prefix[prefix.len() - 1] == ssv[i as int]);
            assert(ssv[i as int] == ss@[i as int]@);
        }
        i = i + 1;
    }
    proof {
        assert(ssv.take(ssv.len() as int) =~= ssv);
    }
    s
}

/// Renders the given texts, each followed by a comma.
pub fn comma_concat(ss: &Vec<String>) -> (r: String)
    ensures
        r@ == comma_concat_v(strs_view(ss@)),
{
    let ghost ssv = strs_view(ss@);
    let mut s = String::new();
    let mut i: usize = 0;
    proof {
        assert(ssv.take(0) =~= Seq::<Seq<char>>::empty());
    }
    while i < ss.len()
        invariant
            i <= ss.len(),
            ssv == strs_view(ss@),
            ssv.len() == ss@.len(),
            s@ == comma_concat_v(ssv.take(i as int)),
        decreases ss@.len() - i,
    {
        s.append(ss[i].as_str());
        s.append(",");
        proof {
            let prefix = ssv.take(i as int + 1);
            assert(prefix.drop_last() =~= ssv.take(i as int));
            assert(prefix[prefix.len() - 1] == ssv[i as int]);
            assert(ssv[i as int] == ss@[i as int]@);
        }
        i = i + 1;
    }
    proof {
        assert(ssv.take(ssv.len() as int) =~= ssv);
    }
    s
}

/// Renders the return-type annotation.
pub fn render_ret(ret: &Option<Ty>) -> (r: String)
    ensures
        r@ == render_ret_v(crate::ast::ret_view(*ret)),
{
    match ret {
        Option::None => String::new(),
        Option::Some(t) => {
            let mut s = String::from_str(" -> ");
            let t2 = render_ty(t);
            s.append(t2.as_str());
            s
        },
    }
}

/// Renders the visibility marker, followed by a space where present.
pub fn render_vis(vis: &String) -> (r: String)
    ensures
        r@ == render_vis_v(vis@),
{
    if vis.as_str().unicode_len() == 0 {
        String::new()
    } else {
        let mut s = vis.clone();
        s.append(" ");
        s
    }
}

/// Renders an expression.
pub fn render_expr(e: &Expr) -> (r: String)
    ensures
        r@ == render_expr_v(crate::ast::expr_view(*e)),
    decreases e,
{
    match e {
        Expr::Verbatim { text } => text.clone(),
        Expr::Path { name } => name.clone(),
        Expr::Call { callee, args } => {
            let mut s = callee.clone();
            s.append("(");
            let inner = join_exprs(args);
            s.append(inner.as_str());
            s.append(")");
            s
        },
        Expr::If { cond, then_branch, else_branch } => {
            let mut s = String::from_str("if ");
            let c = render_expr(cond);
            s.append(c.as_str());
            s.append(" ");
            let t = render_block(then_branch);
            s.append(t.as_str());
            match else_branch {
                Option::None => {},
                Option::Some(b) => {
                    s.append(" else ");
                    let eb = render_block(b);
                    s.append(eb.as_str());
                },
            }
            s
        },
        Expr::Loop { body } => {
            let mut s = String::from_str("loop ");
            let b = render_block(body);
            s.append(b.as_str());
            s
        },
        Expr::Match { scrutinee, arms } => {
            let mut s = String::from_str("match ");
            let sc = render_expr(scrutinee);
            s.append(sc.as_str());
            s.append(" { ");
            let a = render_arms(arms);
            s.append(a.as_str());
            s.append("}");
            s
        },
        Expr::Closure { params, body } => {
            let mut s = String::from_str("|");
            let p = join_strs(params);
            s.append(p.as_str());
            s.append("| ");
            let b = render_block(body);
            s.append(b.as_str());
            s
        },
    }
}

/// Renders the expression texts joined by `, `.
pub fn join_exprs(es: &Vec<Expr>) -> (r: String)
    ensures
        r@ == join_exprs_v(crate::ast::exprs_view(es@)),
    decreases es,
{
    let ghost esv = crate::ast::exprs_view(es@);
    proof {
        crate::ast::lemma_exprs_view(es@);
    }
    let mut s = String::new();
    let mut i: usize = 0;
    proof {
        assert(esv.take(0) =~= Seq::<ExprV>::empty());
    }
    while i < es.len()
        invariant
            i <= es.len(),
            esv == crate::ast::exprs_view(es@),
            esv.len() == es@.len(),
            forall|j: int| 0 <= j < es@.len() ==> esv[j] == crate::ast::expr_view(es@[j]),
            s@ == join_exprs_v(esv.take(i as int)),
        decreases es@.len() - i,
    {
        if i > 0 {
            s.append(", ");
        }
        proof {
            assert(decreases_to!(es => es@[i as int]));
        }
        let piece = render_expr(&es[i]);
        s.append(piece.as_str());
        proof {
            let prefix = esv.take(i as int + 1);
            assert(prefix.drop_last() =~= esv.take(i as int));
            assert(prefix[prefix.len() - 1] == esv[i as int]);
        }
        i = i + 1;
    }
    proof {
        assert(esv.take(esv.len() as int) =~= esv);
    }
    s
}

/// Renders the concatenated texts of the match arms.
pub fn render_arms(arms: &Vec<Arm>) -> (r: String)
    ensures
        r@ == render_arms_v(crate::ast::arms_view(arms@)),
    decreases arms,
{
    let ghost av = crate::ast::arms_view(arms@);
    proof {
        crate::ast::lemma_arms_view(arms@);
    }
    let mut s = String::new();
    let mut i: usize = 0;
    proof {
        assert(av.take(0) =~= Seq::<ArmV>::empty());
    }
    while i < arms.len()
        invariant
            i <= arms.len(),
            av == crate::ast::arms_view(arms@),
            av.len() == arms@.len(),
            forall|j: int| 0 <= j < arms@.len() ==> av[j] == arms@[j]@,
            s@ == render_arms_v(av.take(i as int)),
        decreases arms@.len() - i,
    {
        s.append(arms[i].pat.as_str());
        s.append(" => ");
        proof {
            assert(decreases_to!(arms => arms@[i as int]));
        }
        let b = render_block(&arms[i].body);
        s.append(b.as_str());
        s.append(", ");
        proof {
            let prefix = av.take(i as int + 1);
            assert(prefix.drop_last() =~= av.take(i as int));
            assert(prefix[prefix.len() - 1] == av[i as int]);
        }
        i = i + 1;
    }
    proof {
        assert(av.take(av.len() as int) =~= av);
    }
    s
}

/// Renders a statement.
pub fn render_stmt(s: &Stmt) -> (r: String)
    ensures
        r@ == render_stmt_v(crate::ast::stmt_view(*s)),
    decreases s,
{
    match s {
        Stmt::Let { name, init } => {
            let mut out = String::from_str("let ");
            out.append(name.as_str());
            out.append(" = ");
            let e = render_expr(init);
            out.append(e.as_str());
            out.append(";");
            out
        },
        Stmt::Expr { expr } => render_expr(expr),
        Stmt::Semi { expr } => {
            let mut out = render_expr(expr);
            out.append(";");
            out
        },
    }
}

/// Renders the statement texts joined by a single space.
pub fn join_stmts(ss: &Vec<Stmt>) -> (r: String)
    ensures
        r@ == join_stmts_v(crate::ast::stmts_view(ss@)),
    decreases ss,
{
    let ghost ssv = crate::ast::stmts_view(ss@);
    proof {
        crate::ast::lemma_stmts_view(ss@);
    }
    let mut s = String::new();
    let mut i: usize = 0;
    proof {
        assert(ssv.take(0) =~= Seq::<StmtV>::empty());
    }
    while i < ss.len()
        invariant
            i <= ss.len(),
            ssv == crate::ast::stmts_view(ss@),
            ssv.len() == ss@.len(),
            forall|j: int| 0 <= j < ss@.len() ==> ssv[j] == crate::ast::stmt_view(ss@[j]),
            s@ == join_stmts_v(ssv.take(i as int)),
        decreases ss@.len() - i,
    {
        if i > 0 {
            s.append(" ");
        }
        proof {
            assert(decreases_to!(ss => ss@[i as int]));
        }
        let piece = render_stmt(&ss[i]);
        s.append(piece.as_str());
        proof {
            let prefix = ssv.take(i as int + 1);
            assert(prefix.drop_last() =~= ssv.take(i as int));
            assert(prefix[prefix.len() - 1] == ssv[i as int]);
        }
        i = i + 1;
    }
    proof {
        assert(ssv.take(ssv.len() as int) =~= ssv);
    }
    s
}

/// Renders a block.
pub fn render_block(b: &Block) -> (r: String)
    ensures
        r@ == render_block_v(block_view(*b)),
    decreases b,
{
    if b.stmts.len() == 0 {
        proof {
            assert(crate::ast::stmts_view(b.stmts@) =~= Seq::<StmtV>::empty());
        }
        String::from_str("{ }")
    } else {
        let mut s = String::from_str("{ ");
        let inner = join_stmts(&b.stmts);
        s.append(inner.as_str());
        s.append(" }");
        proof {
            crate::ast::lemma_stmts_view(b.stmts@);
        }
        s
    }
}

} // verus!
