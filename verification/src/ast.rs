//! The structured form of a function definition, as the engine sees it.
//!
//! The engine works on plain values: names are strings, types and
//! expressions are small trees. Each executable type has a spec-level
//! view (`...V`) over `Seq<char>` and `Seq`, which the contracts of the
//! pipeline stages speak about.

use vstd::prelude::*;

verus! {

/// A half-open range of byte offsets into the raw input text.
#[derive(Clone, Copy, PartialEq, Eq, Structural, Debug)]
pub struct Span {
    pub lo: usize,
    pub hi: usize,
}

/// A generic parameter of a function definition, order-preserving.
#[derive(Debug, PartialEq, Eq)]
pub enum GenericParam {
    /// A lifetime parameter; the name is stored without the leading `'`.
    Lifetime { name: String },
    /// A type parameter together with its bound text (empty when unbounded).
    TypeParam { name: String, bounds: String },
}

/// Spec view of a generic parameter.
pub enum GenericParamV {
    Lifetime { name: Seq<char> },
    TypeParam { name: Seq<char>, bounds: Seq<char> },
}

impl View for GenericParam {
    type V = GenericParamV;

    open spec fn view(&self) -> GenericParamV {
        match self {
            GenericParam::Lifetime { name } => GenericParamV::Lifetime { name: name@ },
            GenericParam::TypeParam { name, bounds } => GenericParamV::TypeParam {
                name: name@,
                bounds: bounds@,
            },
        }
    }
}

/// A declared type, with just enough structure for the engine's decisions:
/// which generic parameters it mentions, where lifetimes are elided, and
/// whether it is an opaque (existential) type.
#[derive(Debug, PartialEq, Eq)]
pub enum Ty {
    /// The unit type `()`, also used as the inferred placeholder output.
    Unit,
    /// A named type, possibly applied to type arguments.
    Path { name: String, args: Vec<Ty> },
    /// A reference type; `lifetime` is `None` where the lifetime is elided.
    Reference { lifetime: Option<String>, inner: Box<Ty> },
    /// An opaque/existential type, declared only by the bounds it satisfies.
    Opaque { bounds: String },
}

/// Spec view of a type.
pub enum TyV {
    Unit,
    Path { name: Seq<char>, args: Seq<TyV> },
    Reference { lifetime: Option<Seq<char>>, inner: Box<TyV> },
    Opaque { bounds: Seq<char> },
}

/// Spec view of a type value.
pub open spec fn ty_view(t: Ty) -> TyV
    decreases t,
{
    match t {
        Ty::Unit => TyV::Unit,
        Ty::Path { name, args } => TyV::Path { name: name@, args: tys_view(args@) },
        Ty::Reference { lifetime, inner } => TyV::Reference {
            lifetime: match lifetime {
                Option::None => Option::None,
                Option::Some(l) => Option::Some(l@),
            },
            inner: Box::new(ty_view(*inner)),
        },
        Ty::Opaque { bounds } => TyV::Opaque { bounds: bounds@ },
    }
}

/// Spec view of a sequence of types.
pub open spec fn tys_view(ts: Seq<Ty>) -> Seq<TyV>
    decreases ts,
{
    if ts.len() == 0 {
        Seq::<TyV>::empty()
    } else {
        seq![ty_view(ts[0])] + tys_view(ts.subrange(1, ts.len() as int))
    }
}

/// `tys_view` maps `ty_view` over the sequence, element by element.
pub proof fn lemma_tys_view(ts: Seq<Ty>)
    ensures
        tys_view(ts).len() == ts.len(),
        forall|i: int| 0 <= i < ts.len() ==> tys_view(ts)[i] == ty_view(ts[i]),
    decreases ts,
{
    if ts.len() > 0 {
        lemma_tys_view(ts.subrange(1, ts.len() as int));
    }
}

impl View for Ty {
    type V = TyV;

    open spec fn view(&self) -> TyV {
        ty_view(*self)
    }
}

/// A declared function parameter.
#[derive(Debug, PartialEq, Eq)]
pub struct Param {
    pub name: String,
    pub ty: Ty,
}

/// Spec view of a parameter.
pub struct ParamV {
    pub name: Seq<char>,
    pub ty: TyV,
}

impl View for Param {
    type V = ParamV;

    open spec fn view(&self) -> ParamV {
        ParamV { name: self.name@, ty: ty_view(self.ty) }
    }
}

/// An expression of a function body. Only the forms the body rewriter
/// must tell apart are structured; everything else is carried verbatim.
#[derive(Debug, PartialEq, Eq)]
pub enum Expr {
    /// An expression the rewrite never touches, carried as written.
    Verbatim { text: String },
    /// A reference to a named binding.
    Path { name: String },
    /// A call expression with a named target.
    Call { callee: String, args: Vec<Expr> },
    /// A conditional with an optional `else` block.
    If { cond: Box<Expr>, then_branch: Block, else_branch: Option<Block> },
    /// A loop over a block.
    Loop { body: Block },
    /// A match over a scrutinee, with one block per arm.
    Match { scrutinee: Box<Expr>, arms: Vec<Arm> },
    /// A function value with its own parameter scope.
    Closure { params: Vec<String>, body: Block },
}

/// One arm of a match expression.
#[derive(Debug, PartialEq, Eq)]
pub struct Arm {
    pub pat: String,
    pub body: Block,
}

/// A statement of a block.
#[derive(Debug, PartialEq, Eq)]
pub enum Stmt {
    /// A `let` binding.
    Let { name: String, init: Expr },
    /// A trailing expression without a semicolon.
    Expr { expr: Expr },
    /// An expression statement ended by a semicolon.
    Semi { expr: Expr },
}

/// An ordered sequence of statements forming one block.
#[derive(Debug, PartialEq, Eq)]
pub struct Block {
    pub stmts: Vec<Stmt>,
}

/// Spec view of an expression.
pub enum ExprV {
    Verbatim { text: Seq<char> },
    Path { name: Seq<char> },
    Call { callee: Seq<char>, args: Seq<ExprV> },
    If { cond: Box<ExprV>, then_branch: BlockV, else_branch: Option<BlockV> },
    Loop { body: BlockV },
    Match { scrutinee: Box<ExprV>, arms: Seq<ArmV> },
    Closure { params: Seq<Seq<char>>, body: BlockV },
}

/// Spec view of a match arm.
pub struct ArmV {
    pub pat: Seq<char>,
    pub body: BlockV,
}

/// Spec view of a statement.
pub enum StmtV {
    Let { name: Seq<char>, init: ExprV },
    Expr { expr: ExprV },
    Semi { expr: ExprV },
}

/// Spec view of a block.
pub struct BlockV {
    pub stmts: Seq<StmtV>,
}

/// Spec view of the names of a sequence of strings.
pub open spec fn strs_view(ss: Seq<String>) -> Seq<Seq<char>> {
    ss.map_values(|s: String| s@)
}

/// Spec view of an expression value.
pub open spec fn expr_view(e: Expr) -> ExprV
    decreases e,
{
    match e {
        Expr::Verbatim { text } => ExprV::Verbatim { text: text@ },
        Expr::Path { name } => ExprV::Path { name: name@ },
        Expr::Call { callee, args } => ExprV::Call {
            callee: callee@,
            args: exprs_view(args@),
        },
        Expr::If { cond, then_branch, else_branch } => ExprV::If {
            cond: Box::new(expr_view(*cond)),
            then_branch: block_view(then_branch),
            else_branch: match else_branch {
                Option::None => Option::None,
                Option::Some(b) => Option::Some(block_view(b)),
            },
        },
        Expr::Loop { body } => ExprV::Loop { body: block_view(body) },
        Expr::Match { scrutinee, arms } => ExprV::Match {
            scrutinee: Box::new(expr_view(*scrutinee)),
            arms: arms_view(arms@),
        },
        Expr::Closure { params, body } => ExprV::Closure {
            params: strs_view(params@),
            body: block_view(body),
        },
    }
}

/// Spec view of a sequence of expressions.
pub open spec fn exprs_view(es: Seq<Expr>) -> Seq<ExprV>
    decreases es,
{
    if es.len() == 0 {
        Seq::<ExprV>::empty()
    } else {
        seq![expr_view(es[0])] + exprs_view(es.subrange(1, es.len() as int))
    }
}

/// Spec view of a sequence of match arms.
pub open spec fn arms_view(arms: Seq<Arm>) -> Seq<ArmV>
    decreases arms,
{
    if arms.len() == 0 {
        Seq::<ArmV>::empty()
    } else {
        seq![ArmV { pat: arms[0].pat@, body: block_view(arms[0].body) }] + arms_view(
            arms.subrange(1, arms.len() as int),
        )
    }
}

/// Spec view of a statement value.
pub open spec fn stmt_view(s: Stmt) -> StmtV
    decreases s,
{
    match s {
        Stmt::Let { name, init } => StmtV::Let { name: name@, init: expr_view(init) },
        Stmt::Expr { expr } => StmtV::Expr { expr: expr_view(expr) },
        Stmt::Semi { expr } => StmtV::Semi { expr: expr_view(expr) },
    }
}

/// Spec view of a sequence of statements.
pub open spec fn stmts_view(ss: Seq<Stmt>) -> Seq<StmtV>
    decreases ss,
{
    if ss.len() == 0 {
        Seq::<StmtV>::empty()
    } else {
        seq![stmt_view(ss[0])] + stmts_view(ss.subrange(1, ss.len() as int))
    }
}

/// Spec view of a block value.
pub open spec fn block_view(b: Block) -> BlockV
    decreases b,
{
    BlockV { stmts: stmts_view(b.stmts@) }
}

impl View for Expr {
    type V = ExprV;

    open spec fn view(&self) -> ExprV {
        expr_view(*self)
    }
}

impl View for Stmt {
    type V = StmtV;

    open spec fn view(&self) -> StmtV {
        stmt_view(*self)
    }
}

impl View for Block {
    type V = BlockV;

    open spec fn view(&self) -> BlockV {
        block_view(*self)
    }
}

impl View for Arm {
    type V = ArmV;

    open spec fn view(&self) -> ArmV {
        ArmV { pat: self.pat@, body: block_view(self.body) }
    }
}

/// `exprs_view` maps `expr_view` over the sequence, element by element.
pub proof fn lemma_exprs_view(es: Seq<Expr>)
    ensures
        exprs_view(es).len() == es.len(),
        forall|i: int| 0 <= i < es.len() ==> exprs_view(es)[i] == expr_view(es[i]),
    decreases es,
{
    if es.len() > 0 {
        lemma_exprs_view(es.subrange(1, es.len() as int));
    }
}

/// `arms_view` maps the arm view over the sequence, element by element.
pub proof fn lemma_arms_view(arms: Seq<Arm>)
    ensures
        arms_view(arms).len() == arms.len(),
        forall|i: int| 0 <= i < arms.len() ==> arms_view(arms)[i] == arms[i]@,
    decreases arms,
{
    if arms.len() > 0 {
        lemma_arms_view(arms.subrange(1, arms.len() as int));
    }
}

/// `stmts_view` maps `stmt_view` over the sequence, element by element.
pub proof fn lemma_stmts_view(ss: Seq<Stmt>)
    ensures
        stmts_view(ss).len() == ss.len(),
        forall|i: int| 0 <= i < ss.len() ==> stmts_view(ss)[i] == stmt_view(ss[i]),
    decreases ss,
{
    if ss.len() > 0 {
        lemma_stmts_view(ss.subrange(1, ss.len() as int));
    }
}

/// A fresh type value equal to the given one.
pub fn copy_ty(t: &Ty) -> (r: Ty)
    ensures
        ty_view(r) == ty_view(*t),
    decreases t,
{
    match t {
        Ty::Unit => Ty::Unit,
        Ty::Path { name, args } => Ty::Path { name: name.clone(), args: copy_tys(args) },
        Ty::Reference { lifetime, inner } => Ty::Reference {
            lifetime: match lifetime {
                Option::None => Option::None,
                Option::Some(l) => Option::Some(l.clone()),
            },
            inner: Box::new(copy_ty(inner)),
        },
        Ty::Opaque { bounds } => Ty::Opaque { bounds: bounds.clone() },
    }
}

/// A fresh vector of type values equal to the given ones.
pub fn copy_tys(ts: &Vec<Ty>) -> (r: Vec<Ty>)
    ensures
        tys_view(r@) == tys_view(ts@),
        r@.len() == ts@.len(),
    decreases ts,
{
    let mut r: Vec<Ty> = Vec::new();
    let mut i: usize = 0;
    while i < ts.len()
        invariant
            i <= ts.len(),
            r@.len() == i,
            forall|j: int| 0 <= j < i ==> ty_view(r@[j]) == ty_view(ts@[j]),
        decreases ts@.len() - i,
    {
        proof {
            assert(decreases_to!(ts => ts@[i as int]));
        }
        let c = copy_ty(&ts[i]);
        r.push(c);
        i = i + 1;
    }
    proof {
        lemma_tys_view(r@);
        lemma_tys_view(ts@);
        assert(tys_view(r@) =~= tys_view(ts@));
    }
    r
}

/// A fresh parameter equal to the given one.
pub fn copy_param(p: &Param) -> (r: Param)
    ensures
        r@ == p@,
{
    Param { name: p.name.clone(), ty: copy_ty(&p.ty) }
}

/// A fresh generic parameter equal to the given one.
pub fn copy_generic(g: &GenericParam) -> (r: GenericParam)
    ensures
        r@ == g@,
{
    match g {
        GenericParam::Lifetime { name } => GenericParam::Lifetime { name: name.clone() },
        GenericParam::TypeParam { name, bounds } => GenericParam::TypeParam {
            name: name.clone(),
            bounds: bounds.clone(),
        },
    }
}

/// A fresh vector of generic parameters equal to the given ones.
pub fn copy_generics(gs: &Vec<GenericParam>) -> (r: Vec<GenericParam>)
    ensures
        r@.map_values(|g: GenericParam| g@) == gs@.map_values(|g: GenericParam| g@),
        r@.len() == gs@.len(),
{
    let mut r: Vec<GenericParam> = Vec::new();
    let mut i: usize = 0;
    while i < gs.len()
        invariant
            i <= gs.len(),
            r@.len() == i,
            forall|j: int| 0 <= j < i ==> r@[j]@ == gs@[j]@,
        decreases gs@.len() - i,
    {
        let c = copy_generic(&gs[i]);
        r.push(c);
        i = i + 1;
    }
    proof {
        assert(r@.map_values(|g: GenericParam| g@) =~= gs@.map_values(|g: GenericParam| g@));
    }
    r
}

/// The validated input definition: a name, its visibility and attributes,
/// the generic and value parameters, the optional return type, the body,
/// and the spans of any disallowed modifiers found on the input.
#[derive(Debug, PartialEq, Eq)]
pub struct HookDefinition {
    pub name: String,
    pub name_span: Span,
    pub vis: String,
    pub attrs: Vec<String>,
    pub generics: Vec<GenericParam>,
    pub params: Vec<Param>,
    pub ret: Option<Ty>,
    pub body: Block,
    /// Span of a concurrency-suspension modifier, where one was written.
    pub asyncness: Option<Span>,
    /// Span of a constant-evaluation modifier, where one was written.
    pub constness: Option<Span>,
    /// Span of a foreign-calling-convention modifier, where one was written.
    pub abi: Option<Span>,
    /// Span of an unsafe-operations modifier, where one was written.
    pub unsafety: Option<Span>,
}

/// Spec view of a definition.
pub struct HookDefinitionV {
    pub name: Seq<char>,
    pub name_span: Span,
    pub vis: Seq<char>,
    pub attrs: Seq<Seq<char>>,
    pub generics: Seq<GenericParamV>,
    pub params: Seq<ParamV>,
    pub ret: Option<TyV>,
    pub body: BlockV,
    pub asyncness: Option<Span>,
    pub constness: Option<Span>,
    pub abi: Option<Span>,
    pub unsafety: Option<Span>,
}

/// Spec view of an optional return type.
pub open spec fn ret_view(r: Option<Ty>) -> Option<TyV> {
    match r {
        Option::None => Option::None,
        Option::Some(t) => Option::Some(ty_view(t)),
    }
}

impl View for HookDefinition {
    type V = HookDefinitionV;

    open spec fn view(&self) -> HookDefinitionV {
        HookDefinitionV {
            name: self.name@,
            name_span: self.name_span,
            vis: self.vis@,
            attrs: strs_view(self.attrs@),
            generics: self.generics@.map_values(|g: GenericParam| g@),
            params: self.params@.map_values(|p: Param| p@),
            ret: ret_view(self.ret),
            body: block_view(self.body),
            asyncness: self.asyncness,
            constness: self.constness,
            abi: self.abi,
            unsafety: self.unsafety,
        }
    }
}

} // verus!
