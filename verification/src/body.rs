//! The body rewriter: threads the execution-context reference through
//! every nested hook invocation of a body.
//!
//! A call expression is recognized as a nested hook invocation purely by
//! its target name following the mandated `use_` prefix convention. Such
//! a call receives the context as an implicit first argument, with the
//! written arguments shifted right. The rewrite recurses into blocks,
//! conditionals, loops and match arms, but never into the body of a
//! function value (a closure), which has its own parameter scope.

use vstd::prelude::*;

use crate::ast::{Arm, ArmV, Block, BlockV, Expr, ExprV, Stmt, StmtV};
use crate::is_hook_name;

verus! {

/// The rewritten form of one expression.
pub open spec fn rewrite_expr_v(e: ExprV, ctx: Seq<char>) -> ExprV
    decreases e,
{
    match e {
        ExprV::Verbatim { text } => ExprV::Verbatim { text },
        ExprV::Path { name } => ExprV::Path { name },
        ExprV::Call { callee, args } => {
            let rewritten = rewrite_exprs_v(args, ctx);
            if is_hook_name(callee) {
                ExprV::Call { callee, args: seq![ExprV::Path { name: ctx }] + rewritten }
            } else {
                ExprV::Call { callee, args: rewritten }
            }
        },
        ExprV::If { cond, then_branch, else_branch } => ExprV::If {
            cond: Box::new(rewrite_expr_v(*cond, ctx)),
            then_branch: rewrite_block_v(then_branch, ctx),
            else_branch: match else_branch {
                Option::None => Option::None,
                Option::Some(b) => Option::Some(rewrite_block_v(b, ctx)),
            },
        },
        ExprV::Loop { body } => ExprV::Loop { body: rewrite_block_v(body, ctx) },
        ExprV::Match { scrutinee, arms } => ExprV::Match {
            scrutinee: Box::new(rewrite_expr_v(*scrutinee, ctx)),
            arms: rewrite_arms_v(arms, ctx),
        },
        ExprV::Closure { params, body } => ExprV::Closure { params, body },
    }
}

/// The rewritten form of a sequence of expressions, in order.
pub open spec fn rewrite_exprs_v(es: Seq<ExprV>, ctx: Seq<char>) -> Seq<ExprV>
    decreases es,
{
    if es.len() == 0 {
        Seq::<ExprV>::empty()
    } else {
        seq![rewrite_expr_v(es[0], ctx)] + rewrite_exprs_v(es.subrange(1, es.len() as int), ctx)
    }
}

/// The rewritten form of a sequence of match arms, in order.
pub open spec fn rewrite_arms_v(arms: Seq<ArmV>, ctx: Seq<char>) -> Seq<ArmV>
    decreases arms,
{
    if arms.len() == 0 {
        Seq::<ArmV>::empty()
    } else {
        seq![ArmV { pat: arms[0].pat, body: rewrite_block_v(arms[0].body, ctx) }]
            + rewrite_arms_v(arms.subrange(1, arms.len() as int), ctx)
    }
}

/// The rewritten form of one statement.
pub open spec fn rewrite_stmt_v(s: StmtV, ctx: Seq<char>) -> StmtV
    decreases s,
{
    match s {
        StmtV::Let { name, init } => StmtV::Let { name, init: rewrite_expr_v(init, ctx) },
        StmtV::Expr { expr } => StmtV::Expr { expr: rewrite_expr_v(expr, ctx) },
        StmtV::Semi { expr } => StmtV::Semi { expr: rewrite_expr_v(expr, ctx) },
    }
}

/// The rewritten form of a sequence of statements, in order.
pub open spec fn rewrite_stmts_v(ss: Seq<StmtV>, ctx: Seq<char>) -> Seq<StmtV>
    decreases ss,
{
    if ss.len() == 0 {
        Seq::<StmtV>::empty()
    } else {
        seq![rewrite_stmt_v(ss[0], ctx)] + rewrite_stmts_v(ss.subrange(1, ss.len() as int), ctx)
    }
}

/// The rewritten form of a block.
pub open spec fn rewrite_block_v(b: BlockV, ctx: Seq<char>) -> BlockV
    decreases b,
{
    BlockV { stmts: rewrite_stmts_v(b.stmts, ctx) }
}

/// The rewrite is purely syntactic and deterministic: the same body and
/// the same context-parameter name give the same rewritten body, on
/// every invocation.
pub proof fn lemma_rewrite_deterministic(b: BlockV, ctx: Seq<char>, r1: BlockV, r2: BlockV)
    requires
        r1 == rewrite_block_v(b, ctx),
        r2 == rewrite_block_v(b, ctx),
    ensures
        r1 == r2,
{
}

/// Rewrites bodies so nested hook invocations receive the execution
/// context; holds the name of the context parameter to thread through.
pub struct BodyRewriter {
    pub context: String,
}

impl BodyRewriter {
    /// A rewriter that threads the given context-parameter name.
    pub fn new(context: String) -> (r: BodyRewriter)
        ensures
            r.context@ == context@,
    {
        BodyRewriter { context }
    }

    /// Rewrites one expression.
    pub fn rewrite_expr(&self, e: Expr) -> (r: Expr)
        ensures
            r@ == rewrite_expr_v(e@, self.context@),
        decreases e,
    {
        match e {
            Expr::Verbatim { text } => Expr::Verbatim { text },
            Expr::Path { name } => Expr::Path { name },
            Expr::Call { callee, args } => {
                let ghost old_args = args;
                let mut rewritten = self.rewrite_exprs(args);
                proof {
                    assert(decreases_to!(e => old_args));
                }
                if crate::check_hook_name(callee.as_str()) {
                    let ctx_arg = Expr::Path { name: self.context.clone() };
                    let ghost pre = rewritten@;
                    rewritten.insert(0, ctx_arg);
                    proof {
                        assert(rewritten@ =~= seq![ctx_arg] + pre);
                        crate::ast::lemma_exprs_view(rewritten@);
                        crate::ast::lemma_exprs_view(pre);
                        assert(crate::ast::exprs_view(rewritten@) =~= seq![
                            ExprV::Path { name: self.context@ },
                        ] + crate::ast::exprs_view(pre));
                    }
                    Expr::Call { callee, args: rewritten }
                } else {
                    Expr::Call { callee, args: rewritten }
                }
            },
            Expr::If { cond, then_branch, else_branch } => {
                let new_cond = self.rewrite_expr(*cond);
                let new_then = self.rewrite_block(then_branch);
                let new_else = match else_branch {
                    Option::None => Option::None,
                    Option::Some(b) => Option::Some(self.rewrite_block(b)),
                };
                Expr::If {
                    cond: Box::new(new_cond),
                    then_branch: new_then,
                    else_branch: new_else,
                }
            },
            Expr::Loop { body } => Expr::Loop { body: self.rewrite_block(body) },
            Expr::Match { scrutinee, arms } => {
                let new_scrutinee = self.rewrite_expr(*scrutinee);
                let new_arms = self.rewrite_arms(arms);
                Expr::Match { scrutinee: Box::new(new_scrutinee), arms: new_arms }
            },
            Expr::Closure { params, body } => Expr::Closure { params, body },
        }
    }

    /// Rewrites a sequence of expressions, in order.
    pub fn rewrite_exprs(&self, es: Vec<Expr>) -> (r: Vec<Expr>)
        ensures
            crate::ast::exprs_view(r@) == rewrite_exprs_v(
                crate::ast::exprs_view(es@),
                self.context@,
            ),
        decreases es@,
    {
        let mut rest = es;
        if rest.len() == 0 {
            proof {
                assert(crate::ast::exprs_view(rest@) =~= Seq::<ExprV>::empty());
            }
            rest
        } else {
            let ghost entry = rest@;
            let head = rest.remove(0);
            proof {
                assert(rest@ =~= entry.subrange(1, entry.len() as int));
                assert(decreases_to!(entry => head));
            }
            let new_head = self.rewrite_expr(head);
            let mut out = self.rewrite_exprs(rest);
            let ghost tail_out = out@;
            out.insert(0, new_head);
            proof {
                assert(out@ =~= seq![new_head] + tail_out);
                crate::ast::lemma_exprs_view(out@);
                crate::ast::lemma_exprs_view(tail_out);
                crate::ast::lemma_exprs_view(entry);
                assert(crate::ast::exprs_view(entry).subrange(
                    1,
                    crate::ast::exprs_view(entry).len() as int,
                ) =~= crate::ast::exprs_view(entry.subrange(1, entry.len() as int)));
                assert(crate::ast::exprs_view(out@) =~= rewrite_exprs_v(
                    crate::ast::exprs_view(entry),
                    self.context@,
                ));
            }
            out
        }
    }

    /// Rewrites a sequence of match arms, in order.
    pub fn rewrite_arms(&self, arms: Vec<Arm>) -> (r: Vec<Arm>)
        ensures
            crate::ast::arms_view(r@) == rewrite_arms_v(
                crate::ast::arms_view(arms@),
                self.context@,
            ),
        decreases arms@,
    {
        let mut rest = arms;
        if rest.len() == 0 {
            proof {
                assert(crate::ast::arms_view(rest@) =~= Seq::<ArmV>::empty());
            }
            rest
        } else {
            let ghost entry = rest@;
            let head = rest.remove(0);
            proof {
                assert(rest@ =~= entry.subrange(1, entry.len() as int));
                assert(decreases_to!(entry => head));
            }
            let new_body = self.rewrite_block(head.body);
            let new_head = Arm { pat: head.pat, body: new_body };
            let mut out = self.rewrite_arms(rest);
            let ghost tail_out = out@;
            out.insert(0, new_head);
            proof {
                assert(out@ =~= seq![new_head] + tail_out);
                crate::ast::lemma_arms_view(out@);
                crate::ast::lemma_arms_view(tail_out);
                crate::ast::lemma_arms_view(entry);
                assert(crate::ast::arms_view(entry).subrange(
                    1,
                    crate::ast::arms_view(entry).len() as int,
                ) =~= crate::ast::arms_view(entry.subrange(1, entry.len() as int)));
                assert(crate::ast::arms_view(out@) =~= rewrite_arms_v(
                    crate::ast::arms_view(entry),
                    self.context@,
                ));
            }
            out
        }
    }

    /// Rewrites one statement.
    pub fn rewrite_stmt(&self, s: Stmt) -> (r: Stmt)
        ensures
            r@ == rewrite_stmt_v(s@, self.context@),
        decreases s,
    {
        match s {
            Stmt::Let { name, init } => Stmt::Let { name, init: self.rewrite_expr(init) },
            Stmt::Expr { expr } => Stmt::Expr { expr: self.rewrite_expr(expr) },
            Stmt::Semi { expr } => Stmt::Semi { expr: self.rewrite_expr(expr) },
        }
    }

    /// Rewrites a sequence of statements, in order.
    pub fn rewrite_stmts(&self, ss: Vec<Stmt>) -> (r: Vec<Stmt>)
        ensures
            crate::ast::stmts_view(r@) == rewrite_stmts_v(
                crate::ast::stmts_view(ss@),
                self.context@,
            ),
        decreases ss@,
    {
        let mut rest = ss;
        if rest.len() == 0 {
            proof {
                assert(crate::ast::stmts_view(rest@) =~= Seq::<StmtV>::empty());
            }
            rest
        } else {
            let ghost entry = rest@;
            let head = rest.remove(0);
            proof {
                assert(rest@ =~= entry.subrange(1, entry.len() as int));
                assert(decreases_to!(entry => head));
            }
            let new_head = self.rewrite_stmt(head);
            let mut out = self.rewrite_stmts(rest);
            let ghost tail_out = out@;
            out.insert(0, new_head);
            proof {
                assert(out@ =~= seq![new_head] + tail_out);
                crate::ast::lemma_stmts_view(out@);
                crate::ast::lemma_stmts_view(tail_out);
                crate::ast::lemma_stmts_view(entry);
                assert(crate::ast::stmts_view(entry).subrange(
                    1,
                    crate::ast::stmts_view(entry).len() as int,
                ) =~= crate::ast::stmts_view(entry.subrange(1, entry.len() as int)));
                assert(crate::ast::stmts_view(out@) =~= rewrite_stmts_v(
                    crate::ast::stmts_view(entry),
                    self.context@,
                ));
            }
            out
        }
    }

    /// Rewrites a block, recursing into every lexical scope inside it.
    pub fn rewrite_block(&self, b: Block) -> (r: Block)
        ensures
            r@ == rewrite_block_v(b@, self.context@),
        decreases b,
    {
        let Block { stmts } = b;
        Block { stmts: self.rewrite_stmts(stmts) }
    }
}

/// A nested invocation that follows the naming convention is rewritten:
/// the context is passed as an implicit first argument and the written
/// arguments, themselves rewritten, are shifted right.
pub proof fn lemma_hook_call_rewritten(callee: Seq<char>, args: Seq<ExprV>, ctx: Seq<char>)
    requires
        is_hook_name(callee),
    ensures
        rewrite_expr_v(ExprV::Call { callee, args }, ctx) == (ExprV::Call {
            callee,
            args: seq![ExprV::Path { name: ctx }] + rewrite_exprs_v(args, ctx),
        }),
{
}

/// A call that does not follow the naming convention keeps its argument
/// list, each argument rewritten in place, with nothing prepended.
pub proof fn lemma_plain_call_untouched(callee: Seq<char>, args: Seq<ExprV>, ctx: Seq<char>)
    requires
        !is_hook_name(callee),
    ensures
        rewrite_expr_v(ExprV::Call { callee, args }, ctx) == (ExprV::Call {
            callee,
            args: rewrite_exprs_v(args, ctx),
        }),
{
}

/// The rewrite reaches every lexical scope inside the body: both branches
/// of a conditional, the body of a loop, and the body of every match arm
/// are rewritten.
pub proof fn lemma_rewrite_enters_scopes(
    cond: ExprV,
    then_branch: BlockV,
    else_branch: BlockV,
    loop_body: BlockV,
    scrutinee: ExprV,
    pat: Seq<char>,
    arm_body: BlockV,
    ctx: Seq<char>,
)
    ensures
        rewrite_expr_v(
            ExprV::If {
                cond: Box::new(cond),
                then_branch,
                else_branch: Option::Some(else_branch),
            },
            ctx,
        ) == (ExprV::If {
            cond: Box::new(rewrite_expr_v(cond, ctx)),
            then_branch: rewrite_block_v(then_branch, ctx),
            else_branch: Option::Some(rewrite_block_v(else_branch, ctx)),
        }),
        rewrite_expr_v(ExprV::Loop { body: loop_body }, ctx) == (ExprV::Loop {
            body: rewrite_block_v(loop_body, ctx),
        }),
        rewrite_expr_v(
            ExprV::Match { scrutinee: Box::new(scrutinee), arms: seq![ArmV { pat, body: arm_body }] },
            ctx,
        ) == (ExprV::Match {
            scrutinee: Box::new(rewrite_expr_v(scrutinee, ctx)),
            arms: seq![ArmV { pat, body: rewrite_block_v(arm_body, ctx) }],
        }),
{
    let arms = seq![ArmV { pat, body: arm_body }];
    assert(arms.subrange(1, arms.len() as int) =~= Seq::<ArmV>::empty());
    assert(rewrite_arms_v(Seq::<ArmV>::empty(), ctx) =~= Seq::<ArmV>::empty());
    assert(rewrite_arms_v(arms, ctx) =~= seq![ArmV { pat, body: rewrite_block_v(arm_body, ctx) }]);
}

/// The rewrite never enters a nested function value: a closure, with its
/// own parameter scope, is left untouched, whatever its body contains.
pub proof fn lemma_rewrite_skips_function_values(
    params: Seq<Seq<char>>,
    body: BlockV,
    ctx: Seq<char>,
)
    ensures
        rewrite_expr_v(ExprV::Closure { params, body }, ctx) == (ExprV::Closure { params, body }),
{
}

} // verus!
