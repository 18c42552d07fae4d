//! The orchestrator's computational core: the statement count that the
//! check operation reports, the scan that decides whether a tree exercises
//! the HTTP-call namespaces, and the dependency-manifest text whose
//! third-party entries are exactly the set that scan implies. Parsing and
//! file handling are external collaborators and stay outside the library.
use vstd::prelude::*;
use vstd::string::StringExecFns;
use crate::ast::{Callee, CallExpr, Decl, Expr, FnDecl, MemberProp, ModuleDecl, ModuleItem,
    Program, Stmt};
use crate::diagnostics::OxidizerError;
use crate::text::str_eq;

verus! {

/// The number of top-level items of a parsed program.
pub open spec fn program_statements(p: Program) -> nat {
    match p {
        Program::Module(items) => items@.len(),
        Program::Script(stmts) => stmts@.len(),
    }
}

/// Counts the top-level items of a parsed program, as the check operation
/// reports it.
pub fn statement_count(p: &Program) -> (r: usize)
    ensures
        r == program_statements(*p),
{
    match p {
        Program::Module(items) => items.len(),
        Program::Script(stmts) => stmts.len(),
    }
}

/// Runs the translation pipeline's fixed stages; none can fail yet.
pub fn pipeline() -> (r: Result<(), OxidizerError>)
    ensures
        r is Ok,
{
    Ok(())
}

/// Whether a call has one of the two HTTP shapes the dispatch translates to
/// a request: the global fetch-like callee, or a verb method on the
/// recognized HTTP-client namespace.
pub open spec fn http_call_shape(c: CallExpr) -> bool {
    match c.callee {
        Callee::Expr(ce) => match *ce {
            Expr::Ident(name) => name@ == "fetch"@,
            Expr::Member(m) => match *m.obj {
                Expr::Ident(o) => o@ == "axios"@ && m.prop is Named,
                _ => false,
            },
            _ => false,
        },
        Callee::Other => false,
    }
}

/// Whether an expression subtree contains a call of HTTP shape at a
/// position the generator converts.
pub open spec fn http_in_expr(e: Expr) -> bool
    decreases e, 0int,
{
    match e {
        Expr::Bin(b) => http_in_expr(*b.left) || http_in_expr(*b.right),
        Expr::Member(m) => match m.prop {
            MemberProp::Named(_) => match *m.obj {
                Expr::This => false,
                _ => http_in_expr(*m.obj),
            },
            MemberProp::Computed => false,
        },
        Expr::Await(a) => http_in_expr(*a),
        Expr::Call(c) => http_in_call(c),
        _ => false,
    }
}

/// Whether a call expression is of HTTP shape or converts one in its callee
/// or arguments.
pub open spec fn http_in_call(c: CallExpr) -> bool
    decreases c, 1int,
{
    http_call_shape(c) || (match c.callee {
        Callee::Expr(ce) => http_in_expr(*ce),
        Callee::Other => false,
    }) || http_in_args(c.args@)
}

/// Whether any call argument converts a call of HTTP shape.
pub open spec fn http_in_args(args: Seq<Expr>) -> bool
    decreases args, 0int,
{
    if args.len() == 0 {
        false
    } else {
        http_in_args(args.drop_last()) || http_in_expr(args.last())
    }
}

/// Whether a statement the generator emits converts a call of HTTP shape.
pub open spec fn http_in_stmt(s: Stmt) -> bool {
    match s {
        Stmt::Return(arg) => match arg {
            Option::Some(e) => http_in_expr(e),
            Option::None => false,
        },
        Stmt::Expr(e) => http_in_expr(e),
        _ => false,
    }
}

/// Whether any emitted statement of a block converts a call of HTTP shape.
pub open spec fn http_in_block(ss: Seq<Stmt>) -> bool
    decreases ss,
{
    if ss.len() == 0 {
        false
    } else {
        http_in_block(ss.drop_last()) || http_in_stmt(ss.last())
    }
}

/// Whether a function body converts a call of HTTP shape.
pub open spec fn http_in_fn(f: FnDecl) -> bool {
    match f.body {
        Option::Some(ss) => http_in_block(ss@),
        Option::None => false,
    }
}

/// Whether one module item's translation converts a call of HTTP shape.
pub open spec fn http_in_item(item: ModuleItem) -> bool {
    match item {
        ModuleItem::ModuleDecl(d) => match d {
            ModuleDecl::ExportDecl(Decl::Fn(f)) => http_in_fn(f),
            _ => false,
        },
        ModuleItem::Stmt(s) => match s {
            Stmt::Decl(Decl::Fn(f)) => http_in_fn(f),
            _ => http_in_stmt(s),
        },
    }
}

/// Whether a module's translation exercises the HTTP-call namespaces.
pub open spec fn http_in_module(items: Seq<ModuleItem>) -> bool
    decreases items,
{
    if items.len() == 0 {
        false
    } else {
        http_in_module(items.drop_last()) || http_in_item(items.last())
    }
}

/// Decides whether the expression converts a call of HTTP shape.
fn expr_uses_http(e: &Expr) -> (r: bool)
    ensures
        r == http_in_expr(*e),
    decreases *e, 0int,
{
    match e {
        Expr::Bin(b) => expr_uses_http(&*b.left) || expr_uses_http(&*b.right),
        Expr::Member(m) => {
            match &m.prop {
                MemberProp::Named(_) => {
                    match &*m.obj {
                        Expr::This => false,
                        _ => expr_uses_http(&*m.obj),
                    }
                },
                MemberProp::Computed => false,
            }
        },
        Expr::Await(a) => expr_uses_http(&**a),
        Expr::Call(c) => call_uses_http(c),
        _ => false,
    }
}

/// Decides whether the call is of HTTP shape or converts one.
fn call_uses_http(c: &CallExpr) -> (r: bool)
    ensures
        r == http_in_call(*c),
    decreases *c, 1int,
{
    let shape: bool = match &c.callee {
        Callee::Expr(ce) => {
            match &**ce {
                Expr::Ident(name) => str_eq(name.as_str(), "fetch"),
                Expr::Member(m) => {
                    match &*m.obj {
                        Expr::Ident(o) => str_eq(o.as_str(), "axios") && (match &m.prop {
                            MemberProp::Named(_) => true,
                            MemberProp::Computed => false,
                        }),
                        _ => false,
                    }
                },
                _ => false,
            }
        },
        Callee::Other => false,
    };
    if shape {
        return true;
    }
    let callee_hit: bool = match &c.callee {
        Callee::Expr(ce) => expr_uses_http(&**ce),
        Callee::Other => false,
    };
    if callee_hit {
        return true;
    }
    let n: usize = c.args.len();
    let mut j: usize = 0;
    let mut found: bool = false;
    while j < n
        invariant
            n == c.args@.len(),
            j <= n,
            found == http_in_args(c.args@.subrange(0, j as int)),
        decreases n - j,
    {
        if expr_uses_http(&c.args[j]) {
            found = true;
        }
        proof {
            let sub1 = c.args@.subrange(0, j as int + 1);
            assert(sub1.drop_last() =~= c.args@.subrange(0, j as int));
            assert(sub1.last() == c.args@[j as int]);
        }
        j = j + 1;
    }
    proof {
        assert(c.args@.subrange(0, n as int) =~= c.args@);
    }
    found
}

/// Decides whether a function body converts a call of HTTP shape.
fn fn_uses_http(f: &FnDecl) -> (r: bool)
    ensures
        r == http_in_fn(*f),
{
    match &f.body {
        Option::Some(stmts) => {
            let n: usize = stmts.len();
            let mut j: usize = 0;
            let mut found: bool = false;
            while j < n
                invariant
                    n == stmts@.len(),
                    j <= n,
                    found == http_in_block(stmts@.subrange(0, j as int)),
                decreases n - j,
            {
                let hit: bool = match &stmts[j] {
                    Stmt::Return(arg) => {
                        match arg {
                            Option::Some(e) => expr_uses_http(e),
                            Option::None => false,
                        }
                    },
                    Stmt::Expr(e) => expr_uses_http(e),
                    _ => false,
                };
                if hit {
                    found = true;
                }
                proof {
                    let sub1 = stmts@.subrange(0, j as int + 1);
                    assert(sub1.drop_last() =~= stmts@.subrange(0, j as int));
                    assert(sub1.last() == stmts@[j as int]);
                }
                j = j + 1;
            }
            proof {
                assert(stmts@.subrange(0, n as int) =~= stmts@);
            }
            found
        },
        Option::None => false,
    }
}

/// Decides whether a module's translation exercises the HTTP-call
/// namespaces; the dependency manifest follows exactly this answer.
pub fn module_uses_http(items: &Vec<ModuleItem>) -> (r: bool)
    ensures
        r == http_in_module(items@),
{
    let n: usize = items.len();
    let mut i: usize = 0;
    let mut found: bool = false;
    while i < n
        invariant
            n == items@.len(),
            i <= n,
            found == http_in_module(items@.subrange(0, i as int)),
        decreases n - i,
    {
        let hit: bool = match &items[i] {
            ModuleItem::ModuleDecl(d) => {
                match d {
                    ModuleDecl::ExportDecl(Decl::Fn(f)) => fn_uses_http(f),
                    _ => false,
                }
            },
            ModuleItem::Stmt(s) => {
                match s {
                    Stmt::Decl(d) => {
                        match d {
                            Decl::Fn(f) => fn_uses_http(f),
                            Decl::Other => false,
                        }
                    },
                    Stmt::Return(arg) => {
                        match arg {
                            Option::Some(e) => expr_uses_http(e),
                            Option::None => false,
                        }
                    },
                    Stmt::Expr(e) => expr_uses_http(e),
                    Stmt::Other => false,
                }
            },
        };
        if hit {
            found = true;
        }
        proof {
            let sub1 = items@.subrange(0, i as int + 1);
            assert(sub1.drop_last() =~= items@.subrange(0, i as int));
            assert(sub1.last() == items@[i as int]);
        }
        i = i + 1;
    }
    proof {
        assert(items@.subrange(0, n as int) =~= items@);
    }
    found
}

/// The dependency-manifest text for one translated project: the third-party
/// entries are the HTTP client and the asynchronous runtime when the
/// HTTP-call namespaces were exercised, and nothing otherwise.
pub open spec fn manifest_output(uses_http: bool) -> Seq<char> {
    "[package]\nname = \"translated\"\nversion = \"0.1.0\"\nedition = \"2021\"\n\n[dependencies]\n"@
        + (if uses_http {
        "reqwest = { version = \"0.11\", features = [\"json\"] }\ntokio = { version = \"1.0\", features = [\"full\"] }\n"@
    } else {
        Seq::<char>::empty()
    })
}

/// Renders the dependency-manifest text for a project, given whether its
/// translation exercised the HTTP-call namespaces.
pub fn cargo_manifest(uses_http: bool) -> (r: String)
    ensures
        r@ == manifest_output(uses_http),
{
    let mut out = String::from_str(
        "[package]\nname = \"translated\"\nversion = \"0.1.0\"\nedition = \"2021\"\n\n[dependencies]\n",
    );
    if uses_http {
        out.append(
            "reqwest = { version = \"0.11\", features = [\"json\"] }\ntokio = { version = \"1.0\", features = [\"full\"] }\n",
        );
    }
    out
}

} // verus!
