//! The recursive expression/statement generator: converts each tree node
//! into a target-language text fragment. Call expressions first try the
//! standard-library dispatch tables and fall through to generic call
//! conversion, so every call yields some output; unsupported expressions are
//! emitted as a visible marker, never dropped, while unsupported statement
//! kinds are skipped. Function declarations are assembled from the
//! normalized name, the simple-name parameters, the mapped (and, for
//! asynchronous declarations, unwrapped) return type, and the converted
//! body.
use vstd::prelude::*;
use vstd::string::StringExecFns;
use crate::ast::{BinExpr, BinOp, Callee, CallExpr, Decl, Expr, FnDecl, Lit, MemberExpr,
    MemberProp, Pat, Stmt};
use crate::ident::{lower_str_of, lowercase_str, snake_of, to_snake_case};
use crate::text::{escaped_of, escape_text, join_texts, join_strings, texts_of, str_eq};
use crate::types::{map_output, map_ts_type, unwrap_output, unwrap_promise_type};
use crate::console;
use crate::math;
use crate::array;

verus! {

/// The visible marker emitted for an expression kind outside the supported
/// set, so that a human reader or the target's compiler flags it at once.
pub open spec fn unsupported_expr_text() -> Seq<char> {
    "compile_error!(\"unsupported expression\")"@
}

/// The visible marker emitted for an unsupported literal kind.
pub open spec fn unsupported_literal_text() -> Seq<char> {
    "compile_error!(\"unsupported literal\")"@
}

/// The visible marker emitted for a member access whose property is not a
/// plain name.
pub open spec fn unsupported_member_text() -> Seq<char> {
    "compile_error!(\"unsupported member access\")"@
}

/// The target text of a literal: a numeral is carried through exactly as
/// written, a string is re-quoted and re-escaped, anything else is marked.
pub open spec fn lit_output(l: Lit) -> Seq<char> {
    match l {
        Lit::Num(t) => t@,
        Lit::Str(s) => seq!['"'] + escaped_of(s@) + seq!['"'],
        Lit::Other => unsupported_literal_text(),
    }
}

/// The mapped operator text; only the arithmetic operators are mapped, any
/// other operator is emitted as a commented-out placeholder.
pub open spec fn op_output(op: BinOp) -> Seq<char> {
    match op {
        BinOp::Add => "+"@,
        BinOp::Sub => "-"@,
        BinOp::Mul => "*"@,
        BinOp::Div => "/"@,
        BinOp::Other => "/* unsupported op */"@,
    }
}

/// The target text of one expression.
pub open spec fn expr_output(e: Expr) -> Seq<char>
    decreases e, 0int,
{
    match e {
        Expr::This => unsupported_expr_text(),
        Expr::Ident(s) => snake_of(s@),
        Expr::Lit(l) => lit_output(l),
        Expr::Bin(b) => bin_output(b),
        Expr::Member(m) => member_output(m),
        Expr::Await(a) => expr_output(*a) + ".await"@,
        Expr::Call(c) => call_output(c),
        Expr::Other => unsupported_expr_text(),
    }
}

/// The target text of a binary expression: the converted operands joined by
/// the mapped operator.
pub open spec fn bin_output(b: BinExpr) -> Seq<char>
    decreases b, 0int,
{
    expr_output(*b.left) + " "@ + op_output(b.op) + " "@ + expr_output(*b.right)
}

/// The target text of a member access: the implicit current instance becomes
/// the target's instance-field form with the field name kept as written; any
/// other named property is the converted receiver, a dot, and the normalized
/// property name; a computed property yields the visible marker.
pub open spec fn member_output(m: MemberExpr) -> Seq<char>
    decreases m, 0int,
{
    match m.prop {
        MemberProp::Named(p) => {
            match *m.obj {
                Expr::This => "self."@ + p@,
                _ => expr_output(*m.obj) + "."@ + snake_of(p@),
            }
        },
        MemberProp::Computed => unsupported_member_text(),
    }
}

/// The target texts of the call arguments, each converted, in order.
pub open spec fn arg_texts(args: Seq<Expr>) -> Seq<Seq<char>>
    decreases args, 0int,
{
    if args.len() == 0 {
        Seq::empty()
    } else {
        arg_texts(args.drop_last()) + seq![expr_output(args.last())]
    }
}

/// The generic call conversion: the converted callee applied to the
/// converted arguments; a callee form outside the model becomes a fixed
/// fallback name.
pub open spec fn generic_call_output(c: CallExpr) -> Seq<char>
    decreases c, 0int,
{
    match c.callee {
        Callee::Expr(ce) => expr_output(*ce) + "("@ + join_texts(arg_texts(c.args@), ", "@)
            + ")"@,
        Callee::Other => "unknown_callee("@ + join_texts(arg_texts(c.args@), ", "@) + ")"@,
    }
}

/// The HTTP-verb call shape: the case-folded verb on a fresh client, with
/// the first argument as the URL and, for the body-carrying verbs with a
/// second argument, that argument attached as a JSON-encoded body. A call
/// with no arguments becomes a bare request to an empty target.
pub open spec fn axios_output(method: Seq<char>, args: Seq<Seq<char>>) -> Seq<char> {
    let ml = lower_str_of(method);
    if args.len() == 0 {
        "reqwest::Client::new()."@ + ml + "(\"\").send().await?"@
    } else if (ml == "post"@ || ml == "put"@) && args.len() > 1 {
        "reqwest::Client::new()."@ + ml + "("@ + args[0] + ").json(&"@ + args[1]
            + ").send().await?"@
    } else {
        "reqwest::Client::new()."@ + ml + "("@ + args[0] + ").send().await?"@
    }
}

/// The global fetch-like call shape: a plain request to the first argument,
/// or to an empty target when there is none.
pub open spec fn fetch_output(args: Seq<Seq<char>>) -> Seq<char> {
    if args.len() == 0 {
        "reqwest::get(\"\").await?"@
    } else {
        "reqwest::get("@ + args[0] + ").await?"@
    }
}

/// The target text of a call expression: the recognized namespaces are
/// checked by receiver identity, then collection methods on any receiver;
/// a declined dispatch falls through to the generic call conversion.
pub open spec fn call_output(c: CallExpr) -> Seq<char>
    decreases c, 1int,
{
    let texts = arg_texts(c.args@);
    match c.callee {
        Callee::Expr(ce) => {
            match *ce {
                Expr::Member(m) => {
                    match m.prop {
                        MemberProp::Named(p) => {
                            match *m.obj {
                                Expr::Ident(o) => {
                                    if o@ == "console"@ {
                                        match console::console_output(p@, texts) {
                                            Option::Some(t) => t,
                                            Option::None => generic_call_output(c),
                                        }
                                    } else if o@ == "Math"@ {
                                        match math::math_output(p@, texts) {
                                            Option::Some(t) => t,
                                            Option::None => generic_call_output(c),
                                        }
                                    } else if o@ == "axios"@ {
                                        axios_output(p@, texts)
                                    } else {
                                        match array::array_output(expr_output(*m.obj), p@, texts) {
                                            Option::Some(t) => t,
                                            Option::None => generic_call_output(c),
                                        }
                                    }
                                },
                                _ => {
                                    match array::array_output(expr_output(*m.obj), p@, texts) {
                                        Option::Some(t) => t,
                                        Option::None => generic_call_output(c),
                                    }
                                },
                            }
                        },
                        MemberProp::Computed => generic_call_output(c),
                    }
                },
                Expr::Ident(name) => {
                    if name@ == "fetch"@ {
                        fetch_output(texts)
                    } else {
                        generic_call_output(c)
                    }
                },
                _ => generic_call_output(c),
            }
        },
        Callee::Other => generic_call_output(c),
    }
}

/// The target text of one statement; statement kinds outside the supported
/// set yield nothing.
pub open spec fn stmt_output(s: Stmt) -> Seq<char> {
    match s {
        Stmt::Return(arg) => {
            match arg {
                Option::Some(e) => "return "@ + expr_output(e) + ";"@,
                Option::None => "return;"@,
            }
        },
        Stmt::Expr(e) => expr_output(e) + ";"@,
        Stmt::Decl(_) => Seq::empty(),
        Stmt::Other => Seq::empty(),
    }
}

/// What one statement contributes to a block: its text and a separating
/// space for the supported kinds, nothing for the skipped kinds.
pub open spec fn stmt_chunk(s: Stmt) -> Seq<char> {
    match s {
        Stmt::Return(_) => stmt_output(s) + " "@,
        Stmt::Expr(_) => stmt_output(s) + " "@,
        _ => Seq::empty(),
    }
}

/// The target text of a statement block, in source order.
pub open spec fn block_output(ss: Seq<Stmt>) -> Seq<char>
    decreases ss,
{
    if ss.len() == 0 {
        Seq::empty()
    } else {
        block_output(ss.drop_last()) + stmt_chunk(ss.last())
    }
}

/// What one parameter contributes to a parameter list: the normalized name
/// and the mapped type for a simple name binding, nothing otherwise.
pub open spec fn param_output(p: Pat) -> Seq<char> {
    match p {
        Pat::Ident(name, ann) => snake_of(name@) + ": "@ + map_output(ann),
        Pat::Other => Seq::empty(),
    }
}

/// The rendered texts of the simple-name parameters, in order; destructuring
/// patterns are skipped.
pub open spec fn param_texts(ps: Seq<Pat>) -> Seq<Seq<char>>
    decreases ps,
{
    if ps.len() == 0 {
        Seq::empty()
    } else {
        param_texts(ps.drop_last()) + (match ps.last() {
            Pat::Ident(_, _) => seq![param_output(ps.last())],
            Pat::Other => Seq::empty(),
        })
    }
}

/// The target text of a whole function declaration. The visibility
/// annotation comes from the exporting context; an asynchronous declaration
/// keeps its marker and unwraps its declared return type.
pub open spec fn fn_decl_output(f: FnDecl, exporting: bool) -> Seq<char> {
    (if exporting {
        "pub "@
    } else {
        Seq::<char>::empty()
    }) + (if f.is_async {
        "async "@
    } else {
        Seq::<char>::empty()
    }) + "fn "@ + snake_of(f.name@) + "("@ + join_texts(param_texts(f.params@), ", "@) + ") -> "@
        + (if f.is_async {
        unwrap_output(f.return_type)
    } else {
        map_output(f.return_type)
    }) + " { "@ + (match f.body {
        Option::Some(ss) => block_output(ss@),
        Option::None => Seq::<char>::empty(),
    }) + "}"@
}

/// What a declaration contributes to the output: a function declaration's
/// text with a trailing line break; other declaration kinds contribute
/// nothing.
pub open spec fn decl_fn_output(d: Decl, exporting: bool) -> Seq<char> {
    match d {
        Decl::Fn(f) => fn_decl_output(f, exporting) + "\n"@,
        Decl::Other => Seq::empty(),
    }
}

/// Converts one expression to target text.
pub(crate) fn convert_expr(expr: &Expr) -> (r: String)
    ensures
        r@ == expr_output(*expr),
    decreases *expr, 0int,
{
    match expr {
        Expr::This => String::from_str("compile_error!(\"unsupported expression\")"),
        Expr::Ident(s) => to_snake_case(s.as_str()),
        Expr::Lit(l) => {
            match l {
                Lit::Num(t) => t.clone(),
                Lit::Str(s) => {
                    let mut out = String::from_str("\"");
                    let esc = escape_text(s.as_str());
                    out.append(esc.as_str());
                    out.append("\"");
                    proof {
                        reveal_strlit("\"");
                        assert(("\""@) =~= seq!['"']);
                        assert(out@ =~= seq!['"'] + escaped_of(s@) + seq!['"']);
                    }
                    out
                },
                Lit::Other => String::from_str("compile_error!(\"unsupported literal\")"),
            }
        },
        Expr::Bin(b) => convert_bin_expr(b),
        Expr::Member(m) => convert_member_expr(m),
        Expr::Await(a) => convert_await_expr(a),
        Expr::Call(c) => convert_call_expr(c),
        Expr::Other => String::from_str("compile_error!(\"unsupported expression\")"),
    }
}

/// Converts a binary expression: the converted operands joined by the
/// mapped operator, with the placeholder comment for unmapped operators.
pub(crate) fn convert_bin_expr(bin: &BinExpr) -> (r: String)
    ensures
        r@ == bin_output(*bin),
    decreases *bin, 0int,
{
    let mut out = convert_expr(&*bin.left);
    out.append(" ");
    match bin.op {
        BinOp::Add => out.append("+"),
        BinOp::Sub => out.append("-"),
        BinOp::Mul => out.append("*"),
        BinOp::Div => out.append("/"),
        BinOp::Other => out.append("/* unsupported op */"),
    }
    out.append(" ");
    let right = convert_expr(&*bin.right);
    out.append(right.as_str());
    out
}

/// Converts a member access; a property that is not a plain name yields the
/// visible unsupported-access marker.
pub(crate) fn convert_member_expr(member: &MemberExpr) -> (r: String)
    ensures
        r@ == member_output(*member),
    decreases *member, 0int,
{
    match &member.prop {
        MemberProp::Named(p) => {
            match &*member.obj {
                Expr::This => {
                    let mut out = String::from_str("self.");
                    out.append(p.as_str());
                    out
                },
                _ => {
                    let mut out = convert_expr(&*member.obj);
                    out.append(".");
                    let prop = to_snake_case(p.as_str());
                    out.append(prop.as_str());
                    out
                },
            }
        },
        MemberProp::Computed => String::from_str("compile_error!(\"unsupported member access\")"),
    }
}

/// Converts an awaited expression: the converted operand with the target's
/// suspension marker appended.
pub(crate) fn convert_await_expr(arg: &Expr) -> (r: String)
    ensures
        r@ == expr_output(*arg) + ".await"@,
    decreases *arg, 1int,
{
    let mut out = convert_expr(arg);
    out.append(".await");
    out
}

/// Converts the callee and the converted argument texts as a generic call.
fn generic_call(c: &CallExpr, texts: &Vec<String>) -> (r: String)
    requires
        texts_of(texts@) == arg_texts(c.args@),
    ensures
        r@ == generic_call_output(*c),
    decreases *c, 0int,
{
    match &c.callee {
        Callee::Expr(ce) => {
            let mut out = convert_expr(&**ce);
            out.append("(");
            let joined = join_strings(texts, ", ");
            out.append(joined.as_str());
            out.append(")");
            out
        },
        Callee::Other => {
            let mut out = String::from_str("unknown_callee(");
            let joined = join_strings(texts, ", ");
            out.append(joined.as_str());
            out.append(")");
            out
        },
    }
}

/// Converts a call expression: standard-library dispatch first, then the
/// generic call conversion, so that every call yields some output.
pub(crate) fn convert_call_expr(call: &CallExpr) -> (r: String)
    ensures
        r@ == call_output(*call),
    decreases *call, 1int,
{
    let mut texts: Vec<String> = Vec::new();
    let n: usize = call.args.len();
    let mut j: usize = 0;
    while j < n
        invariant
            n == call.args@.len(),
            j <= n,
            texts_of(texts@) =~~= arg_texts(call.args@.subrange(0, j as int)),
        decreases n - j,
    {
        let t = convert_expr(&call.args[j]);
        texts.push(t);
        proof {
            let sub1 = call.args@.subrange(0, j as int + 1);
            assert(sub1.drop_last() =~= call.args@.subrange(0, j as int));
            assert(sub1.last() == call.args@[j as int]);
            assert(texts_of(texts@) =~~= arg_texts(sub1));
        }
        j = j + 1;
    }
    proof {
        assert(call.args@.subrange(0, n as int) =~= call.args@);
        assert(texts_of(texts@) == arg_texts(call.args@));
    }
    match &call.callee {
        Callee::Expr(ce) => {
            match &**ce {
                Expr::Member(m) => {
                    match &m.prop {
                        MemberProp::Named(p) => {
                            match &*m.obj {
                                Expr::Ident(o) => {
                                    if str_eq(o.as_str(), "console") {
                                        match console::handle(p.as_str(), &texts) {
                                            Some(t) => t,
                                            None => generic_call(call, &texts),
                                        }
                                    } else if str_eq(o.as_str(), "Math") {
                                        match math::handle(p.as_str(), &texts) {
                                            Some(t) => t,
                                            None => generic_call(call, &texts),
                                        }
                                    } else if str_eq(o.as_str(), "axios") {
                                        convert_axios_call(p.as_str(), &texts)
                                    } else {
                                        let obj_text = convert_expr(&*m.obj);
                                        match array::handle_method(
                                            obj_text.as_str(),
                                            p.as_str(),
                                            &texts,
                                        ) {
                                            Some(t) => t,
                                            None => generic_call(call, &texts),
                                        }
                                    }
                                },
                                _ => {
                                    let obj_text = convert_expr(&*m.obj);
                                    match array::handle_method(
                                        obj_text.as_str(),
                                        p.as_str(),
                                        &texts,
                                    ) {
                                        Some(t) => t,
                                        None => generic_call(call, &texts),
                                    }
                                },
                            }
                        },
                        MemberProp::Computed => generic_call(call, &texts),
                    }
                },
                Expr::Ident(name) => {
                    if str_eq(name.as_str(), "fetch") {
                        convert_fetch_call(&texts)
                    } else {
                        generic_call(call, &texts)
                    }
                },
                _ => generic_call(call, &texts),
            }
        },
        Callee::Other => generic_call(call, &texts),
    }
}

/// Builds the HTTP-verb request chain from the case-folded verb and the
/// converted argument texts; always produces a call, whatever the arity.
pub(crate) fn convert_axios_call(method: &str, args: &Vec<String>) -> (r: String)
    ensures
        r@ == axios_output(method@, texts_of(args@)),
{
    let ml = lowercase_str(method);
    let mut out = String::from_str("reqwest::Client::new().");
    out.append(ml.as_str());
    if args.len() == 0 {
        out.append("(\"\").send().await?");
        return out;
    }
    out.append("(");
    out.append(args[0].as_str());
    let has_body = str_eq(ml.as_str(), "post") || str_eq(ml.as_str(), "put");
    if has_body && args.len() > 1 {
        out.append(").json(&");
        out.append(args[1].as_str());
        out.append(").send().await?");
    } else {
        out.append(").send().await?");
    }
    out
}

/// Builds the global fetch-like request from the converted argument texts.
pub(crate) fn convert_fetch_call(args: &Vec<String>) -> (r: String)
    ensures
        r@ == fetch_output(texts_of(args@)),
{
    if args.len() == 0 {
        return String::from_str("reqwest::get(\"\").await?");
    }
    let mut out = String::from_str("reqwest::get(");
    out.append(args[0].as_str());
    out.append(").await?");
    out
}

/// Converts one statement; unsupported statement kinds yield the empty
/// fragment.
pub(crate) fn convert_stmt(stmt: &Stmt) -> (r: String)
    ensures
        r@ == stmt_output(*stmt),
{
    match stmt {
        Stmt::Return(arg) => convert_return_stmt(arg),
        Stmt::Expr(e) => {
            let mut out = convert_expr(e);
            out.append(";");
            out
        },
        Stmt::Decl(_) => String::new(),
        Stmt::Other => String::new(),
    }
}

/// Converts a return statement: the converted operand wrapped in a return,
/// or a bare return without one.
pub(crate) fn convert_return_stmt(arg: &Option<Expr>) -> (r: String)
    ensures
        r@ == stmt_output(Stmt::Return(*arg)),
{
    match arg {
        Option::Some(e) => {
            let mut out = String::from_str("return ");
            let inner = convert_expr(e);
            out.append(inner.as_str());
            out.append(";");
            out
        },
        Option::None => String::from_str("return;"),
    }
}

/// Converts one statement to target text.
pub fn convert_stmt_pub(stmt: &Stmt) -> (r: String)
    ensures
        r@ == stmt_output(*stmt),
{
    convert_stmt(stmt)
}

/// Converts one expression to target text.
pub fn convert_expr_pub(expr: &Expr) -> (r: String)
    ensures
        r@ == expr_output(*expr),
{
    convert_expr(expr)
}

/// The per-file generation context: the append-only output buffer and the
/// exporting flag that scopes visibility annotations to the declarations
/// under an export marker. One instance owns one file's translation.
pub struct RustGenerator {
    pub code: String,
    pub is_exporting: bool,
}

impl RustGenerator {
    /// A fresh context: empty buffer, not exporting.
    pub fn new() -> (r: RustGenerator)
        ensures
            r.code@ == Seq::<char>::empty(),
            r.is_exporting == false,
    {
        RustGenerator { code: String::new(), is_exporting: false }
    }

    /// Appends the translation of one function declaration, and a trailing
    /// line break, to the output buffer. The visibility annotation follows
    /// the exporting context.
    pub fn visit_fn_decl(&mut self, n: &FnDecl)
        ensures
            final(self).code@ == old(self).code@ + fn_decl_output(*n, old(self).is_exporting)
                + "\n"@,
            final(self).is_exporting == old(self).is_exporting,
    {
        let mut def = String::new();
        if self.is_exporting {
            def.append("pub ");
        }
        if n.is_async {
            def.append("async ");
        }
        def.append("fn ");
        let name = to_snake_case(n.name.as_str());
        def.append(name.as_str());
        def.append("(");
        let mut parts: Vec<String> = Vec::new();
        let np: usize = n.params.len();
        let mut i: usize = 0;
        while i < np
            invariant
                np == n.params@.len(),
                i <= np,
                texts_of(parts@) =~~= param_texts(n.params@.subrange(0, i as int)),
            decreases np - i,
        {
            match &n.params[i] {
                Pat::Ident(pname, ann) => {
                    let mut ptext = to_snake_case(pname.as_str());
                    ptext.append(": ");
                    let ty = map_ts_type(ann);
                    ptext.append(ty.as_str());
                    parts.push(ptext);
                },
                Pat::Other => {},
            }
            proof {
                let sub1 = n.params@.subrange(0, i as int + 1);
                assert(sub1.drop_last() =~= n.params@.subrange(0, i as int));
                assert(sub1.last() == n.params@[i as int]);
                assert(texts_of(parts@) =~~= param_texts(sub1));
            }
            i = i + 1;
        }
        proof {
            assert(n.params@.subrange(0, np as int) =~= n.params@);
        }
        let joined = join_strings(&parts, ", ");
        def.append(joined.as_str());
        def.append(") -> ");
        let ret = if n.is_async {
            unwrap_promise_type(&n.return_type)
        } else {
            map_ts_type(&n.return_type)
        };
        def.append(ret.as_str());
        def.append(" { ");
        let ghost head = def@;
        match &n.body {
            Option::Some(stmts) => {
                let ns: usize = stmts.len();
                let mut k: usize = 0;
                while k < ns
                    invariant
                        ns == stmts@.len(),
                        k <= ns,
                        def@ == head + block_output(stmts@.subrange(0, k as int)),
                    decreases ns - k,
                {
                    match &stmts[k] {
                        Stmt::Return(_) => {
                            let st = convert_stmt(&stmts[k]);
                            def.append(st.as_str());
                            def.append(" ");
                        },
                        Stmt::Expr(_) => {
                            let st = convert_stmt(&stmts[k]);
                            def.append(st.as_str());
                            def.append(" ");
                        },
                        _ => {},
                    }
                    proof {
                        let sub1 = stmts@.subrange(0, k as int + 1);
                        assert(sub1.drop_last() =~= stmts@.subrange(0, k as int));
                        assert(sub1.last() == stmts@[k as int]);
                        assert(def@ == head + block_output(sub1));
                    }
                    k = k + 1;
                }
                proof {
                    assert(stmts@.subrange(0, ns as int) =~= stmts@);
                }
            },
            Option::None => {},
        }
        def.append("}");
        proof {
            assert(def@ =~= fn_decl_output(*n, self.is_exporting));
        }
        self.code.append(def.as_str());
        self.code.append("\n");
    }
}

/// A computed member access always yields the visible unsupported-access
/// marker: a non-empty, fixed placeholder, never an empty or missing
/// fragment.
pub proof fn lemma_computed_member_marked(m: MemberExpr)
    requires
        m.prop is Computed,
    ensures
        member_output(m) == unsupported_member_text(),
        member_output(m).len() > 0,
{
    reveal_strlit("compile_error!(\"unsupported member access\")");
}

/// The texts of converted arguments, element by element.
pub proof fn lemma_arg_texts(args: Seq<Expr>)
    ensures
        arg_texts(args).len() == args.len(),
        forall|i: int| 0 <= i < args.len() ==> arg_texts(args)[i] == expr_output(#[trigger] args[i]),
    decreases args,
{
    if args.len() > 0 {
        lemma_arg_texts(args.drop_last());
        assert forall|i: int| 0 <= i < args.len() implies arg_texts(args)[i] == expr_output(
            #[trigger] args[i],
        ) by {
            if i < args.len() - 1 {
                assert(args.drop_last()[i] == args[i]);
                assert(arg_texts(args)[i] == arg_texts(args.drop_last())[i]);
            } else {
                assert(args.last() == args[i]);
                assert(arg_texts(args)[i] == expr_output(args.last()));
            }
        }
    }
}

/// Every call expression yields some output: whether a dispatch rule fires
/// or the conversion falls through to the generic path, the emitted fragment
/// is never empty, so no call is silently dropped.
pub proof fn lemma_call_never_dropped(c: CallExpr)
    ensures
        call_output(c).len() > 0,
{
    reveal_strlit(")");
    reveal_strlit("()");
    reveal_strlit("rand::random::<f64>()");
    reveal_strlit("(\"\").send().await?");
    reveal_strlit(").send().await?");
    reveal_strlit("reqwest::get(\"\").await?");
    reveal_strlit(").await?");
    reveal_strlit(").collect::<Vec<_>>()");
}

/// Standard-library fallthrough for the numeric namespace: a two-argument
/// call to the recognized maximum maps to the binary-method form, while a
/// three-argument call to the same name falls through to the generic call
/// conversion, never an error and never a dropped argument.
pub proof fn lemma_math_max_fallthrough(c: CallExpr)
    requires
        ({
            &&& c.callee matches Callee::Expr(ce)
            &&& (*ce) matches Expr::Member(m)
            &&& (*m.obj) matches Expr::Ident(o)
            &&& o@ == "Math"@
            &&& m.prop matches MemberProp::Named(p)
            &&& p@ == "max"@
        }),
    ensures
        c.args@.len() == 2 ==> call_output(c) == math::binary_method(
            expr_output(c.args@[0]),
            "max"@,
            expr_output(c.args@[1]),
        ),
        c.args@.len() == 3 ==> call_output(c) == generic_call_output(c),
{
    reveal_strlit("Math");
    reveal_strlit("console");
    reveal_strlit("max");
    reveal_strlit("min");
    reveal_strlit("round");
    reveal_strlit("floor");
    reveal_strlit("ceil");
    reveal_strlit("abs");
    reveal_strlit("random");
    lemma_arg_texts(c.args@);
    assert(("Math"@).len() == 4);
    assert(("console"@).len() == 7);
}

} // verus!
