//! The type mapper: source type annotations to target type expressions.
//! An absent or unrecognized annotation maps to the target's placeholder
//! type rather than failing; asynchronous declarations unwrap a
//! single-argument wrapped return type to the inner type's mapping, because
//! the target's asynchronous calling convention supplies the wrapping
//! itself and a literal translation would double-wrap the signature.
use vstd::prelude::*;
use vstd::string::StringExecFns;
use crate::ast::TsType;
use crate::text::{join_texts, join_strings, texts_of, str_eq};

verus! {

/// The target text for one source type expression.
pub open spec fn type_output(t: TsType) -> Seq<char>
    decreases t,
{
    match t {
        TsType::Named(n) => {
            if n@ == "number"@ {
                "f64"@
            } else if n@ == "string"@ {
                "String"@
            } else if n@ == "boolean"@ {
                "bool"@
            } else if n@ == "void"@ || n@ == "any"@ || n@ == "unknown"@ {
                "()"@
            } else {
                n@
            }
        },
        TsType::Applied(n, args) => {
            if n@ == "Array"@ && args@.len() == 1 {
                "Vec<"@ + type_output(args@[0]) + ">"@
            } else {
                n@ + "<"@ + join_texts(type_arg_texts(args@), ", "@) + ">"@
            }
        },
        TsType::Other => "()"@,
    }
}

/// The target texts of a list of type arguments, in order.
pub open spec fn type_arg_texts(ts: Seq<TsType>) -> Seq<Seq<char>>
    decreases ts,
{
    if ts.len() == 0 {
        Seq::empty()
    } else {
        type_arg_texts(ts.drop_last()) + seq![type_output(ts.last())]
    }
}

/// The target text for a possibly absent annotation: absence maps to the
/// placeholder type.
pub open spec fn map_output(ann: Option<TsType>) -> Seq<char> {
    match ann {
        Option::None => "()"@,
        Option::Some(t) => type_output(t),
    }
}

/// The target text for an asynchronous declaration's return annotation: a
/// single-argument wrapped type yields the inner type's mapping; anything
/// else maps as usual.
pub open spec fn unwrap_output(ann: Option<TsType>) -> Seq<char> {
    match ann {
        Option::Some(TsType::Applied(n, args)) => {
            if n@ == "Promise"@ && args@.len() == 1 {
                type_output(args@[0])
            } else {
                map_output(ann)
            }
        },
        _ => map_output(ann),
    }
}

/// Renders one source type expression as target text.
pub fn type_to_text(t: &TsType) -> (r: String)
    ensures
        r@ == type_output(*t),
    decreases *t,
{
    match t {
        TsType::Named(n) => {
            if str_eq(n.as_str(), "number") {
                String::from_str("f64")
            } else if str_eq(n.as_str(), "string") {
                String::from_str("String")
            } else if str_eq(n.as_str(), "boolean") {
                String::from_str("bool")
            } else if str_eq(n.as_str(), "void") || str_eq(n.as_str(), "any") || str_eq(
                n.as_str(),
                "unknown",
            ) {
                String::from_str("()")
            } else {
                n.clone()
            }
        },
        TsType::Applied(n, args) => {
            if str_eq(n.as_str(), "Array") && args.len() == 1 {
                let mut out = String::from_str("Vec<");
                let inner = type_to_text(&args[0]);
                out.append(inner.as_str());
                out.append(">");
                out
            } else {
                applied_to_text(n, args)
            }
        },
        TsType::Other => String::from_str("()"),
    }
}

/// Renders an applied type in its generic form, the name followed by the
/// bracketed, comma-separated argument texts.
fn applied_to_text(n: &String, args: &Vec<TsType>) -> (r: String)
    ensures
        r@ == n@ + "<"@ + join_texts(type_arg_texts(args@), ", "@) + ">"@,
    decreases *args,
{
    let mut parts: Vec<String> = Vec::new();
    let count: usize = args.len();
    let mut i: usize = 0;
    while i < count
        invariant
            count == args@.len(),
            i <= count,
            texts_of(parts@) =~~= type_arg_texts(args@.subrange(0, i as int)),
        decreases count - i,
    {
        let one = type_to_text(&args[i]);
        parts.push(one);
        proof {
            let sub1 = args@.subrange(0, i as int + 1);
            assert(sub1.drop_last() =~= args@.subrange(0, i as int));
            assert(sub1.last() == args@[i as int]);
            assert(texts_of(parts@) =~~= type_arg_texts(sub1));
        }
        i = i + 1;
    }
    proof {
        assert(args@.subrange(0, count as int) =~= args@);
    }
    let mut out = n.clone();
    out.append("<");
    let joined = join_strings(&parts, ", ");
    out.append(joined.as_str());
    out.append(">");
    out
}

/// Maps an annotation to its target type text; absence yields the
/// placeholder type.
pub fn map_ts_type(ann: &Option<TsType>) -> (r: String)
    ensures
        r@ == map_output(*ann),
{
    match ann {
        Option::None => String::from_str("()"),
        Option::Some(t) => type_to_text(t),
    }
}

/// Maps an asynchronous declaration's return annotation, unwrapping a
/// single-argument wrapped type to the inner type's mapping.
pub fn unwrap_promise_type(ann: &Option<TsType>) -> (r: String)
    ensures
        r@ == unwrap_output(*ann),
{
    match ann {
        Option::Some(t) => {
            if let TsType::Applied(n, args) = t {
                if str_eq(n.as_str(), "Promise") && args.len() == 1 {
                    return type_to_text(&args[0]);
                }
            }
            type_to_text(t)
        },
        Option::None => String::from_str("()"),
    }
}

/// An asynchronous declaration whose declared return is the single-argument
/// wrapper applied to an inner type emits the inner type's mapping, not a
/// translation of the wrapper.
pub proof fn lemma_unwrap_async(name: String, args: Vec<TsType>, inner: TsType)
    requires
        name@ == "Promise"@,
        args@ == seq![inner],
    ensures
        unwrap_output(Option::Some(TsType::Applied(name, args))) == type_output(inner),
{
}

} // verus!
