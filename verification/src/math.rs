//! Numeric-namespace dispatch: two-argument maximum and minimum, the
//! one-argument rounding family and absolute value, and zero-argument random
//! each map to the target equivalent; any other arity for these names
//! declines so the caller falls through to generic call conversion.
use vstd::prelude::*;
use vstd::string::StringExecFns;
use crate::text::{texts_of, opt_view, str_eq};

verus! {

/// A receiver-method call text: `a.name(b)`.
pub open spec fn binary_method(a: Seq<char>, name: Seq<char>, b: Seq<char>) -> Seq<char> {
    a + "."@ + name + "("@ + b + ")"@
}

/// A receiver-method call text with no arguments: `a.name()`.
pub open spec fn unary_method(a: Seq<char>, name: Seq<char>) -> Seq<char> {
    a + "."@ + name + "()"@
}

/// The translation of a numeric-namespace method call, or `None` when the
/// method is unrecognized or its argument count does not match the rule.
pub open spec fn math_output(method: Seq<char>, args: Seq<Seq<char>>) -> Option<Seq<char>> {
    if method == "max"@ {
        if args.len() == 2 {
            Option::Some(binary_method(args[0], "max"@, args[1]))
        } else {
            Option::None
        }
    } else if method == "min"@ {
        if args.len() == 2 {
            Option::Some(binary_method(args[0], "min"@, args[1]))
        } else {
            Option::None
        }
    } else if method == "round"@ || method == "floor"@ || method == "ceil"@ || method == "abs"@ {
        if args.len() == 1 {
            Option::Some(unary_method(args[0], method))
        } else {
            Option::None
        }
    } else if method == "random"@ {
        if args.len() == 0 {
            Option::Some("rand::random::<f64>()"@)
        } else {
            Option::None
        }
    } else {
        Option::None
    }
}

/// Translates a numeric-namespace method call over the already-converted
/// argument texts; declines on an unrecognized name or a wrong arity.
pub fn handle(method: &str, args: &Vec<String>) -> (r: Option<String>)
    ensures
        opt_view(r) == math_output(method@, texts_of(args@)),
{
    if str_eq(method, "max") {
        if args.len() == 2 {
            Some(binary_method_text(&args[0], "max", &args[1]))
        } else {
            None
        }
    } else if str_eq(method, "min") {
        if args.len() == 2 {
            Some(binary_method_text(&args[0], "min", &args[1]))
        } else {
            None
        }
    } else if str_eq(method, "round") || str_eq(method, "floor") || str_eq(method, "ceil")
        || str_eq(method, "abs") {
        if args.len() == 1 {
            let mut out = args[0].clone();
            out.append(".");
            out.append(method);
            out.append("()");
            Some(out)
        } else {
            None
        }
    } else if str_eq(method, "random") {
        if args.len() == 0 {
            Some(String::from_str("rand::random::<f64>()"))
        } else {
            None
        }
    } else {
        None
    }
}

/// Renders `a.name(b)`.
fn binary_method_text(a: &String, name: &str, b: &String) -> (r: String)
    ensures
        r@ == binary_method(a@, name@, b@),
{
    let mut out = a.clone();
    out.append(".");
    out.append(name);
    out.append("(");
    out.append(b.as_str());
    out.append(")");
    out
}

} // verus!
