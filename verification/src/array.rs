//! Collection-method dispatch: methods invoked directly on a value rather
//! than on a global namespace. A one-argument push becomes an append, the
//! one-argument map and filter become lazy transform chains materialized into
//! an owned sequence, and a one-argument join becomes a string join; any
//! other arity declines so the caller falls through to generic conversion.
use vstd::prelude::*;
use vstd::string::StringExecFns;
use crate::text::{texts_of, opt_view, str_eq};

verus! {

/// The translation of a collection method call on a receiver text, or `None`
/// when the method is unrecognized or its argument count does not match.
pub open spec fn array_output(obj: Seq<char>, method: Seq<char>, args: Seq<Seq<char>>) -> Option<
    Seq<char>,
> {
    if method == "push"@ {
        if args.len() == 1 {
            Option::Some(obj + ".push("@ + args[0] + ")"@)
        } else {
            Option::None
        }
    } else if method == "map"@ {
        if args.len() == 1 {
            Option::Some(obj + ".iter().map("@ + args[0] + ").collect::<Vec<_>>()"@)
        } else {
            Option::None
        }
    } else if method == "filter"@ {
        if args.len() == 1 {
            Option::Some(obj + ".iter().filter("@ + args[0] + ").collect::<Vec<_>>()"@)
        } else {
            Option::None
        }
    } else if method == "join"@ {
        if args.len() == 1 {
            Option::Some(obj + ".join("@ + args[0] + ")"@)
        } else {
            Option::None
        }
    } else {
        Option::None
    }
}

/// Translates a collection method call over the converted receiver text and
/// the already-converted argument texts; declines on an unrecognized name or
/// a wrong arity.
pub fn handle_method(obj: &str, method: &str, args: &Vec<String>) -> (r: Option<String>)
    ensures
        opt_view(r) == array_output(obj@, method@, texts_of(args@)),
{
    if str_eq(method, "push") {
        if args.len() == 1 {
            let mut out = String::from_str(obj);
            out.append(".push(");
            out.append(args[0].as_str());
            out.append(")");
            Some(out)
        } else {
            None
        }
    } else if str_eq(method, "map") {
        if args.len() == 1 {
            let mut out = String::from_str(obj);
            out.append(".iter().map(");
            out.append(args[0].as_str());
            out.append(").collect::<Vec<_>>()");
            Some(out)
        } else {
            None
        }
    } else if str_eq(method, "filter") {
        if args.len() == 1 {
            let mut out = String::from_str(obj);
            out.append(".iter().filter(");
            out.append(args[0].as_str());
            out.append(").collect::<Vec<_>>()");
            Some(out)
        } else {
            None
        }
    } else if str_eq(method, "join") {
        if args.len() == 1 {
            let mut out = String::from_str(obj);
            out.append(".join(");
            out.append(args[0].as_str());
            out.append(")");
            Some(out)
        } else {
            None
        }
    } else {
        None
    }
}

} // verus!
