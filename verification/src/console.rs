//! Output-namespace dispatch: calls on the recognized console-like global
//! map to the target's standard-output or standard-error formatting call,
//! with the argument texts passed through unchanged and unconstrained in
//! number. An unrecognized method declines, and the caller falls through to
//! generic call conversion.
use vstd::prelude::*;
use vstd::string::StringExecFns;
use crate::text::{join_texts, join_strings, texts_of, opt_view, str_eq};

verus! {

/// The translation of a console-namespace method call, or `None` when the
/// method is not recognized.
pub open spec fn console_output(method: Seq<char>, args: Seq<Seq<char>>) -> Option<Seq<char>> {
    if method == "log"@ {
        Option::Some("println!("@ + join_texts(args, ", "@) + ")"@)
    } else if method == "error"@ {
        Option::Some("eprintln!("@ + join_texts(args, ", "@) + ")"@)
    } else {
        Option::None
    }
}

/// Translates a console-namespace method call over the already-converted
/// argument texts; declines when the method is unrecognized.
pub fn handle(method: &str, args: &Vec<String>) -> (r: Option<String>)
    ensures
        opt_view(r) == console_output(method@, texts_of(args@)),
{
    if str_eq(method, "log") {
        let mut out = String::from_str("println!(");
        let joined = join_strings(args, ", ");
        out.append(joined.as_str());
        out.append(")");
        Some(out)
    } else if str_eq(method, "error") {
        let mut out = String::from_str("eprintln!(");
        let joined = join_strings(args, ", ");
        out.append(joined.as_str());
        out.append(")");
        Some(out)
    } else {
        None
    }
}

} // verus!
