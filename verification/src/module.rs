//! Module-item processing and the import resolver. An exported declaration
//! is generated with the exporting context raised for exactly its own
//! subtree; an import declaration becomes one target import statement per
//! specifier, with a current-directory-relative path rewritten to a
//! root-relative module path; any other module-level item goes through
//! ordinary statement generation.
use vstd::prelude::*;
use vstd::string::StrSliceExecFns;
use vstd::string::StringExecFns;
use crate::ast::{Decl, ImportDecl, ImportSpecifier, ModuleDecl, ModuleItem, Stmt};
use crate::func::{convert_stmt, decl_fn_output, stmt_output, RustGenerator};
use crate::text::{push_char, str_eq};

verus! {

/// The path with every repetition of the leading current-directory marker
/// removed.
pub open spec fn strip_rel(s: Seq<char>) -> Seq<char>
    decreases s.len(),
{
    if s.len() >= 2 && s[0] == '.' && s[1] == '/' {
        strip_rel(s.skip(2))
    } else {
        s
    }
}

/// The path's segments with the source separator replaced by the target's
/// namespace separator.
pub open spec fn replace_sep(s: Seq<char>) -> Seq<char>
    decreases s.len(),
{
    if s.len() == 0 {
        Seq::empty()
    } else {
        replace_sep(s.drop_last()) + (if s.last() == '/' {
            "::"@
        } else {
            seq![s.last()]
        })
    }
}

/// The resolved module path: a current-directory-relative path becomes a
/// root-relative path with namespace separators; any other path passes
/// through unchanged.
pub open spec fn resolved_path(src: Seq<char>) -> Seq<char> {
    if src.len() >= 2 && src[0] == '.' && src[1] == '/' {
        "crate::"@ + replace_sep(strip_rel(src))
    } else {
        src
    }
}

/// The target import statement for one specifier under a resolved path: a
/// named specifier imports the source name, aliased when the local binding
/// differs; a default import assumes a symbol of the local name; a namespace
/// specifier aliases the whole module.
pub open spec fn specifier_output(path: Seq<char>, sp: ImportSpecifier) -> Seq<char> {
    match sp {
        ImportSpecifier::Named { local, imported } => {
            let name = match imported {
                Option::Some(i) => i@,
                Option::None => local@,
            };
            if name == local@ {
                "use "@ + path + "::"@ + local@ + ";\n"@
            } else {
                "use "@ + path + "::"@ + name + " as "@ + local@ + ";\n"@
            }
        },
        ImportSpecifier::DefaultImport { local } => "use "@ + path + "::"@ + local@ + ";\n"@,
        ImportSpecifier::Namespace { local } => "use "@ + path + " as "@ + local@ + ";\n"@,
    }
}

/// The import statements of a specifier list, in order.
pub open spec fn specifiers_output(path: Seq<char>, sps: Seq<ImportSpecifier>) -> Seq<char>
    decreases sps,
{
    if sps.len() == 0 {
        Seq::empty()
    } else {
        specifiers_output(path, sps.drop_last()) + specifier_output(path, sps.last())
    }
}

/// The full translation of one import declaration.
pub open spec fn import_output(d: ImportDecl) -> Seq<char> {
    specifiers_output(resolved_path(d.src@), d.specifiers@)
}

/// What one module item contributes to the output, given the exporting
/// context in force when it is reached.
pub open spec fn item_output(item: ModuleItem, exporting: bool) -> Seq<char> {
    match item {
        ModuleItem::ModuleDecl(d) => match d {
            ModuleDecl::ExportDecl(decl) => decl_fn_output(decl, true),
            ModuleDecl::Import(i) => import_output(i),
            ModuleDecl::Other => Seq::empty(),
        },
        ModuleItem::Stmt(s) => match s {
            Stmt::Decl(d) => decl_fn_output(d, exporting),
            Stmt::Return(_) => stmt_output(s) + "\n"@,
            Stmt::Expr(_) => stmt_output(s) + "\n"@,
            Stmt::Other => Seq::empty(),
        },
    }
}

/// The whole translation of a module body, item by item in source order,
/// starting outside any export context.
pub open spec fn module_output(items: Seq<ModuleItem>) -> Seq<char>
    decreases items,
{
    if items.len() == 0 {
        Seq::empty()
    } else {
        module_output(items.drop_last()) + item_output(items.last(), false)
    }
}

/// Resolves an import source path to the target module path.
fn resolve_module_path(src: &str) -> (r: String)
    ensures
        r@ == resolved_path(src@),
{
    let n: usize = src.unicode_len();
    let mut k: usize = 0;
    proof {
        assert(src@.skip(0) =~= src@);
    }
    while n > 0 && k < n - 1 && src.get_char(k) == '.' && src.get_char(k + 1) == '/'
        invariant
            n == src@.len(),
            k <= n,
            strip_rel(src@) == strip_rel(src@.skip(k as int)),
            k == 0 || (src@.len() >= 2 && src@[0] == '.' && src@[1] == '/'),
        decreases n - k,
    {
        proof {
            let s = src@.skip(k as int);
            assert(s.len() >= 2 && s[0] == '.' && s[1] == '/');
            assert(s.skip(2) =~= src@.skip(k as int + 2));
        }
        k = k + 2;
    }
    if k == 0 {
        return src.to_owned();
    }
    let mut out = String::from_str("crate::");
    proof {
        assert(strip_rel(src@.skip(k as int)) == src@.skip(k as int));
        assert(src@.subrange(k as int, k as int) =~= Seq::<char>::empty());
    }
    let mut i: usize = k;
    while i < n
        invariant
            n == src@.len(),
            k <= i <= n,
            out@ == "crate::"@ + replace_sep(src@.subrange(k as int, i as int)),
        decreases n - i,
    {
        let c = src.get_char(i);
        if c == '/' {
            out.append("::");
        } else {
            push_char(&mut out, c);
        }
        proof {
            let sub1 = src@.subrange(k as int, i as int + 1);
            assert(sub1.drop_last() =~= src@.subrange(k as int, i as int));
            assert(sub1.last() == src@[i as int]);
        }
        i = i + 1;
    }
    proof {
        assert(src@.subrange(k as int, n as int) =~= src@.skip(k as int));
    }
    out
}

impl RustGenerator {
    /// Appends one target import statement per specifier, under the resolved
    /// module path.
    fn process_import_decl(&mut self, n: &ImportDecl)
        ensures
            final(self).code@ == old(self).code@ + import_output(*n),
            final(self).is_exporting == old(self).is_exporting,
    {
        let path = resolve_module_path(n.src.as_str());
        let ghost start = self.code@;
        let ghost exporting0 = self.is_exporting;
        let ns: usize = n.specifiers.len();
        let mut i: usize = 0;
        while i < ns
            invariant
                ns == n.specifiers@.len(),
                i <= ns,
                path@ == resolved_path(n.src@),
                self.code@ == start + specifiers_output(path@, n.specifiers@.subrange(0, i as int)),
                self.is_exporting == exporting0,
            decreases ns - i,
        {
            let mut line = String::from_str("use ");
            line.append(path.as_str());
            match &n.specifiers[i] {
                ImportSpecifier::Named { local, imported } => {
                    let name: &String = match imported {
                        Option::Some(im) => im,
                        Option::None => local,
                    };
                    line.append("::");
                    if str_eq(name.as_str(), local.as_str()) {
                        line.append(local.as_str());
                    } else {
                        line.append(name.as_str());
                        line.append(" as ");
                        line.append(local.as_str());
                    }
                    line.append(";\n");
                },
                ImportSpecifier::DefaultImport { local } => {
                    line.append("::");
                    line.append(local.as_str());
                    line.append(";\n");
                },
                ImportSpecifier::Namespace { local } => {
                    line.append(" as ");
                    line.append(local.as_str());
                    line.append(";\n");
                },
            }
            self.code.append(line.as_str());
            proof {
                let sub1 = n.specifiers@.subrange(0, i as int + 1);
                assert(sub1.drop_last() =~= n.specifiers@.subrange(0, i as int));
                assert(sub1.last() == n.specifiers@[i as int]);
                assert(self.code@ == start + specifiers_output(path@, sub1));
            }
            i = i + 1;
        }
        proof {
            assert(n.specifiers@.subrange(0, ns as int) =~= n.specifiers@);
        }
    }

    /// Processes one module item: an exported declaration is generated with
    /// the exporting context raised for exactly its subtree, an import
    /// declaration goes to the import resolver, and any other item goes
    /// through ordinary statement generation.
    pub fn process_module_item(&mut self, n: &ModuleItem)
        ensures
            final(self).code@ == old(self).code@ + item_output(*n, old(self).is_exporting),
            final(self).is_exporting == (match *n {
                ModuleItem::ModuleDecl(ModuleDecl::ExportDecl(_)) => false,
                _ => old(self).is_exporting,
            }),
    {
        match n {
            ModuleItem::ModuleDecl(d) => {
                match d {
                    ModuleDecl::ExportDecl(decl) => {
                        self.is_exporting = true;
                        match decl {
                            Decl::Fn(f) => self.visit_fn_decl(f),
                            Decl::Other => {},
                        }
                        self.is_exporting = false;
                    },
                    ModuleDecl::Import(i) => {
                        self.process_import_decl(i);
                    },
                    ModuleDecl::Other => {},
                }
            },
            ModuleItem::Stmt(s) => {
                match s {
                    Stmt::Decl(d) => {
                        match d {
                            Decl::Fn(f) => self.visit_fn_decl(f),
                            Decl::Other => {},
                        }
                    },
                    Stmt::Return(_) => {
                        let st = convert_stmt(s);
                        self.code.append(st.as_str());
                        self.code.append("\n");
                    },
                    Stmt::Expr(_) => {
                        let st = convert_stmt(s);
                        self.code.append(st.as_str());
                        self.code.append("\n");
                    },
                    Stmt::Other => {},
                }
            },
        }
    }
}

/// Translates a whole module body into one target text blob: each item's
/// contribution in source order, starting outside any export context.
pub fn translate_module(items: &Vec<ModuleItem>) -> (r: String)
    ensures
        r@ == module_output(items@),
{
    let mut generator = RustGenerator::new();
    let n: usize = items.len();
    let mut i: usize = 0;
    while i < n
        invariant
            n == items@.len(),
            i <= n,
            generator.code@ == module_output(items@.subrange(0, i as int)),
            generator.is_exporting == false,
        decreases n - i,
    {
        generator.process_module_item(&items[i]);
        proof {
            let sub1 = items@.subrange(0, i as int + 1);
            assert(sub1.drop_last() =~= items@.subrange(0, i as int));
            assert(sub1.last() == items@[i as int]);
        }
        i = i + 1;
    }
    proof {
        assert(items@.subrange(0, n as int) =~= items@);
    }
    generator.code
}

/// Translating the same tree twice with the same static tables yields
/// byte-identical output: the translation is a function of the tree alone,
/// and no unordered state leaks into the emitted text.
pub proof fn lemma_translation_deterministic(
    items: Seq<ModuleItem>,
    out1: Seq<char>,
    out2: Seq<char>,
)
    requires
        out1 == module_output(items),
        out2 == module_output(items),
    ensures
        out1 == out2,
{
}

} // verus!
