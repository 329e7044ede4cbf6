//! Making a foreign package usable: the entry script that re-exports its
//! scripts and the manifest that names it.

use crate::text::same_text;
use vstd::prelude::*;
use vstd::string::StringExecFns;

verus! {

/// The line that exports the script `stem` under its own name.
pub open spec fn export_line(stem: Seq<char>) -> Seq<char> {
    "    "@ + stem + " = require(`./"@ + stem + "`),"@
}

/// The export lines of `stems`, each ended by a line feed.
pub open spec fn export_lines(stems: Seq<String>) -> Seq<char>
    decreases stems.len(),
{
    if stems.len() == 0 {
        Seq::<char>::empty()
    } else {
        export_lines(stems.drop_last()) + export_line(stems.last()@) + "\n"@
    }
}

/// The entry script that re-exports the scripts `stems`: a table with one
/// member for each.
pub open spec fn wrapper_text(stems: Seq<String>) -> Seq<char> {
    "return {\n"@ + export_lines(stems) + "}"@
}

/// The manifest of the package `name` whose entry script is `entry`.
pub open spec fn manifest_text(name: Seq<char>, entry: Seq<char>) -> Seq<char> {
    "name = \""@ + name + "\"\nversion = \"0.1.0\"\nentry = \""@ + entry
        + "\"\nlanguage = \"luau\"\n"@
}

/// Makes foreign packages usable.
pub struct CompatibilityLayer;

impl CompatibilityLayer {
    /// Whether an entry script has to be written: only where the package
    /// has none of its own.
    pub fn needs_wrapper(has_init_luau: bool, has_init_lua: bool) -> (r: bool)
        ensures
            r == (!has_init_luau && !has_init_lua),
    {
        !has_init_luau && !has_init_lua
    }

    /// Whether a file with this extension is a script.
    pub fn is_script(extension: &str) -> (r: bool)
        ensures
            r == (extension@ == "luau"@ || extension@ == "lua"@),
    {
        same_text(extension, "luau") || same_text(extension, "lua")
    }

    /// The entry script that re-exports the scripts `stems`.
    pub fn wrapper_source(stems: &Vec<String>) -> (r: String)
        ensures
            r@ == wrapper_text(stems@),
    {
        let mut out = "return {\n".to_owned();
        let mut i: usize = 0;
        while i < stems.len()
            invariant
                i <= stems@.len(),
                out@ == "return {\n"@ + export_lines(stems@.take(i as int)),
            decreases stems@.len() - i,
        {
            let stem = stems[i].as_str();
            let ghost before = out@;
            out.append("    ");
            out.append(stem);
            out.append(" = require(`./");
            out.append(stem);
            out.append("`),");
            out.append("\n");
            proof {
                assert(stems@.take(i + 1).drop_last() =~= stems@.take(i as int));
                assert(stems@.take(i + 1).last() == stems@[i as int]);
                assert(out@ =~= before + export_line(stem@) + "\n"@);
                assert(out@ =~= "return {\n"@ + export_lines(stems@.take(i + 1)));
            }
            i = i + 1;
        }
        proof {
            assert(stems@.take(stems@.len() as int) =~= stems@);
        }
        out.append("}");
        out
    }

    /// The name that the manifest gives the package: the directory's name,
    /// or `lunu-lib` where the directory has none.
    pub fn manifest_name<'a>(file_name: Option<&'a str>) -> (r: &'a str)
        ensures
            r@ == (match file_name {
                Some(n) => n@,
                None => "lunu-lib"@,
            }),
    {
        match file_name {
            Some(n) => n,
            None => "lunu-lib",
        }
    }

    /// The entry script that the manifest names: `init.lua` only where the
    /// package has that one and no `init.luau`.
    pub fn manifest_entry(has_init_luau: bool, has_init_lua: bool) -> (r: &'static str)
        ensures
            r@ == (if !has_init_luau && has_init_lua {
                "init.lua"@
            } else {
                "init.luau"@
            }),
    {
        if has_init_luau {
            "init.luau"
        } else if has_init_lua {
            "init.lua"
        } else {
            "init.luau"
        }
    }

    /// The manifest of the package `name` whose entry script is `entry`.
    pub fn manifest_source(name: &str, entry: &str) -> (r: String)
        ensures
            r@ == manifest_text(name@, entry@),
    {
        let mut out = "name = \"".to_owned();
        out.append(name);
        out.append("\"\nversion = \"0.1.0\"\nentry = \"");
        out.append(entry);
        out.append("\"\nlanguage = \"luau\"\n");
        assert(out@ =~= manifest_text(name@, entry@));
        out
    }
}

} // verus!
