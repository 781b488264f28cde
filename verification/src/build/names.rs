//! Names the build reads from its environment and writes to disk.
use vstd::prelude::*;
use vstd::string::StringExecFns;
use crate::text::{chars_of, string_push};

verus! {

/// `char::to_ascii_uppercase`.
pub open spec fn ascii_upper(c: char) -> char {
    if 'a' <= c && c <= 'z' {
        ((c as u32) - 32) as char
    } else {
        c
    }
}

/// `str::to_ascii_uppercase`, after `str::replace('-', "_")` when `dashes`.
pub open spec fn env_part(s: Seq<char>, dashes: bool) -> Seq<char> {
    s.map_values(|c: char| if dashes && c == '-' { '_' } else { ascii_upper(c) })
}

fn push_env_part(out: &mut String, s: &str, dashes: bool)
    ensures
        final(out)@ == old(out)@ + env_part(s@, dashes),
{
    let cs = chars_of(s);
    let ghost start = out@;
    for i in 0..cs.len()
        invariant
            cs@ == s@,
            out@ == start + env_part(s@.take(i as int), dashes),
    {
        let c = cs[i];
        let d = if dashes && c == '-' {
            '_'
        } else if 'a' <= c && c <= 'z' {
            ((c as u8) - 32) as char
        } else {
            c
        };
        string_push(out, d);
        assert(env_part(s@.take(i + 1), dashes) =~= env_part(s@.take(i as int), dashes).push(d));
    }
    assert(s@.take(cs.len() as int) == s@);
}

/// The file the bindings are kept in: `wrapper.rs`, or `wrapper_<suffix>.rs`
/// for a non-empty suffix.
pub fn get_bindings_file_name(suffix: &str) -> (r: String)
    ensures
        r@ == (if suffix@.len() == 0 {
            "wrapper.rs"@
        } else {
            "wrapper_"@ + suffix@ + ".rs"@
        }),
{
    if suffix.is_empty() {
        String::from_str("wrapper.rs")
    } else {
        let mut s = String::from_str("wrapper_");
        s.append(suffix);
        s.append(".rs");
        s
    }
}

/// The variable through which cargo hands a build script the value `name`
/// that the build of `dependency` set: `DEP_<DEPENDENCY>_<NAME>`, upper
/// case, with the dependency's dashes as underscores.
pub fn dependency_variable_name(dependency: &str, name: &str) -> (r: String)
    ensures
        r@ == "DEP_"@ + env_part(dependency@, true) + "_"@ + env_part(name@, false),
{
    let mut s = String::from_str("DEP_");
    push_env_part(&mut s, dependency, true);
    s.append("_");
    push_env_part(&mut s, name, false);
    s
}

/// The variable through which cargo tells a build script that feature
/// `name` is on: `CARGO_FEATURE_<NAME>`, upper case, dashes as underscores.
pub fn feature_variable_name(name: &str) -> (r: String)
    ensures
        r@ == "CARGO_FEATURE_"@ + env_part(name@, true),
{
    let mut s = String::from_str("CARGO_FEATURE_");
    push_env_part(&mut s, name, true);
    s
}

} // verus!
