//! The C compiler configuration of `cc`, as the build logic sees it: the
//! defines, the flags and the language standard a `cc::Build` holds.
use vstd::prelude::*;

verus! {

#[verifier::external_type_specification]
#[verifier::external_body]
pub struct ExBuild(cc::Build);

/// The `-D` definitions a build holds, in the order they were added.
pub uninterp spec fn build_definitions(b: cc::Build) -> Seq<(Seq<char>, Option<Seq<char>>)>;

/// The compiler flags a build holds, in the order they were added, each
/// with whether it is only used when the compiler supports it.
pub uninterp spec fn build_flags(b: cc::Build) -> Seq<(Seq<char>, bool)>;

/// The language standard a build asks for, if any.
pub uninterp spec fn build_std(b: cc::Build) -> Option<Seq<char>>;

pub open spec fn opt_str_view(v: Option<&str>) -> Option<Seq<char>> {
    match v {
        Some(s) => Some(s@),
        None => None,
    }
}

/// The same definitions, flags and standard.
pub open spec fn same_config(a: cc::Build, b: cc::Build) -> bool {
    &&& build_definitions(a) == build_definitions(b)
    &&& build_flags(a) == build_flags(b)
    &&& build_std(a) == build_std(b)
}

/// `cc::Build::clone` (derived): the copy holds the same definitions,
/// flags and standard.
#[verifier::external_body]
pub(crate) fn build_clone(b: &cc::Build) -> (r: cc::Build)
    ensures
        same_config(r, *b),
{
    b.clone()
}

/// `cc::Build::define`: the source shows it appends `(var, val)` to the
/// definitions and touches nothing else that these names describe.
#[verifier::external_body]
pub(crate) fn build_define(b: &mut cc::Build, var: &str, val: Option<&str>)
    ensures
        build_definitions(*final(b)) == build_definitions(*old(b)).push((var@, opt_str_view(val))),
        build_flags(*final(b)) == build_flags(*old(b)),
        build_std(*final(b)) == build_std(*old(b)),
{
    b.define(var, val);
}

/// `cc::Build::flag`: the source shows it appends the flag (always used)
/// and touches nothing else that these names describe.
#[verifier::external_body]
pub(crate) fn build_flag(b: &mut cc::Build, flag: &str)
    ensures
        build_flags(*final(b)) == build_flags(*old(b)).push((flag@, false)),
        build_definitions(*final(b)) == build_definitions(*old(b)),
        build_std(*final(b)) == build_std(*old(b)),
{
    b.flag(flag);
}

/// `cc::Build::flag_if_supported`: the source shows it appends the flag,
/// marked as used only when supported, and touches nothing else that
/// these names describe.
#[verifier::external_body]
pub(crate) fn build_flag_if_supported(b: &mut cc::Build, flag: &str)
    ensures
        build_flags(*final(b)) == build_flags(*old(b)).push((flag@, true)),
        build_definitions(*final(b)) == build_definitions(*old(b)),
        build_std(*final(b)) == build_std(*old(b)),
{
    b.flag_if_supported(flag);
}

/// `cc::Build::std`: the source shows it sets the standard and touches
/// nothing else that these names describe.
#[verifier::external_body]
pub(crate) fn build_set_std(b: &mut cc::Build, std_name: &str)
    ensures
        build_std(*final(b)) == Some(std_name@),
        build_definitions(*final(b)) == build_definitions(*old(b)),
        build_flags(*final(b)) == build_flags(*old(b)),
{
    b.std(std_name);
}

} // verus!
