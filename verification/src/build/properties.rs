//! Properties of the C toolchain found by compile probes, and what each adds
//! to a `cc::Build`.
use vstd::prelude::*;
use crate::build::cbuild::{build_define, build_definitions, build_flag, build_flag_if_supported, build_flags, build_set_std, build_std};
use crate::build::target::Profile;

verus! {

pub type Defines = Seq<(Seq<char>, Option<Seq<char>>)>;

pub type Flags = Seq<(Seq<char>, bool)>;

proof fn lemma_add_assoc<A>(d: Seq<A>, a: Seq<A>, x: Seq<A>)
    ensures
        (d + a) + x == d + (a + x),
{
    assert((d + a) + x =~= d + (a + x));
}

proof fn lemma_add_empty<A>(d: Seq<A>)
    ensures
        d + Seq::<A>::empty() == d,
{
    assert(d + Seq::<A>::empty() =~= d);
}

pub open spec fn define(name: Seq<char>) -> Defines {
    seq![(name, None::<Seq<char>>)]
}

pub open spec fn define_if(c: bool, name: Seq<char>) -> Defines {
    if c {
        define(name)
    } else {
        Seq::empty()
    }
}

pub open spec fn flag(f: Seq<char>) -> Flags {
    seq![(f, false)]
}

/// Large file support of a POSIX toolchain.
#[derive(Clone, Copy, Debug, PartialEq, Eq, Structural)]
pub struct PosixLfs {
    pub supported: bool,
    pub via_define: bool,
}

impl PosixLfs {
    /// Large file support from the probes: `off_t` is 64 bits as is
    /// (`plain`), or with `_FILE_OFFSET_BITS=64` (`with_define`, only asked
    /// when the first fails), and then `fseeko` must exist too (`fseeko`,
    /// only asked when one of the first two passed).
    pub fn from_probes(plain: bool, with_define: bool, fseeko: bool) -> (r: PosixLfs)
        ensures
            r.supported == ((plain || with_define) && fseeko),
            r.via_define == (!plain && with_define),
    {
        let mut supported;
        let mut via_define = false;
        if plain {
            supported = true;
        } else if with_define {
            supported = true;
            via_define = true;
        } else {
            supported = false;
        }
        if supported {
            supported = fseeko;
        }
        PosixLfs { supported, via_define }
    }

    /// Adds `_FILE_OFFSET_BITS=64` when large files are supported only
    /// through it.
    pub fn apply(&self, build: &mut cc::Build)
        ensures
            build_definitions(*final(build)) == build_definitions(*old(build)) + posix_lfs_defines(*self),
            build_flags(*final(build)) == build_flags(*old(build)),
            build_std(*final(build)) == build_std(*old(build)),
    {
        if self.supported && self.via_define {
            build_define(build, "_FILE_OFFSET_BITS", Some("64"));
        } else {
            assert(build_definitions(*build) + posix_lfs_defines(*self) =~= build_definitions(*build));
        }
    }
}

pub open spec fn posix_lfs_defines(p: PosixLfs) -> Defines {
    if p.supported && p.via_define {
        seq![("_FILE_OFFSET_BITS"@, Some("64"@))]
    } else {
        Seq::empty()
    }
}

/// Compiler specific settings.
#[derive(Clone, Copy, Debug, PartialEq, Eq, Structural)]
pub enum CompilerSpecific {
    Msvc,
    Gnu { outline_atomics: bool, posix_lfs: PosixLfs },
}

pub open spec fn compiler_defines(c: CompilerSpecific) -> Defines {
    match c {
        CompilerSpecific::Msvc => Seq::empty(),
        CompilerSpecific::Gnu { posix_lfs, .. } => posix_lfs_defines(posix_lfs),
    }
}

pub open spec fn compiler_flags(c: CompilerSpecific) -> Flags {
    match c {
        CompilerSpecific::Msvc => seq![("/volatile:iso"@, false), ("/wd4204"@, false), ("/wd4221"@, false)],
        CompilerSpecific::Gnu { outline_atomics, .. } => seq![
            ("-Wstrict-prototypes"@, false),
            ("-fPIC"@, true),
        ] + if outline_atomics {
            flag("-moutline-atomics"@)
        } else {
            Seq::empty()
        },
    }
}

impl CompilerSpecific {
    /// MSVC, or a GNU-like compiler with the probed outline atomics and
    /// large file support.
    pub fn from_probes(is_msvc: bool, outline_atomics: bool, posix_lfs: PosixLfs) -> (r: CompilerSpecific)
        ensures
            is_msvc ==> r == CompilerSpecific::Msvc,
            !is_msvc ==> r == (CompilerSpecific::Gnu { outline_atomics, posix_lfs }),
    {
        if is_msvc {
            CompilerSpecific::Msvc
        } else {
            CompilerSpecific::Gnu { outline_atomics, posix_lfs }
        }
    }

    /// Adds the compiler's warning and code generation flags, and its large
    /// file define.
    pub fn apply(&self, build: &mut cc::Build)
        ensures
            build_definitions(*final(build)) == build_definitions(*old(build)) + compiler_defines(*self),
            build_flags(*final(build)) == build_flags(*old(build)) + compiler_flags(*self),
            build_std(*final(build)) == build_std(*old(build)),
    {
        match self {
            CompilerSpecific::Msvc => {
                build_flag(build, "/volatile:iso");
                build_flag(build, "/wd4204");
                build_flag(build, "/wd4221");
                assert(build_definitions(*build) =~= build_definitions(*old(build)) + compiler_defines(*self));
                assert(build_flags(*build) =~= build_flags(*old(build)) + compiler_flags(*self));
            },
            CompilerSpecific::Gnu { outline_atomics, posix_lfs } => {
                build_flag(build, "-Wstrict-prototypes");
                build_flag_if_supported(build, "-fPIC");
                if *outline_atomics {
                    build_flag(build, "-moutline-atomics");
                }
                assert(build_flags(*build) =~= build_flags(*old(build)) + compiler_flags(*self));
                posix_lfs.apply(build);
            },
        }
    }
}

/// Implementation of the `aws_set_common_properties` CMake function.
#[derive(Clone, Copy, Debug, PartialEq, Eq, Structural)]
pub struct CommonProperties {
    pub has_stdint: bool,
    pub has_stdbool: bool,
    pub have_sysconf: bool,
    pub compiler_specific: CompilerSpecific,
}

pub open spec fn common_defines(p: CommonProperties, profile: Profile, enable_tracing: bool) -> Defines {
    define_if(!p.has_stdint, "NO_STDINT"@) + define_if(!p.has_stdbool, "NO_STDBOOL"@) + define_if(
        p.have_sysconf,
        "HAVE_SYSCONF"@,
    ) + compiler_defines(p.compiler_specific) + define_if(profile == Profile::Debug, "DEBUG_BUILD"@)
        + define_if(!enable_tracing, "INTEL_NO_ITTNOTIFY_API"@)
}

proof fn lemma_contains_add<A>(a: Seq<A>, b: Seq<A>, x: A)
    ensures
        (a + b).contains(x) <==> a.contains(x) || b.contains(x),
{
    if a.contains(x) {
        let i = choose|i: int| 0 <= i < a.len() && a[i] == x;
        assert((a + b)[i] == x);
    }
    if b.contains(x) {
        let i = choose|i: int| 0 <= i < b.len() && b[i] == x;
        assert((a + b)[a.len() + i] == x);
    }
    if (a + b).contains(x) {
        let i = choose|i: int| 0 <= i < (a + b).len() && (a + b)[i] == x;
        if i < a.len() {
            assert(a[i] == x);
        } else {
            assert(b[i - a.len()] == x);
        }
    }
}

proof fn lemma_define_if_contains(c: bool, n: Seq<char>, x: (Seq<char>, Option<Seq<char>>))
    ensures
        define_if(c, n).contains(x) <==> (c && x == (n, None::<Seq<char>>)),
{
    if c {
        assert(define_if(c, n)[0] == (n, None::<Seq<char>>));
    }
}

proof fn lemma_compiler_defines_have_values(c: CompilerSpecific, x: (Seq<char>, Option<Seq<char>>))
    requires
        x.1 is None,
    ensures
        !compiler_defines(c).contains(x),
{
    if compiler_defines(c).contains(x) {
        let i = choose|i: int| 0 <= i < compiler_defines(c).len() && compiler_defines(c)[i] == x;
    }
}

proof fn lemma_common_defines_contain(
    p: CommonProperties,
    profile: Profile,
    enable_tracing: bool,
    x: (Seq<char>, Option<Seq<char>>),
)
    requires
        x.1 is None,
    ensures
        common_defines(p, profile, enable_tracing).contains(x) <==> {
            ||| (!p.has_stdint && x == ("NO_STDINT"@, None::<Seq<char>>))
            ||| (!p.has_stdbool && x == ("NO_STDBOOL"@, None::<Seq<char>>))
            ||| (p.have_sysconf && x == ("HAVE_SYSCONF"@, None::<Seq<char>>))
            ||| (profile == Profile::Debug && x == ("DEBUG_BUILD"@, None::<Seq<char>>))
            ||| (!enable_tracing && x == ("INTEL_NO_ITTNOTIFY_API"@, None::<Seq<char>>))
        },
{
    let d1 = define_if(!p.has_stdint, "NO_STDINT"@);
    let d2 = define_if(!p.has_stdbool, "NO_STDBOOL"@);
    let d3 = define_if(p.have_sysconf, "HAVE_SYSCONF"@);
    let d4 = compiler_defines(p.compiler_specific);
    let d5 = define_if(profile == Profile::Debug, "DEBUG_BUILD"@);
    let d6 = define_if(!enable_tracing, "INTEL_NO_ITTNOTIFY_API"@);
    assert(common_defines(p, profile, enable_tracing) == d1 + d2 + d3 + d4 + d5 + d6);
    lemma_contains_add(d1, d2, x);
    lemma_contains_add(d1 + d2, d3, x);
    lemma_contains_add(d1 + d2 + d3, d4, x);
    lemma_contains_add(d1 + d2 + d3 + d4, d5, x);
    lemma_contains_add(d1 + d2 + d3 + d4 + d5, d6, x);
    lemma_define_if_contains(!p.has_stdint, "NO_STDINT"@, x);
    lemma_define_if_contains(!p.has_stdbool, "NO_STDBOOL"@, x);
    lemma_define_if_contains(p.have_sysconf, "HAVE_SYSCONF"@, x);
    lemma_compiler_defines_have_values(p.compiler_specific, x);
    lemma_define_if_contains(profile == Profile::Debug, "DEBUG_BUILD"@, x);
    lemma_define_if_contains(!enable_tracing, "INTEL_NO_ITTNOTIFY_API"@, x);
}

/// The common properties define each of their flags exactly when its
/// condition holds: `NO_STDINT` without `stdint.h`, `NO_STDBOOL` without
/// `stdbool.h`, `HAVE_SYSCONF` with `sysconf`, `DEBUG_BUILD` for a debug
/// build and `INTEL_NO_ITTNOTIFY_API` without tracing.
pub proof fn lemma_common_defines_conditions(p: CommonProperties, profile: Profile, enable_tracing: bool)
    ensures
        ({
            let d = common_defines(p, profile, enable_tracing);
            &&& d.contains(("NO_STDINT"@, None::<Seq<char>>)) <==> !p.has_stdint
            &&& d.contains(("NO_STDBOOL"@, None::<Seq<char>>)) <==> !p.has_stdbool
            &&& d.contains(("HAVE_SYSCONF"@, None::<Seq<char>>)) <==> p.have_sysconf
            &&& d.contains(("DEBUG_BUILD"@, None::<Seq<char>>)) <==> profile == Profile::Debug
            &&& d.contains(("INTEL_NO_ITTNOTIFY_API"@, None::<Seq<char>>)) <==> !enable_tracing
        }),
{
    reveal_strlit("DEBUG_BUILD");
    reveal_strlit("NO_STDINT");
    reveal_strlit("NO_STDBOOL");
    reveal_strlit("HAVE_SYSCONF");
    reveal_strlit("INTEL_NO_ITTNOTIFY_API");
    assert("NO_STDINT"@.len() == 9);
    assert("NO_STDBOOL"@.len() == 10);
    assert("DEBUG_BUILD"@.len() == 11);
    assert("HAVE_SYSCONF"@.len() == 12);
    assert("INTEL_NO_ITTNOTIFY_API"@.len() == 22);
    lemma_common_defines_contain(p, profile, enable_tracing, ("NO_STDINT"@, None::<Seq<char>>));
    lemma_common_defines_contain(p, profile, enable_tracing, ("NO_STDBOOL"@, None::<Seq<char>>));
    lemma_common_defines_contain(p, profile, enable_tracing, ("HAVE_SYSCONF"@, None::<Seq<char>>));
    lemma_common_defines_contain(p, profile, enable_tracing, ("DEBUG_BUILD"@, None::<Seq<char>>));
    lemma_common_defines_contain(p, profile, enable_tracing, ("INTEL_NO_ITTNOTIFY_API"@, None::<Seq<char>>));
}

impl CommonProperties {
    /// The properties from the probes for `stdint.h`, `stdbool.h` and
    /// `sysconf`, and the compiler specific settings.
    pub fn from_probes(
        has_stdint: bool,
        has_stdbool: bool,
        have_sysconf: bool,
        compiler_specific: CompilerSpecific,
    ) -> (r: CommonProperties)
        ensures
            r == (CommonProperties { has_stdint, has_stdbool, have_sysconf, compiler_specific }),
    {
        CommonProperties { has_stdint, has_stdbool, have_sysconf, compiler_specific }
    }

    /// Adds the common defines and flags, and asks for C99.
    pub fn apply(&self, build: &mut cc::Build, profile: Profile, enable_tracing: bool)
        ensures
            build_definitions(*final(build)) == build_definitions(*old(build)) + common_defines(
                *self,
                profile,
                enable_tracing,
            ),
            build_flags(*final(build)) == build_flags(*old(build)) + compiler_flags(self.compiler_specific),
            build_std(*final(build)) == Some("c99"@),
    {
        let ghost d0 = build_definitions(*build);
        let ghost a1 = define_if(!self.has_stdint, "NO_STDINT"@);
        let ghost a2 = a1 + define_if(!self.has_stdbool, "NO_STDBOOL"@);
        let ghost a3 = a2 + define_if(self.have_sysconf, "HAVE_SYSCONF"@);
        let ghost a4 = a3 + compiler_defines(self.compiler_specific);
        let ghost a5 = a4 + define_if(profile == Profile::Debug, "DEBUG_BUILD"@);
        let ghost a6 = a5 + define_if(!enable_tracing, "INTEL_NO_ITTNOTIFY_API"@);
        if !self.has_stdint {
            build_define(build, "NO_STDINT", None);
        }
        proof {
            lemma_add_empty(d0);
        }
        assert(build_definitions(*build) == d0 + a1);
        if !self.has_stdbool {
            build_define(build, "NO_STDBOOL", None);
        }
        proof {
            lemma_add_assoc(d0, a1, define_if(!self.has_stdbool, "NO_STDBOOL"@));
            lemma_add_empty(d0 + a1);
            lemma_add_empty(a1);
        }
        assert(build_definitions(*build) == d0 + a2);
        if self.have_sysconf {
            build_define(build, "HAVE_SYSCONF", None);
        }
        proof {
            lemma_add_assoc(d0, a2, define_if(self.have_sysconf, "HAVE_SYSCONF"@));
            lemma_add_empty(d0 + a2);
            lemma_add_empty(a2);
        }
        assert(build_definitions(*build) == d0 + a3);
        self.compiler_specific.apply(build);
        proof {
            lemma_add_assoc(d0, a3, compiler_defines(self.compiler_specific));
        }
        assert(build_definitions(*build) == d0 + a4);
        let is_debug = match profile {
            Profile::Debug => true,
            Profile::Release => false,
        };
        if is_debug {
            build_define(build, "DEBUG_BUILD", None);
        }
        proof {
            lemma_add_assoc(d0, a4, define_if(profile == Profile::Debug, "DEBUG_BUILD"@));
            lemma_add_empty(d0 + a4);
            lemma_add_empty(a4);
        }
        assert(build_definitions(*build) == d0 + a5);
        if !enable_tracing {
            build_define(build, "INTEL_NO_ITTNOTIFY_API", None);
        }
        proof {
            lemma_add_assoc(d0, a5, define_if(!enable_tracing, "INTEL_NO_ITTNOTIFY_API"@));
            lemma_add_empty(d0 + a5);
            lemma_add_empty(a5);
        }
        assert(build_definitions(*build) == d0 + a6);
        build_set_std(build, "c99");
    }

    /// Whether the toolchain supports large files (only a GNU-like one can).
    pub fn have_posix_large_file_support(&self) -> (r: bool)
        ensures
            r == (match self.compiler_specific {
                CompilerSpecific::Gnu { posix_lfs, .. } => posix_lfs.supported,
                CompilerSpecific::Msvc => false,
            }),
    {
        match &self.compiler_specific {
            CompilerSpecific::Gnu { posix_lfs, .. } => posix_lfs.supported,
            _ => false,
        }
    }
}

} // verus!

verus! {

/// The results of the feature tests of `AwsFeatureTests.cmake`.
#[derive(Clone, Copy, Debug, PartialEq, Eq, Structural)]
pub struct FeatureTests {
    pub have_winapi_desktop: bool,
    pub have_gcc_inline_asm: bool,
    pub have_auxv: bool,
    pub have_execinfo: bool,
    pub have_linux_if_link_h: bool,
    pub have_msvc_intrinsics_x64: bool,
}

/// The compiler flags that enable AVX2.
#[derive(Clone, Copy, Debug, PartialEq, Eq, Structural)]
pub enum Avx2Flags {
    Unavailable,
    Msvc,
    Gnu,
}

pub open spec fn avx2_flags(f: Avx2Flags) -> Flags {
    match f {
        Avx2Flags::Unavailable => Seq::empty(),
        Avx2Flags::Msvc => flag("/arch:AVX2"@),
        Avx2Flags::Gnu => seq![("-mavx"@, false), ("-mavx2"@, false)],
    }
}

impl Avx2Flags {
    /// The AVX2 flags of the compiler: `/arch:AVX2` for MSVC and `-mavx2`
    /// for the others, when the compiler supports that flag
    /// (`flag_supported`).
    pub fn from_probe(is_msvc: bool, flag_supported: bool) -> (r: Avx2Flags)
        ensures
            !flag_supported ==> r == Avx2Flags::Unavailable,
            flag_supported && is_msvc ==> r == Avx2Flags::Msvc,
            flag_supported && !is_msvc ==> r == Avx2Flags::Gnu,
    {
        if is_msvc {
            if flag_supported {
                return Avx2Flags::Msvc;
            }
        } else if flag_supported {
            return Avx2Flags::Gnu;
        }
        Avx2Flags::Unavailable
    }

    /// Adds the AVX2 flags.
    pub fn apply(self, build: &mut cc::Build)
        ensures
            build_flags(*final(build)) == build_flags(*old(build)) + avx2_flags(self),
            build_definitions(*final(build)) == build_definitions(*old(build)),
            build_std(*final(build)) == build_std(*old(build)),
    {
        match self {
            Avx2Flags::Unavailable => {},
            Avx2Flags::Msvc => {
                build_flag(build, "/arch:AVX2");
            },
            Avx2Flags::Gnu => {
                build_flag(build, "-mavx");
                build_flag(build, "-mavx2");
            },
        }
        assert(build_flags(*build) =~= build_flags(*old(build)) + avx2_flags(self));
    }
}

/// SIMD support of the toolchain.
#[derive(Clone, Copy, Debug, PartialEq, Eq, Structural)]
pub struct Simd {
    pub flags: Avx2Flags,
    pub have_avx2_intrinsics: bool,
    pub have_mm256_extract_epi64: bool,
}

pub open spec fn simd_defines(s: Simd) -> Defines {
    define_if(s.have_avx2_intrinsics, "HAVE_AVX2_INTRINSICS"@) + define_if(
        s.have_mm256_extract_epi64,
        "HAVE_MM256_EXTRACT_EPI64"@,
    )
}

impl Simd {
    /// Adds the defines for the SIMD intrinsics found.
    pub fn apply_defines(&self, build: &mut cc::Build)
        ensures
            build_definitions(*final(build)) == build_definitions(*old(build)) + simd_defines(*self),
            build_flags(*final(build)) == build_flags(*old(build)),
            build_std(*final(build)) == build_std(*old(build)),
    {
        if self.have_avx2_intrinsics {
            build_define(build, "HAVE_AVX2_INTRINSICS", None);
        }
        if self.have_mm256_extract_epi64 {
            build_define(build, "HAVE_MM256_EXTRACT_EPI64", None);
        }
        assert(build_definitions(*build) =~= build_definitions(*old(build)) + simd_defines(*self));
    }

    /// Adds the AVX2 flags (`simd_add_source_avx2`).
    pub fn apply_flags(&self, build: &mut cc::Build)
        ensures
            build_flags(*final(build)) == build_flags(*old(build)) + avx2_flags(self.flags),
            build_definitions(*final(build)) == build_definitions(*old(build)),
            build_std(*final(build)) == build_std(*old(build)),
    {
        self.flags.apply(build);
    }
}

/// How the C library pins a thread to processors
/// (`aws_set_thread_affinity_method`).
#[derive(Clone, Copy, Debug, PartialEq, Eq, Structural)]
pub enum ThreadAffinityMethod {
    /// No affinity method is known to work.
    Unavailable,
    /// `pthread_attr_setaffinity_np`, on the thread's attributes.
    PthreadAttr,
    /// `pthread_setaffinity_np`, on the running thread.
    Pthread,
}

pub open spec fn affinity_method_name(m: ThreadAffinityMethod) -> Seq<char> {
    match m {
        ThreadAffinityMethod::Unavailable => "AWS_AFFINITY_METHOD_NONE"@,
        ThreadAffinityMethod::PthreadAttr => "AWS_AFFINITY_METHOD_PTHREAD_ATTR"@,
        ThreadAffinityMethod::Pthread => "AWS_AFFINITY_METHOD_PTHREAD"@,
    }
}

/// The define that tells the C library which affinity method to use.
pub open spec fn thread_affinity_defines(m: ThreadAffinityMethod) -> Defines {
    seq![("AWS_AFFINITY_METHOD"@, Some(affinity_method_name(m)))]
}

impl ThreadAffinityMethod {
    /// The method from the probes: none off POSIX systems and on Android and
    /// Apple platforms (`supported_platform` false); otherwise
    /// `pthread_attr_setaffinity_np` when it is declared, else
    /// `pthread_setaffinity_np` when it is, else none.
    pub fn from_probes(supported_platform: bool, attr_setaffinity: bool, setaffinity: bool) -> (r:
        ThreadAffinityMethod)
        ensures
            r == (if !supported_platform {
                ThreadAffinityMethod::Unavailable
            } else if attr_setaffinity {
                ThreadAffinityMethod::PthreadAttr
            } else if setaffinity {
                ThreadAffinityMethod::Pthread
            } else {
                ThreadAffinityMethod::Unavailable
            }),
    {
        if !supported_platform {
            ThreadAffinityMethod::Unavailable
        } else if attr_setaffinity {
            ThreadAffinityMethod::PthreadAttr
        } else if setaffinity {
            ThreadAffinityMethod::Pthread
        } else {
            ThreadAffinityMethod::Unavailable
        }
    }

    /// The name of the method, as the C library spells it.
    pub fn method_name(self) -> (r: &'static str)
        ensures
            r@ == affinity_method_name(self),
    {
        match self {
            ThreadAffinityMethod::Unavailable => "AWS_AFFINITY_METHOD_NONE",
            ThreadAffinityMethod::PthreadAttr => "AWS_AFFINITY_METHOD_PTHREAD_ATTR",
            ThreadAffinityMethod::Pthread => "AWS_AFFINITY_METHOD_PTHREAD",
        }
    }

    /// Adds `AWS_AFFINITY_METHOD` with the name of the method.
    pub fn apply(self, build: &mut cc::Build)
        ensures
            build_definitions(*final(build)) == build_definitions(*old(build)) + thread_affinity_defines(self),
            build_flags(*final(build)) == build_flags(*old(build)),
            build_std(*final(build)) == build_std(*old(build)),
    {
        build_define(build, "AWS_AFFINITY_METHOD", Some(self.method_name()));
        assert(build_definitions(*build) =~= build_definitions(*old(build)) + thread_affinity_defines(self));
    }
}

/// How the C library sets a thread's name.
#[derive(Clone, Copy, Debug, PartialEq, Eq, Structural)]
pub enum NameSetter {
    Setname2,
    Setname3,
    SetName2,
}

/// How the C library gets a thread's name.
#[derive(Clone, Copy, Debug, PartialEq, Eq, Structural)]
pub enum NameGetter {
    Getname3,
    Getname2,
    GetName2,
}

pub open spec fn setter_define(s: NameSetter) -> Seq<char> {
    match s {
        NameSetter::Setname2 => "AWS_PTHREAD_SETNAME_TAKES_2ARGS"@,
        NameSetter::Setname3 => "AWS_PTHREAD_SETNAME_TAKES_3ARGS"@,
        NameSetter::SetName2 => "AWS_PTHREAD_SET_NAME_TAKES_2ARGS"@,
    }
}

pub open spec fn getter_define(g: NameGetter) -> Seq<char> {
    match g {
        NameGetter::Getname3 => "AWS_PTHREAD_GETNAME_TAKES_3ARGS"@,
        NameGetter::Getname2 => "AWS_PTHREAD_GETNAME_TAKES_2ARGS"@,
        NameGetter::GetName2 => "AWS_PTHREAD_GET_NAME_TAKES_2ARGS"@,
    }
}

/// The number of arguments the pthread call of a setter takes.
pub open spec fn setter_arity(s: NameSetter) -> char {
    match s {
        NameSetter::Setname3 => '3',
        _ => '2',
    }
}

/// The number of arguments the pthread call of a getter takes.
pub open spec fn getter_arity(g: NameGetter) -> char {
    match g {
        NameGetter::Getname3 => '3',
        _ => '2',
    }
}

/// Each thread-name method has a define of its own, which tells the C
/// library how many arguments its call takes: the define ends in `3ARGS`
/// for the three-argument forms and in `2ARGS` for the others, and no two
/// setters (or getters) share a define.
pub proof fn lemma_thread_name_defines(s1: NameSetter, s2: NameSetter, g1: NameGetter, g2: NameGetter)
    ensures
        s1 != s2 ==> setter_define(s1) != setter_define(s2),
        g1 != g2 ==> getter_define(g1) != getter_define(g2),
        setter_define(s1).len() >= 5 && setter_define(s1).subrange(
            setter_define(s1).len() - 5,
            setter_define(s1).len() as int,
        ) == seq![setter_arity(s1), 'A', 'R', 'G', 'S'],
        getter_define(g1).len() >= 5 && getter_define(g1).subrange(
            getter_define(g1).len() - 5,
            getter_define(g1).len() as int,
        ) == seq![getter_arity(g1), 'A', 'R', 'G', 'S'],
        getter_define(NameGetter::Getname3) == "AWS_PTHREAD_GETNAME_TAKES_3ARGS"@,
        setter_define(NameSetter::Setname3) == "AWS_PTHREAD_SETNAME_TAKES_3ARGS"@,
{
    reveal_strlit("AWS_PTHREAD_SETNAME_TAKES_2ARGS");
    reveal_strlit("AWS_PTHREAD_SETNAME_TAKES_3ARGS");
    reveal_strlit("AWS_PTHREAD_SET_NAME_TAKES_2ARGS");
    reveal_strlit("AWS_PTHREAD_GETNAME_TAKES_3ARGS");
    reveal_strlit("AWS_PTHREAD_GETNAME_TAKES_2ARGS");
    reveal_strlit("AWS_PTHREAD_GET_NAME_TAKES_2ARGS");
    assert(setter_define(s1).subrange(setter_define(s1).len() - 5, setter_define(s1).len() as int) =~= seq![
        setter_arity(s1),
        'A',
        'R',
        'G',
        'S',
    ]);
    assert(getter_define(g1).subrange(getter_define(g1).len() - 5, getter_define(g1).len() as int) =~= seq![
        getter_arity(g1),
        'A',
        'R',
        'G',
        'S',
    ]);
    if s1 != s2 && setter_define(s1).len() == setter_define(s2).len() {
        assert(setter_define(s1)[26] != setter_define(s2)[26]);
    }
    if g1 != g2 && getter_define(g1).len() == getter_define(g2).len() {
        assert(getter_define(g1)[26] != getter_define(g2)[26]);
    }
}

impl NameSetter {
    /// The setter from the probes, tried in this order: two-argument
    /// `pthread_setname_np`, two-argument `pthread_set_name_np`,
    /// three-argument `pthread_setname_np`. Apple platforms are not probed.
    pub fn from_probes(is_apple: bool, setname2: bool, set_name2: bool, setname3: bool) -> (r: Option<NameSetter>)
        ensures
            r == (if is_apple {
                None
            } else if setname2 {
                Some(NameSetter::Setname2)
            } else if set_name2 {
                Some(NameSetter::SetName2)
            } else if setname3 {
                Some(NameSetter::Setname3)
            } else {
                None
            }),
    {
        if is_apple {
            return None;
        }
        if setname2 {
            return Some(NameSetter::Setname2);
        }
        if set_name2 {
            return Some(NameSetter::SetName2);
        }
        if setname3 {
            return Some(NameSetter::Setname3);
        }
        None
    }

    /// The define that tells the C library which setter to use.
    pub fn define_name(self) -> (r: &'static str)
        ensures
            r@ == setter_define(self),
    {
        match self {
            NameSetter::Setname2 => "AWS_PTHREAD_SETNAME_TAKES_2ARGS",
            NameSetter::Setname3 => "AWS_PTHREAD_SETNAME_TAKES_3ARGS",
            NameSetter::SetName2 => "AWS_PTHREAD_SET_NAME_TAKES_2ARGS",
        }
    }
}

impl NameGetter {
    /// The getter from the probes, tried in this order: two-argument
    /// `pthread_getname_np`, two-argument `pthread_get_name_np`,
    /// three-argument `pthread_getname_np`. Apple platforms always have the
    /// three-argument one.
    pub fn from_probes(is_apple: bool, getname2: bool, get_name2: bool, getname3: bool) -> (r: Option<NameGetter>)
        ensures
            r == (if is_apple {
                Some(NameGetter::Getname3)
            } else if getname2 {
                Some(NameGetter::Getname2)
            } else if get_name2 {
                Some(NameGetter::GetName2)
            } else if getname3 {
                Some(NameGetter::Getname3)
            } else {
                None
            }),
    {
        if is_apple {
            return Some(NameGetter::Getname3);
        }
        if getname2 {
            return Some(NameGetter::Getname2);
        }
        if get_name2 {
            return Some(NameGetter::GetName2);
        }
        if getname3 {
            return Some(NameGetter::Getname3);
        }
        None
    }

    /// The define that tells the C library which getter to use.
    pub fn define_name(self) -> (r: &'static str)
        ensures
            r@ == getter_define(self),
    {
        match self {
            NameGetter::Getname3 => "AWS_PTHREAD_GETNAME_TAKES_3ARGS",
            NameGetter::Getname2 => "AWS_PTHREAD_GETNAME_TAKES_2ARGS",
            NameGetter::GetName2 => "AWS_PTHREAD_GET_NAME_TAKES_2ARGS",
        }
    }
}

/// How the C library names threads.
#[derive(Clone, Copy, Debug, PartialEq, Eq, Structural)]
pub struct ThreadNameMethod {
    pub setter: Option<NameSetter>,
    pub getter: Option<NameGetter>,
}

pub open spec fn thread_name_defines(m: ThreadNameMethod) -> Defines {
    (match m.setter {
        Some(s) => define(setter_define(s)),
        None => Seq::empty(),
    }) + (match m.getter {
        Some(g) => define(getter_define(g)),
        None => Seq::empty(),
    })
}

impl ThreadNameMethod {
    /// The method from the detected setter and getter; on Windows the C
    /// library decides at run time, so neither is set.
    pub fn from_probes(is_windows: bool, setter: Option<NameSetter>, getter: Option<NameGetter>) -> (r:
        ThreadNameMethod)
        ensures
            is_windows ==> r.setter is None && r.getter is None,
            !is_windows ==> r.setter == setter && r.getter == getter,
    {
        if is_windows {
            ThreadNameMethod { setter: None, getter: None }
        } else {
            ThreadNameMethod { setter, getter }
        }
    }

    /// Adds the defines of the setter and the getter found.
    pub fn apply(&self, build: &mut cc::Build)
        ensures
            build_definitions(*final(build)) == build_definitions(*old(build)) + thread_name_defines(*self),
            build_flags(*final(build)) == build_flags(*old(build)),
            build_std(*final(build)) == build_std(*old(build)),
    {
        if let Some(setter) = self.setter {
            build_define(build, setter.define_name(), None);
        }
        if let Some(getter) = self.getter {
            build_define(build, getter.define_name(), None);
        }
        assert(build_definitions(*build) =~= build_definitions(*old(build)) + thread_name_defines(*self));
    }
}

} // verus!
