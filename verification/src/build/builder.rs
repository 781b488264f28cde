//! The build description of one AWS C library: its sources, dependencies
//! and the CMake-style settings it asks for.
use vstd::prelude::*;
use crate::build::cbuild::{
    build_clone, build_define, build_definitions, build_flag, build_flags, build_std, opt_str_view, same_config,
};
use crate::build::properties::{
    avx2_flags, common_defines, compiler_flags, simd_defines, thread_affinity_defines, thread_name_defines,
    CommonProperties, Defines, Flags, Simd, ThreadAffinityMethod, ThreadNameMethod,
};
use crate::build::target::TargetInfo;

verus! {

/// The cargo feature that keeps the ITT tracing API in the build.
pub const ENABLE_TRACING_FEATURE: &'static str = "enable-tracing";

/// What a build script knows before it configures a library: where outputs
/// go, the base compiler configuration and the target.
pub struct Context {
    pub out_dir: String,
    pub cc_build: cc::Build,
    pub target: TargetInfo,
}

impl Context {
    /// The directory of the build outputs.
    pub fn out_dir(&self) -> (r: &str)
        ensures
            r@ == self.out_dir@,
    {
        self.out_dir.as_str()
    }

    /// A copy of the base compiler configuration.
    pub fn get_cc_build(&self) -> (r: cc::Build)
        ensures
            same_config(r, self.cc_build),
    {
        build_clone(&self.cc_build)
    }

    /// A build of the library in `lib_dir`.
    pub fn builder(&self, lib_dir: String) -> (r: LibraryBuilder)
        ensures
            r.lib_dir == lib_dir,
            same_config(r.cc_build, self.cc_build),
            r.is_new(),
    {
        LibraryBuilder::new(self, lib_dir)
    }
}

/// Sources of a library compiled with their own flags.
#[derive(Debug)]
pub struct SourceWithProperties {
    pub source_paths: Vec<String>,
    pub compile_flags: Vec<String>,
    pub simd_avx2: bool,
}

impl SourceWithProperties {
    /// No sources, no flags, no AVX2.
    pub fn new() -> (r: Self)
        ensures
            r.source_paths@.len() == 0,
            r.compile_flags@.len() == 0,
            !r.simd_avx2,
    {
        SourceWithProperties { source_paths: Vec::new(), compile_flags: Vec::new(), simd_avx2: false }
    }

    /// Adds a source file or directory.
    pub fn source_path(&mut self, path: String) -> (r: &mut Self)
        ensures
            r.source_paths@ == old(self).source_paths@.push(path),
            r.compile_flags@ == old(self).compile_flags@,
            r.simd_avx2 == old(self).simd_avx2,
            *final(self) == *final(r),
    {
        self.source_paths.push(path);
        self
    }

    /// Adds a compiler flag for these sources.
    pub fn compile_flag(&mut self, flag: String) -> (r: &mut Self)
        ensures
            r.compile_flags@ == old(self).compile_flags@.push(flag),
            r.source_paths@ == old(self).source_paths@,
            r.simd_avx2 == old(self).simd_avx2,
            *final(self) == *final(r),
    {
        self.compile_flags.push(flag);
        self
    }

    /// Compiles these sources with the AVX2 flags (`simd_add_source_avx2`).
    pub fn simd_avx2(&mut self) -> (r: &mut Self)
        ensures
            r.simd_avx2,
            r.source_paths@ == old(self).source_paths@,
            r.compile_flags@ == old(self).compile_flags@,
            *final(self) == *final(r),
    {
        self.simd_avx2 = true;
        self
    }
}

/// Compiler flags given by name, in order.
pub open spec fn plain_flags(fs: Seq<String>) -> Flags {
    fs.map_values(|f: String| (f@, false))
}

impl SourceWithProperties {
    /// The flags this group of sources is compiled with, beyond those of the
    /// library: its own flags, in order, then the detected AVX2 flags when
    /// it asks for AVX2.
    pub open spec fn group_flags(&self, simd: Option<Simd>) -> Flags {
        plain_flags(self.compile_flags@) + if self.simd_avx2 {
            avx2_flags(simd.unwrap().flags)
        } else {
            Seq::empty()
        }
    }

    /// Adds to `build` the flags of this group of sources; a group marked
    /// for AVX2 gets the detected AVX2 flags (`simd`) after its own.
    pub fn apply_flags(&self, build: &mut cc::Build, simd: Option<Simd>)
        requires
            self.simd_avx2 ==> simd is Some,
        ensures
            build_flags(*final(build)) == build_flags(*old(build)) + self.group_flags(simd),
            build_definitions(*final(build)) == build_definitions(*old(build)),
            build_std(*final(build)) == build_std(*old(build)),
    {
        let ghost f0 = build_flags(*build);
        for i in 0..self.compile_flags.len()
            invariant
                build_flags(*build) == f0 + plain_flags(self.compile_flags@.take(i as int)),
                build_definitions(*build) == build_definitions(*old(build)),
                build_std(*build) == build_std(*old(build)),
        {
            build_flag(build, self.compile_flags[i].as_str());
            assert(plain_flags(self.compile_flags@.take(i + 1)) =~= plain_flags(
                self.compile_flags@.take(i as int),
            ).push((self.compile_flags@[i as int]@, false)));
            assert(f0 + plain_flags(self.compile_flags@.take(i + 1)) =~= (f0 + plain_flags(
                self.compile_flags@.take(i as int),
            )).push((self.compile_flags@[i as int]@, false)));
        }
        assert(self.compile_flags@.take(self.compile_flags.len() as int) =~= self.compile_flags@);
        let ghost f1 = build_flags(*build);
        if self.simd_avx2 {
            let s = simd.unwrap();
            s.apply_flags(build);
            assert(f1 + avx2_flags(s.flags) =~= f0 + self.group_flags(simd));
        } else {
            assert(f1 + Seq::<(Seq<char>, bool)>::empty() =~= f1);
            assert(f0 + self.group_flags(simd) =~= f1);
        }
    }
}

/// The build description of one library.
pub struct LibraryBuilder {
    pub lib_dir: String,
    pub cc_build: cc::Build,
    pub dependencies: Vec<String>,
    pub include_dir: Option<String>,
    pub bindings_suffix: Option<String>,
    pub source_paths: Vec<String>,
    pub sources_with_properties: Vec<SourceWithProperties>,
    pub aws_set_common_properties: bool,
    pub aws_set_thread_affinity_method: bool,
    pub aws_set_thread_name_method: bool,
    pub simd_add_definitions: bool,
}

impl LibraryBuilder {
    /// Nothing added yet.
    pub open spec fn is_new(&self) -> bool {
        &&& self.dependencies@.len() == 0
        &&& self.include_dir is None
        &&& self.bindings_suffix is None
        &&& self.source_paths@.len() == 0
        &&& self.sources_with_properties@.len() == 0
        &&& !self.aws_set_common_properties
        &&& !self.aws_set_thread_affinity_method
        &&& !self.aws_set_thread_name_method
        &&& !self.simd_add_definitions
    }

    fn new(ctx: &Context, lib_dir: String) -> (r: Self)
        ensures
            r.lib_dir == lib_dir,
            same_config(r.cc_build, ctx.cc_build),
            r.is_new(),
    {
        LibraryBuilder {
            lib_dir,
            cc_build: build_clone(&ctx.cc_build),
            dependencies: Vec::new(),
            include_dir: None,
            bindings_suffix: None,
            source_paths: Vec::new(),
            sources_with_properties: Vec::new(),
            aws_set_common_properties: false,
            aws_set_thread_affinity_method: false,
            aws_set_thread_name_method: false,
            simd_add_definitions: false,
        }
    }

    /// Takes the headers from `path` (instead of `<lib_dir>/include`).
    pub fn set_include_dir(&mut self, path: String)
        ensures
            final(self).include_dir == Some(path),
            final(self).lib_dir == old(self).lib_dir,
            final(self).bindings_suffix == old(self).bindings_suffix,
            final(self).dependencies == old(self).dependencies,
            final(self).source_paths == old(self).source_paths,
    {
        self.include_dir = Some(path);
    }

    /// The suffix of the bindings file name.
    pub fn bindings_suffix(&mut self, suffix: String)
        ensures
            final(self).bindings_suffix == Some(suffix),
            final(self).include_dir == old(self).include_dir,
            final(self).dependencies == old(self).dependencies,
            final(self).source_paths == old(self).source_paths,
    {
        self.bindings_suffix = Some(suffix);
    }

    /// Adds libraries whose headers this one includes.
    pub fn dependencies(&mut self, deps: Vec<String>)
        ensures
            final(self).dependencies@ == old(self).dependencies@ + deps@,
            final(self).include_dir == old(self).include_dir,
            final(self).source_paths == old(self).source_paths,
    {
        let mut deps = deps;
        self.dependencies.append(&mut deps);
    }

    /// Adds a source file or directory, relative to `<lib_dir>/source`.
    pub fn source_path(&mut self, path: String)
        ensures
            final(self).source_paths@ == old(self).source_paths@.push(path),
            final(self).dependencies == old(self).dependencies,
            final(self).include_dir == old(self).include_dir,
    {
        self.source_paths.push(path);
    }

    /// Adds a group of sources with their own properties, and returns it.
    pub fn source_with_properties(&mut self) -> (r: &mut SourceWithProperties)
        ensures
            r.source_paths@.len() == 0,
            r.compile_flags@.len() == 0,
            !r.simd_avx2,
            final(self).sources_with_properties@ == old(self).sources_with_properties@.push(*final(r)),
            final(self).source_paths == old(self).source_paths,
            final(self).dependencies == old(self).dependencies,
    {
        self.sources_with_properties.push(SourceWithProperties::new());
        let last = self.sources_with_properties.len() - 1;
        &mut self.sources_with_properties[last]
    }

    /// Defines a preprocessor variable for the whole library.
    pub fn define(&mut self, var: &str, val: Option<&str>)
        ensures
            build_definitions(final(self).cc_build) == build_definitions(old(self).cc_build).push(
                (var@, opt_str_view(val)),
            ),
            build_flags(final(self).cc_build) == build_flags(old(self).cc_build),
            build_std(final(self).cc_build) == build_std(old(self).cc_build),
    {
        build_define(&mut self.cc_build, var, val);
    }

    /// Adds the SIMD defines to the build (`simd_add_definitions`).
    pub fn simd_add_definitions(&mut self)
        ensures
            final(self).simd_add_definitions,
            final(self).aws_set_common_properties == old(self).aws_set_common_properties,
            final(self).aws_set_thread_name_method == old(self).aws_set_thread_name_method,
    {
        self.simd_add_definitions = true;
    }

    /// Adds the common properties to the build (`aws_set_common_properties`).
    pub fn aws_set_common_properties(&mut self)
        ensures
            final(self).aws_set_common_properties,
            final(self).simd_add_definitions == old(self).simd_add_definitions,
            final(self).aws_set_thread_name_method == old(self).aws_set_thread_name_method,
    {
        self.aws_set_common_properties = true;
    }

    /// Asks for the thread affinity settings (`aws_set_thread_affinity_method`).
    pub fn aws_set_thread_affinity_method(&mut self)
        ensures
            final(self).aws_set_thread_affinity_method,
            final(self).aws_set_common_properties == old(self).aws_set_common_properties,
    {
        self.aws_set_thread_affinity_method = true;
    }

    /// Adds the thread naming defines to the build (`aws_set_thread_name_method`).
    pub fn aws_set_thread_name_method(&mut self)
        ensures
            final(self).aws_set_thread_name_method,
            final(self).aws_set_common_properties == old(self).aws_set_common_properties,
            final(self).simd_add_definitions == old(self).simd_add_definitions,
    {
        self.aws_set_thread_name_method = true;
    }
}

/// The defines the settings of `b` add, given the detected properties.
pub open spec fn properties_defines(
    b: LibraryBuilder,
    target: TargetInfo,
    common: Option<CommonProperties>,
    thread_affinity: Option<ThreadAffinityMethod>,
    thread_name: Option<ThreadNameMethod>,
    simd: Option<Simd>,
    enable_tracing: bool,
) -> Defines {
    (if b.aws_set_common_properties {
        common_defines(common.unwrap(), target.profile, enable_tracing)
    } else {
        Seq::empty()
    }) + (if b.aws_set_thread_affinity_method {
        thread_affinity_defines(thread_affinity.unwrap())
    } else {
        Seq::empty()
    }) + (if b.aws_set_thread_name_method {
        thread_name_defines(thread_name.unwrap())
    } else {
        Seq::empty()
    }) + (if b.simd_add_definitions {
        simd_defines(simd.unwrap())
    } else {
        Seq::empty()
    })
}

proof fn lemma_add_assoc<A>(d: Seq<A>, a: Seq<A>, x: Seq<A>)
    ensures
        (d + a) + x == d + (a + x),
{
    assert((d + a) + x =~= d + (a + x));
}

proof fn lemma_add_empty<A>(d: Seq<A>)
    ensures
        d + Seq::<A>::empty() == d,
{
    assert(d + Seq::<A>::empty() =~= d);
}

/// Adds to `build` what the settings of `builder` ask for: the common
/// properties, the thread affinity define, the thread naming defines and
/// the SIMD defines, in that order, from the detected properties.
pub fn apply_properties(
    build: &mut cc::Build,
    builder: &LibraryBuilder,
    target: &TargetInfo,
    common: Option<CommonProperties>,
    thread_affinity: Option<ThreadAffinityMethod>,
    thread_name: Option<ThreadNameMethod>,
    simd: Option<Simd>,
    enable_tracing: bool,
)
    requires
        builder.aws_set_common_properties ==> common is Some,
        builder.aws_set_thread_affinity_method ==> thread_affinity is Some,
        builder.aws_set_thread_name_method ==> thread_name is Some,
        builder.simd_add_definitions ==> simd is Some,
    ensures
        build_definitions(*final(build)) == build_definitions(*old(build)) + properties_defines(
            *builder,
            *target,
            common,
            thread_affinity,
            thread_name,
            simd,
            enable_tracing,
        ),
        build_flags(*final(build)) == build_flags(*old(build)) + (if builder.aws_set_common_properties {
            compiler_flags(common.unwrap().compiler_specific)
        } else {
            Seq::empty()
        }),
        builder.aws_set_common_properties ==> build_std(*final(build)) == Some("c99"@),
        !builder.aws_set_common_properties ==> build_std(*final(build)) == build_std(*old(build)),
{
    let ghost d0 = build_definitions(*build);
    let ghost f0 = build_flags(*build);
    let ghost x1 = if builder.aws_set_common_properties {
        common_defines(common.unwrap(), target.profile, enable_tracing)
    } else {
        Seq::empty()
    };
    let ghost x2 = if builder.aws_set_thread_affinity_method {
        thread_affinity_defines(thread_affinity.unwrap())
    } else {
        Seq::empty()
    };
    let ghost x3 = if builder.aws_set_thread_name_method {
        thread_name_defines(thread_name.unwrap())
    } else {
        Seq::empty()
    };
    let ghost x4 = if builder.simd_add_definitions {
        simd_defines(simd.unwrap())
    } else {
        Seq::empty()
    };
    if builder.aws_set_common_properties {
        let c = common.unwrap();
        c.apply(build, target.profile, enable_tracing);
    } else {
        proof {
            lemma_add_empty(d0);
            lemma_add_empty(f0);
        }
    }
    assert(build_definitions(*build) == d0 + x1);
    let ghost d1 = build_definitions(*build);
    if builder.aws_set_thread_affinity_method {
        let a = thread_affinity.unwrap();
        a.apply(build);
    } else {
        proof {
            lemma_add_empty(d1);
        }
    }
    proof {
        lemma_add_assoc(d0, x1, x2);
    }
    assert(build_definitions(*build) == d0 + (x1 + x2));
    let ghost d2 = build_definitions(*build);
    if builder.aws_set_thread_name_method {
        let t = thread_name.unwrap();
        t.apply(build);
    } else {
        proof {
            lemma_add_empty(d2);
        }
    }
    proof {
        lemma_add_assoc(d0, x1 + x2, x3);
    }
    assert(build_definitions(*build) == d0 + (x1 + x2 + x3));
    let ghost d3 = build_definitions(*build);
    if builder.simd_add_definitions {
        let s = simd.unwrap();
        s.apply_defines(build);
    } else {
        proof {
            lemma_add_empty(d3);
        }
    }
    proof {
        lemma_add_assoc(d0, x1 + x2 + x3, x4);
    }
}

} // verus!
