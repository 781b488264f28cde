use beluga::build::allowlist::{allowlist_item, allowlist_items, load_allowlist_items, AllowlistItem};
use beluga::build::builder::{apply_properties, LibraryBuilder, Context, SourceWithProperties};
use beluga::build::header::{render_template_content, render_template_define, split_lines, split_words, TemplateError};
use beluga::build::names::{dependency_variable_name, feature_variable_name, get_bindings_file_name};
use beluga::build::probes::{include_check_code, symbol_check_code, thread_name_check_code};
use beluga::build::properties::{
    Avx2Flags, CommonProperties, CompilerSpecific, NameGetter, NameSetter, PosixLfs, Simd, ThreadAffinityMethod,
    ThreadNameMethod,
};
use beluga::build::sources::{is_c_source, is_header};
use beluga::build::target::{Profile, TargetArch, TargetFamily, TargetInfo, TargetOs, TargetVendor};
use beluga::build::to_cow::ToCow;
use std::borrow::Cow;
use std::path::{Path, PathBuf};

fn lookup(name: &str) -> Option<bool> {
    match name {
        "HAVE_A" => Some(true),
        "HAVE_B" => Some(false),
        _ => None,
    }
}

#[test]
fn render_define_lines() {
    assert_eq!(render_template_define("HAVE_A", &lookup), Ok("#define HAVE_A".to_string()));
    assert_eq!(render_template_define("  HAVE_B\t", &lookup), Ok("/* #undef HAVE_B */".to_string()));
    assert_eq!(render_template_define("   ", &lookup), Err(TemplateError::MissingName));
    assert_eq!(render_template_define("FOO \"@FOO@\"", &lookup), Err(TemplateError::Extended));
    assert_eq!(
        render_template_define("HAVE_C", &lookup),
        Err(TemplateError::UnknownName("HAVE_C".to_string()))
    );
}

#[test]
fn template_error_messages() {
    let none = |_: &str| None;
    assert_eq!(render_template_define("FOO \"@FOO@\"", &lookup).unwrap_err().message(), "extended #cmakedefine not supported");
    assert_eq!(render_template_define("   ", &lookup).unwrap_err().message(), "missing VAR name");
    assert_eq!(render_template_define("FOO", &none).unwrap_err().message(), "unknown define name: \"FOO\"");
    assert_eq!(
        TemplateError::UnknownName("A\"B".to_string()).message(),
        "unknown define name: \"A\\\"B\""
    );
}

#[test]
fn render_template() {
    let template = "#pragma once\r\n#cmakedefine HAVE_A\n#cmakedefine HAVE_B\n// end";
    assert_eq!(
        render_template_content(template, &lookup),
        Ok("#pragma once\n#define HAVE_A\n/* #undef HAVE_B */\n// end\n".to_string())
    );
    assert_eq!(render_template_content("", &lookup), Ok(String::new()));
    assert_eq!(
        render_template_content("x\n#cmakedefine HAVE_Z\n#cmakedefine\n", &lookup),
        Err(TemplateError::UnknownName("HAVE_Z".to_string()))
    );
    assert_eq!(render_template_content("#cmakedefineHAVE_A\n", &lookup), Ok("#cmakedefineHAVE_A\n".to_string()));
}

#[test]
fn words_and_lines() {
    let words: Vec<String> = split_words(&" a  bc\td ".chars().collect())
        .into_iter()
        .map(|w| w.into_iter().collect())
        .collect();
    assert_eq!(words, vec!["a", "bc", "d"]);
    let lines: Vec<String> = split_lines(&"x\r\n\ny\r".chars().collect())
        .into_iter()
        .map(|l| l.into_iter().collect())
        .collect();
    assert_eq!(lines, "x\r\n\ny\r".lines().collect::<Vec<_>>());
}

#[test]
fn variable_names() {
    assert_eq!(get_bindings_file_name(""), "wrapper.rs");
    assert_eq!(get_bindings_file_name("linux"), "wrapper_linux.rs");
    assert_eq!(dependency_variable_name("aws-c-common", "include"), "DEP_AWS_C_COMMON_INCLUDE");
    assert_eq!(dependency_variable_name("x", "a-b"), "DEP_X_A-B");
    assert_eq!(feature_variable_name("enable-tracing"), "CARGO_FEATURE_ENABLE_TRACING");
}

#[test]
fn targets_from_environment_values() {
    assert_eq!(Profile::from_env_value(Some("debug")), Profile::Debug);
    assert_eq!(Profile::from_env_value(Some("release")), Profile::Release);
    assert_eq!(Profile::from_env_value(None), Profile::Release);
    assert_eq!(TargetFamily::from_env_value(Some("unix")), TargetFamily::Unix);
    assert_eq!(TargetFamily::from_env_value(Some("wasm")), TargetFamily::Other);
    assert_eq!(TargetOs::from_env_value(Some("netbsd")), TargetOs::Netbsd);
    assert_eq!(TargetOs::from_env_value(Some("Linux")), TargetOs::Other);
    assert_eq!(TargetVendor::from_env_value(Some("apple")), TargetVendor::Apple);
    assert_eq!(TargetArch::from_env_value(Some("x86_64")), TargetArch::X86_64);
    assert_eq!(TargetArch::from_env_value(None), TargetArch::Other);
    assert!(TargetOs::Freebsd.is_bsd());
    assert!(TargetOs::Openbsd.is_bsd());
    assert!(!TargetOs::Dragonfly.is_bsd());
}

fn target(os: TargetOs, arch: TargetArch) -> TargetInfo {
    TargetInfo {
        is_msvc: false,
        profile: Profile::Debug,
        target_arch: arch,
        target_family: TargetFamily::Unix,
        target_vendor: TargetVendor::Other,
        target_os: os,
    }
}

#[test]
fn target_info() {
    let t = target(TargetOs::Android, TargetArch::Aarch64);
    assert!(t.cmake_system_name().is_android());
    assert!(!t.cmake_system_name().is_linux());
    assert!(t.is_aws_arch_arm64());
    assert!(!t.is_aws_arch_intel());
    assert!(!t.is_win32());
    assert!(!t.is_apple());
    assert!(target(TargetOs::Linux, TargetArch::X86).is_aws_arch_intel());
    assert!(target(TargetOs::Linux, TargetArch::Arm).is_aws_arch_arm32());
    assert!(target(TargetOs::Netbsd, TargetArch::Arm).cmake_system_name().is_bsd());
}

#[test]
fn probe_results() {
    assert_eq!(PosixLfs::from_probes(true, false, true), PosixLfs { supported: true, via_define: false });
    assert_eq!(PosixLfs::from_probes(false, true, true), PosixLfs { supported: true, via_define: true });
    assert_eq!(PosixLfs::from_probes(false, false, true).supported, false);
    assert_eq!(PosixLfs::from_probes(true, false, false).supported, false);
    assert_eq!(Avx2Flags::from_probe(true, true), Avx2Flags::Msvc);
    assert_eq!(Avx2Flags::from_probe(false, true), Avx2Flags::Gnu);
    assert_eq!(Avx2Flags::from_probe(false, false), Avx2Flags::Unavailable);
    assert_eq!(NameSetter::from_probes(true, true, true, true), None);
    assert_eq!(NameSetter::from_probes(false, false, true, true), Some(NameSetter::SetName2));
    assert_eq!(NameGetter::from_probes(true, false, false, false), Some(NameGetter::Getname3));
    assert_eq!(NameGetter::from_probes(false, false, false, true), Some(NameGetter::Getname3));
    assert_eq!(NameGetter::from_probes(false, false, false, false), None);
    assert_eq!(NameSetter::Setname2.define_name(), "AWS_PTHREAD_SETNAME_TAKES_2ARGS");
    assert_eq!(NameGetter::GetName2.define_name(), "AWS_PTHREAD_GET_NAME_TAKES_2ARGS");
}

fn common(lfs: PosixLfs) -> CommonProperties {
    CommonProperties::from_probes(true, false, true, CompilerSpecific::from_probes(false, true, lfs))
}

#[test]
fn large_file_support_of_common_properties() {
    assert!(common(PosixLfs::from_probes(true, false, true)).have_posix_large_file_support());
    assert!(!common(PosixLfs::from_probes(false, false, true)).have_posix_large_file_support());
    let msvc = CommonProperties::from_probes(
        true,
        true,
        false,
        CompilerSpecific::from_probes(true, false, PosixLfs::from_probes(true, false, true)),
    );
    assert!(!msvc.have_posix_large_file_support());
}

#[test]
fn properties_reach_the_compiler() {
    let mut build = cc::Build::new();
    let props = common(PosixLfs::from_probes(false, true, true));
    props.apply(&mut build, Profile::Debug, false);
    let text = format!("{build:?}");
    assert!(text.contains("NO_STDBOOL"));
    assert!(!text.contains("NO_STDINT"));
    assert!(text.contains("HAVE_SYSCONF"));
    assert!(text.contains("DEBUG_BUILD"));
    assert!(text.contains("INTEL_NO_ITTNOTIFY_API"));
    assert!(text.contains("_FILE_OFFSET_BITS"));
    assert!(text.contains("c99"));

    let mut build = cc::Build::new();
    Avx2Flags::Gnu.apply(&mut build);
    assert!(format!("{build:?}").contains("-mavx2"));

    let mut build = cc::Build::new();
    let method = ThreadNameMethod::from_probes(false, Some(NameSetter::Setname3), Some(NameGetter::Getname2));
    method.apply(&mut build);
    let text = format!("{build:?}");
    assert!(text.contains("AWS_PTHREAD_SETNAME_TAKES_3ARGS"));
    assert!(text.contains("AWS_PTHREAD_GETNAME_TAKES_2ARGS"));

    let mut build = cc::Build::new();
    let windows = ThreadNameMethod::from_probes(true, Some(NameSetter::Setname3), Some(NameGetter::Getname2));
    windows.apply(&mut build);
    assert!(!format!("{build:?}").contains("AWS_PTHREAD"));

    let simd = Simd { flags: Avx2Flags::Msvc, have_avx2_intrinsics: true, have_mm256_extract_epi64: false };
    let mut build = cc::Build::new();
    simd.apply_defines(&mut build);
    simd.apply_flags(&mut build);
    let text = format!("{build:?}");
    assert!(text.contains("HAVE_AVX2_INTRINSICS"));
    assert!(!text.contains("HAVE_MM256_EXTRACT_EPI64"));
    assert!(text.contains("/arch:AVX2"));
}

fn context() -> Context {
    let mut cc_build = cc::Build::new();
    cc_build.define("BASE", None);
    Context {
        out_dir: "/tmp/out".to_string(),
        cc_build,
        target: target(TargetOs::Linux, TargetArch::X86_64),
    }
}

#[test]
fn builder_settings() {
    let ctx = context();
    assert_eq!(ctx.out_dir(), "/tmp/out");
    assert!(format!("{:?}", ctx.get_cc_build()).contains("BASE"));
    let mut b: LibraryBuilder = ctx.builder("aws-c-common".to_string());
    assert_eq!(b.lib_dir, "aws-c-common");
    assert!(b.dependencies.is_empty());
    b.dependencies(vec!["aws-c-common".to_string()]);
    b.dependencies(vec!["aws-c-io".to_string()]);
    assert_eq!(b.dependencies, vec!["aws-c-common", "aws-c-io"]);
    b.set_include_dir("include".to_string());
    b.bindings_suffix("linux".to_string());
    b.source_path("posix".to_string());
    b.source_with_properties()
        .source_path("arch/intel".to_string())
        .compile_flag("-O3".to_string())
        .simd_avx2();
    b.define("FOO", Some("1"));
    b.simd_add_definitions();
    b.aws_set_common_properties();
    b.aws_set_thread_affinity_method();
    b.aws_set_thread_name_method();
    assert_eq!(b.include_dir.as_deref(), Some("include"));
    assert_eq!(b.bindings_suffix.as_deref(), Some("linux"));
    assert_eq!(b.source_paths, vec!["posix"]);
    assert_eq!(b.sources_with_properties.len(), 1);
    let s = &b.sources_with_properties[0];
    assert_eq!(s.source_paths, vec!["arch/intel"]);
    assert_eq!(s.compile_flags, vec!["-O3"]);
    assert!(s.simd_avx2);
    assert!(b.simd_add_definitions && b.aws_set_common_properties);
    assert!(b.aws_set_thread_affinity_method && b.aws_set_thread_name_method);
    assert!(format!("{:?}", b.cc_build).contains("FOO"));
    let fresh = SourceWithProperties::new();
    assert!(fresh.source_paths.is_empty() && !fresh.simd_avx2);
}

#[test]
fn applying_builder_properties() {
    let ctx = context();
    let mut b = ctx.builder("lib".to_string());
    b.aws_set_thread_name_method();
    let mut build = cc::Build::new();
    let method = ThreadNameMethod::from_probes(false, Some(NameSetter::Setname2), None);
    apply_properties(&mut build, &b, &ctx.target, None, None, Some(method), None, false);
    let text = format!("{build:?}");
    assert!(text.contains("AWS_PTHREAD_SETNAME_TAKES_2ARGS"));
    assert!(!text.contains("DEBUG_BUILD"));
    assert!(!text.contains("AWS_AFFINITY_METHOD"));
}

#[test]
fn applying_thread_affinity() {
    let ctx = context();
    let mut b = ctx.builder("lib".to_string());
    b.aws_set_thread_affinity_method();
    let mut build = cc::Build::new();
    let method = ThreadAffinityMethod::from_probes(true, false, true);
    assert_eq!(method, ThreadAffinityMethod::Pthread);
    apply_properties(&mut build, &b, &ctx.target, None, Some(method), None, None, false);
    let text = format!("{build:?}");
    assert!(text.contains("AWS_AFFINITY_METHOD"));
    assert!(text.contains("AWS_AFFINITY_METHOD_PTHREAD"));
    assert!(!text.contains("AWS_AFFINITY_METHOD_PTHREAD_ATTR"));
}

#[test]
fn thread_affinity_methods() {
    assert_eq!(ThreadAffinityMethod::from_probes(false, true, true), ThreadAffinityMethod::Unavailable);
    assert_eq!(ThreadAffinityMethod::from_probes(true, true, true), ThreadAffinityMethod::PthreadAttr);
    assert_eq!(ThreadAffinityMethod::from_probes(true, false, false), ThreadAffinityMethod::Unavailable);
    assert_eq!(ThreadAffinityMethod::PthreadAttr.method_name(), "AWS_AFFINITY_METHOD_PTHREAD_ATTR");
    assert_eq!(ThreadAffinityMethod::Unavailable.method_name(), "AWS_AFFINITY_METHOD_NONE");
    assert!(target(TargetOs::Linux, TargetArch::X86_64).supports_thread_affinity());
    assert!(!target(TargetOs::Android, TargetArch::Aarch64).supports_thread_affinity());
    let mut apple = target(TargetOs::Macos, TargetArch::Aarch64);
    apple.target_vendor = TargetVendor::Apple;
    assert!(!apple.supports_thread_affinity());
    let mut windows = target(TargetOs::Windows, TargetArch::X86_64);
    windows.target_family = TargetFamily::Windows;
    assert!(!windows.supports_thread_affinity());
}

#[test]
fn source_group_flags() {
    let simd = Simd { flags: Avx2Flags::Gnu, have_avx2_intrinsics: true, have_mm256_extract_epi64: false };
    let mut group = SourceWithProperties::new();
    group.source_path("arch/intel".to_string()).compile_flag("-O3".to_string()).simd_avx2();
    let mut build = cc::Build::new();
    group.apply_flags(&mut build, Some(simd));
    let text = format!("{build:?}");
    let o3 = text.find("-O3").unwrap();
    let mavx = text.find("-mavx").unwrap();
    assert!(o3 < mavx);
    assert!(text.contains("-mavx2"));

    let mut plain = SourceWithProperties::new();
    plain.compile_flag("-O2".to_string());
    let mut build = cc::Build::new();
    plain.apply_flags(&mut build, None);
    let text = format!("{build:?}");
    assert!(text.contains("-O2"));
    assert!(!text.contains("-mavx"));
}

#[test]
fn source_and_header_files() {
    assert!(is_c_source("thread.c"));
    assert!(is_c_source("THREAD.C"));
    assert!(is_c_source("a.b.c"));
    assert!(!is_c_source("thread.cpp"));
    assert!(!is_c_source(".c"));
    assert!(!is_c_source("c"));
    assert!(!is_c_source("thread.c.o"));
    assert!(is_c_source("..c"));
    assert!(is_header("common.h"));
    assert!(is_header("atomics.INL"));
    assert!(!is_header("readme.md"));
    assert!(!is_header(".h"));
    assert!(!is_header("h"));
}

#[test]
fn allowlist_lines() {
    assert_eq!(allowlist_item(""), None);
    assert_eq!(allowlist_item("# comment"), None);
    assert_eq!(allowlist_item("#no-space"), Some(AllowlistItem::Allow("#no-space".to_string())));
    assert_eq!(allowlist_item("block:aws_foo"), Some(AllowlistItem::Block("aws_foo".to_string())));
    assert_eq!(allowlist_item("opaque:aws_bar"), Some(AllowlistItem::Opaque("aws_bar".to_string())));
    assert_eq!(allowlist_item("allow:aws_.*"), Some(AllowlistItem::Allow("aws_.*".to_string())));
    assert_eq!(allowlist_item("aws_baz"), Some(AllowlistItem::Allow("aws_baz".to_string())));
    assert_eq!(
        allowlist_items("# header\naws_a\n\nblock:aws_b\r\nopaque:aws_c"),
        vec![
            AllowlistItem::Allow("aws_a".to_string()),
            AllowlistItem::Block("aws_b".to_string()),
            AllowlistItem::Opaque("aws_c".to_string()),
        ]
    );
}

#[test]
fn probe_programs() {
    assert_eq!(include_check_code("stdint.h"), "\n#include <stdint.h>\nint main(void) { return 0; }\n");
    let code = symbol_check_code(&["stdio.h", "unistd.h"], "fseeko");
    assert!(code.starts_with("#include <stdio.h>\n#include <unistd.h>\n\nint main(int argc, char** argv) {\n"));
    assert!(code.contains("    #ifndef fseeko\n    return ((int*)(&fseeko))[argc];\n"));
    assert!(code.ends_with("    #endif\n}\n"));
    let code = thread_name_check_code("pthread_setname_np(thread_id, \"asdf\");");
    assert!(code.starts_with("\n#define _GNU_SOURCE\n#include <pthread.h>\n"));
    assert!(code.ends_with("    pthread_t thread_id;\n    pthread_setname_np(thread_id, \"asdf\");\n}\n"));
}

#[test]
fn allowlist_reaches_the_bindings_builder() {
    let builder = load_allowlist_items(bindgen::builder(), "# list\naws_alpha\nblock:aws_beta\nopaque:aws_gamma\n");
    let text = format!("{builder:?}");
    assert!(text.contains("aws_alpha"));
    assert!(text.contains("aws_beta"));
    assert!(text.contains("aws_gamma"));
    assert!(!text.contains("# list"));
    assert!(!text.contains("block:aws_beta"));
    assert!(!text.contains("opaque:aws_gamma"));
}

#[test]
fn values_as_cows() {
    let c: Cow<str> = "x".to_cow();
    assert!(matches!(c, Cow::Borrowed("x")));
    let c: Cow<String> = String::from("y").to_cow();
    assert!(matches!(c, Cow::Owned(ref s) if s == "y"));
    let c: Cow<Path> = "a/b".to_cow();
    assert!(matches!(c, Cow::Borrowed(p) if p == Path::new("a/b")));
    let c: Cow<Path> = PathBuf::from("c").to_cow();
    assert!(matches!(c, Cow::Owned(ref p) if p == Path::new("c")));
    let c: Cow<str> = Cow::<str>::Owned("z".to_string()).to_cow();
    assert_eq!(c, "z");
}
