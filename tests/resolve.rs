use fmod_build_utils::directive::{
    codec_lines, emit_lib_link, emit_plan_lines, link_lib_line, link_search_line, search_path,
};
use fmod_build_utils::error::ResolveError;
use fmod_build_utils::flags::{
    allowlist_dir_pattern, allowlist_header_pattern, bindings_clang_args, compile_flags,
    escape_backslashes, include_flag,
};
use fmod_build_utils::link::{
    is_module_supported, library_file_name, library_subdirs, resolve_library, resolve_link,
    BuildConfig, FeatureSet, LinkDirective, LinkKind,
};
use fmod_build_utils::target::{
    AndroidAbi, AppleArch, GnuAbi, IosDeviceArch, LinuxArch, Module, Target, UwpArch, WindowsAbi,
    WindowsArch,
};
use fmod_build_utils::target::{parse_triple, triple_string};
use fmod_build_utils::text::{split_fields, str_eq};

fn config(debug: bool, studio: bool, fsbank: bool) -> BuildConfig {
    BuildConfig {
        lib_name: "mylib".to_string(),
        debug_logging: debug,
        features: FeatureSet { studio, fsbank },
    }
}

fn plan(triple: &str, debug: bool, studio: bool, fsbank: bool) -> Result<Vec<LinkDirective>, ResolveError> {
    let t = parse_triple(triple).unwrap();
    resolve_link(t, &config(debug, studio, fsbank))
}

fn dirs(d: &LinkDirective) -> Vec<&str> {
    d.search_dir.iter().map(|s| s.as_str()).collect()
}

#[test]
fn linux_x86_64_plain() {
    let p = plan("x86_64-unknown-linux-gnu", false, false, false).unwrap();
    assert_eq!(p.len(), 1);
    assert_eq!(dirs(&p[0]), vec!["lib", "x86_64"]);
    assert_eq!(p[0].kind, LinkKind::Dylib);
    assert_eq!(p[0].name, "mylib");
    assert!(!p[0].verbatim);
    assert_eq!(p[0].module, Module::Core);
    assert_eq!(link_lib_line(&p[0]), "cargo::rustc-link-lib=dylib=mylib");
}

#[test]
fn emit_lines_for_linux() {
    let lines = emit_lib_link("/sdk/api/core", "x86_64-unknown-linux-gnu", "mylib", false).unwrap();
    assert_eq!(
        lines,
        vec![
            "cargo::rustc-link-search=/sdk/api/core/lib/x86_64".to_string(),
            "cargo::rustc-link-lib=dylib=mylib".to_string(),
        ]
    );
}

#[test]
fn ios_device_extended() {
    let p = plan("aarch64-apple-ios", false, true, false).unwrap();
    assert_eq!(p.len(), 2);
    assert_eq!(p[0].name, "mylib_iphoneos");
    assert_eq!(p[1].name, "mylibstudio_iphoneos");
    assert_eq!(p[1].module, Module::Studio);
    for d in &p {
        assert_eq!(d.kind, LinkKind::Static);
        assert_eq!(dirs(d), vec!["lib"]);
        assert!(d.name.ends_with("_iphoneos"));
    }
    assert_eq!(link_lib_line(&p[1]), "cargo::rustc-link-lib=static=mylibstudio_iphoneos");
}

#[test]
fn ios_aliases_share_library() {
    let a = plan("aarch64-apple-ios", false, false, false).unwrap();
    let b = plan("arm64e-apple-ios", false, false, false).unwrap();
    assert_eq!(a[0].name, b[0].name);
    assert_eq!(a[0].search_dir, b[0].search_dir);
}

#[test]
fn apple_simulators_and_tvos() {
    assert_eq!(plan("x86_64-apple-ios-sim", false, false, false).unwrap()[0].name, "mylib_iphonesimulator");
    assert_eq!(plan("arm64e-apple-tvos", false, false, false).unwrap()[0].name, "mylib_appletvos");
    assert_eq!(plan("aarch64-apple-tvos-sim", true, false, false).unwrap()[0].name, "mylibL_appletvsimulator");
}

#[test]
fn wasm_debug() {
    let p = plan("wasm32-unknown-emscripten", true, false, false).unwrap();
    assert_eq!(p.len(), 1);
    assert_eq!(dirs(&p[0]), vec!["lib", "upstream", "w32"]);
    assert_eq!(p[0].name, "mylibL_wasm.a");
    assert_eq!(p[0].kind, LinkKind::Static);
    assert!(p[0].verbatim);
    assert_eq!(link_lib_line(&p[0]), "cargo::rustc-link-lib=static:+verbatim=mylibL_wasm.a");
    let flags = compile_flags("/c", "/s", "/f", FeatureSet { studio: false, fsbank: false }, Target::Wasm);
    assert_eq!(flags, vec!["-I/c", "-DDLL_EXPORTS", "-DF_USE_ATTRIBUTE"]);
}

#[test]
fn wasm_emit_lines() {
    let lines = emit_lib_link("/sdk", "wasm32-unknown-emscripten", "mylib", true).unwrap();
    assert_eq!(lines[0], "cargo::rustc-link-search=/sdk/lib/upstream/w32");
    assert_eq!(lines[1], "cargo::rustc-link-lib=static:+verbatim=mylibL_wasm.a");
}

#[test]
fn unrecognized_triple() {
    assert_eq!(parse_triple("mips-unknown-linux-gnu"), Err(ResolveError::UnrecognizedTriple));
    assert_eq!(
        emit_lib_link("/sdk", "mips-unknown-linux-gnu", "mylib", false),
        Err(ResolveError::UnrecognizedTriple)
    );
    for s in ["", "x86_64", "x86_64-unknown-linux", "x86_64-unknown-linux-gnu-extra",
        "x86_64-apple-ios", "aarch64-apple-tvos", "arm64e-apple-ios-sim", "x86_64-unknown-linux-musl",
        "aarch64-pc-windows-msvc", "wasm32-unknown-unknown", "x86_64-apple-darwin-"]
    {
        assert_eq!(parse_triple(s), Err(ResolveError::UnrecognizedTriple), "{s}");
    }
}

#[test]
fn recognized_triples() {
    let cases = [
        ("x86_64-unknown-linux-gnu", Target::Linux(LinuxArch::X86_64, GnuAbi::Gnu)),
        ("armv7-unknown-linux-gnueabihf", Target::Linux(LinuxArch::Armv7, GnuAbi::Gnueabihf)),
        ("i686-pc-windows-msvc", Target::Windows(WindowsArch::I686, WindowsAbi::Msvc)),
        ("x86_64-pc-windows-gnu", Target::Windows(WindowsArch::X86_64, WindowsAbi::Gnu)),
        ("thumbv7a-uwp-windows-msvc", Target::Uwp(UwpArch::Thumbv7a, WindowsAbi::Msvc)),
        ("aarch64-apple-darwin", Target::MacOs(AppleArch::Aarch64)),
        ("arm64e-apple-ios", Target::IosDevice(IosDeviceArch::Arm64e)),
        ("aarch64-apple-ios-sim", Target::IosSimulator(AppleArch::Aarch64)),
        ("arm64e-apple-tvos", Target::TvosDevice),
        ("x86_64-apple-tvos-sim", Target::TvosSimulator(AppleArch::X86_64)),
        ("wasm32-unknown-emscripten", Target::Wasm),
        ("armv7-linux-androideabi", Target::Android(LinuxArch::Armv7, AndroidAbi::Androideabi)),
    ];
    for (s, t) in cases {
        assert_eq!(parse_triple(s), Ok(t), "{s}");
    }
}

#[test]
fn desktop_directories() {
    let dir = |s: &str| library_subdirs(parse_triple(s).unwrap());
    assert_eq!(dir("i686-unknown-linux-gnu"), vec!["lib", "x86"]);
    assert_eq!(dir("aarch64-unknown-linux-gnu"), vec!["lib", "arm64"]);
    assert_eq!(dir("armv7-unknown-linux-gnueabihf"), vec!["lib", "arm"]);
    assert_eq!(dir("x86_64-pc-windows-msvc"), vec!["lib", "x64"]);
    assert_eq!(dir("i686-pc-windows-msvc"), vec!["lib", "x86"]);
    assert_eq!(dir("thumbv7a-uwp-windows-msvc"), vec!["lib", "arm"]);
    assert_eq!(dir("x86_64-apple-darwin"), vec!["lib"]);
    assert_eq!(dir("aarch64-linux-android"), vec!["lib", "arm64-v8a"]);
    assert_eq!(dir("armv7-linux-androideabi"), vec!["lib", "armeabi-v7a"]);
    assert_eq!(dir("x86_64-linux-android"), vec!["lib", "x86_64"]);
}

#[test]
fn windows_names() {
    let p = plan("x86_64-pc-windows-msvc", true, true, true).unwrap();
    let names: Vec<&str> = p.iter().map(|d| d.name.as_str()).collect();
    assert_eq!(names, vec!["mylibL_vc", "mylibstudioL_vc", "fsbank_vc"]);
    let u = plan("x86_64-uwp-windows-msvc", true, true, false).unwrap();
    let names: Vec<&str> = u.iter().map(|d| d.name.as_str()).collect();
    assert_eq!(names, vec!["mylibL", "mylibstudioL"]);
}

#[test]
fn debug_mark_on_every_name() {
    for s in ["x86_64-unknown-linux-gnu", "aarch64-apple-darwin", "i686-pc-windows-msvc"] {
        let on = plan(s, true, true, true).unwrap();
        let off = plan(s, false, true, true).unwrap();
        assert_eq!(on.len(), 3);
        for (a, b) in on.iter().zip(off.iter()) {
            assert_eq!(a.search_dir, b.search_dir);
            assert_eq!(a.kind, b.kind);
            if s.contains("windows") && a.module == Module::Fsbank {
                assert_eq!(a.name, b.name);
            } else {
                assert!(a.name.contains('L'), "{}", a.name);
                assert_ne!(a.name, b.name);
            }
        }
    }
    assert_eq!(plan("x86_64-apple-darwin", true, false, true).unwrap()[1].name, "fsbankL");
    assert_eq!(plan("aarch64-linux-android", true, true, false).unwrap()[1].name, "mylibstudioL");
}

#[test]
fn unsupported_modules() {
    for s in ["aarch64-linux-android", "aarch64-apple-ios", "x86_64-uwp-windows-msvc",
        "aarch64-unknown-linux-gnu", "x86_64-pc-windows-gnu", "x86_64-apple-ios-sim", "arm64e-apple-tvos", "wasm32-unknown-emscripten"] {
        let t = parse_triple(s).unwrap();
        assert!(!is_module_supported(t, Module::Fsbank));
        assert_eq!(
            resolve_link(t, &config(false, true, true)).unwrap_err(),
            ResolveError::UnsupportedConfiguration { target: t, module: Module::Fsbank }
        );
        assert_eq!(resolve_link(t, &config(false, true, false)).unwrap().len(), 2);
    }
    let t = parse_triple("x86_64-unknown-linux-gnu").unwrap();
    assert!(is_module_supported(t, Module::Fsbank));
    assert_eq!(resolve_link(t, &config(false, false, true)).unwrap()[1].name, "fsbank");
}

#[test]
fn resolution_is_repeatable() {
    for s in ["x86_64-unknown-linux-gnu", "aarch64-apple-ios", "wasm32-unknown-emscripten"] {
        let a = plan(s, true, true, false).unwrap();
        let b = plan(s, true, true, false).unwrap();
        assert_eq!(format!("{a:?}"), format!("{b:?}"));
        let t = parse_triple(s).unwrap();
        let f = FeatureSet { studio: true, fsbank: false };
        assert_eq!(compile_flags("/c", "/s", "/f", f, t), compile_flags("/c", "/s", "/f", f, t));
    }
}

#[test]
fn single_library() {
    let t = Target::MacOs(AppleArch::X86_64);
    let d = resolve_library(t, Module::Studio, "fmod", true);
    assert_eq!(d.name, "fmodstudioL");
    assert_eq!(library_file_name(Target::Wasm, Module::Core, "fmod", false), "fmod_wasm.a");
}

#[test]
fn module_compile_flags() {
    let f = FeatureSet { studio: true, fsbank: true };
    let t = Target::Linux(LinuxArch::X86_64, GnuAbi::Gnu);
    assert_eq!(
        compile_flags("/c/inc", "/s/inc", "/f/inc", f, t),
        vec!["-I/c/inc", "-I/s/inc", "-I/f/inc", "-D_BINDGEN_STUDIO_", "-D_BINDGEN_FSBANK_"]
    );
    let none = FeatureSet { studio: false, fsbank: false };
    assert_eq!(compile_flags("/c/inc", "/s/inc", "/f/inc", none, t), vec!["-I/c/inc"]);
}

#[test]
fn clang_args_for_bindings() {
    let extra = vec!["/core/inc".to_string(), "/x".to_string()];
    let t = Target::Linux(LinuxArch::X86_64, GnuAbi::Gnu);
    assert_eq!(bindings_clang_args("/studio/inc", &extra, t), vec!["-I/core/inc", "-I/x", "-I/studio/inc"]);
    assert_eq!(
        bindings_clang_args("/inc", &vec![], Target::Wasm),
        vec!["-I/inc", "-DDLL_EXPORTS", "-DF_USE_ATTRIBUTE"]
    );
    assert_eq!(include_flag("a b"), "-Ia b");
}

#[test]
fn allowlist_patterns() {
    assert_eq!(escape_backslashes(r"C:\sdk\inc"), r"C:\\sdk\\inc");
    assert_eq!(escape_backslashes(""), "");
    assert_eq!(allowlist_dir_pattern(r"C:\inc"), r"C:\\inc[\\/].*");
    assert_eq!(allowlist_dir_pattern("/usr/inc"), r"/usr/inc[\\/].*");
    assert_eq!(allowlist_header_pattern("/w"), r"/w[\\/]src[\\/]bindgen\.h");
}

#[test]
fn path_joining() {
    let parts = vec!["lib".to_string(), "x64".to_string()];
    assert_eq!(search_path("/sdk", &parts), "/sdk/lib/x64");
    assert_eq!(search_path("/sdk/", &parts), "/sdk/lib/x64");
    assert_eq!(search_path("/sdk", &vec![]), "/sdk");
    assert_eq!(link_search_line("/a/b"), "cargo::rustc-link-search=/a/b");
}

#[test]
fn text_helpers() {
    assert_eq!(split_fields("a-b--c"), vec!["a", "b", "", "c"]);
    assert_eq!(split_fields(""), vec![""]);
    assert!(str_eq("abc", "abc"));
    assert!(!str_eq("abc", "abd"));
    assert!(!str_eq("ab", "abc"));
}

#[test]
fn every_target_round_trips() {
    let mut targets = vec![Target::TvosDevice, Target::Wasm];
    for a in [LinuxArch::Aarch64, LinuxArch::Armv7, LinuxArch::I686, LinuxArch::X86_64] {
        targets.push(Target::Linux(a, GnuAbi::Gnu));
        targets.push(Target::Linux(a, GnuAbi::Gnueabihf));
        targets.push(Target::Android(a, AndroidAbi::Android));
        targets.push(Target::Android(a, AndroidAbi::Androideabi));
    }
    for b in [WindowsAbi::Msvc, WindowsAbi::Gnu] {
        targets.push(Target::Windows(WindowsArch::I686, b));
        targets.push(Target::Windows(WindowsArch::X86_64, b));
        for a in [UwpArch::I686, UwpArch::X86_64, UwpArch::Thumbv7a] {
            targets.push(Target::Uwp(a, b));
        }
    }
    for a in [AppleArch::Aarch64, AppleArch::X86_64] {
        targets.push(Target::MacOs(a));
        targets.push(Target::IosSimulator(a));
        targets.push(Target::TvosSimulator(a));
    }
    targets.push(Target::IosDevice(IosDeviceArch::Aarch64));
    targets.push(Target::IosDevice(IosDeviceArch::Arm64e));
    let mut seen = std::collections::HashSet::new();
    for t in targets {
        let s = triple_string(t);
        assert_eq!(parse_triple(&s), Ok(t), "{s}");
        assert!(seen.insert(s));
    }
    assert_eq!(triple_string(Target::IosSimulator(AppleArch::X86_64)), "x86_64-apple-ios-sim");
    assert_eq!(triple_string(Target::Uwp(UwpArch::Thumbv7a, WindowsAbi::Msvc)), "thumbv7a-uwp-windows-msvc");
}

#[test]
fn android_links_statically() {
    let p = plan("aarch64-linux-android", false, false, false).unwrap();
    assert_eq!(p[0].kind, LinkKind::Static);
    let lines = emit_lib_link("/sdk", "armv7-linux-androideabi", "mylib", true).unwrap();
    assert_eq!(lines[0], "cargo::rustc-link-search=/sdk/lib/armeabi-v7a");
    assert_eq!(lines[1], "cargo::rustc-link-lib=static=mylibL");
}

#[test]
fn plan_lines_ios_extended() {
    let lines = emit_plan_lines("/sdk", "aarch64-apple-ios", &config(false, true, false)).unwrap();
    assert_eq!(
        lines,
        vec![
            "cargo::rustc-link-search=/sdk/api/core/lib",
            "cargo::rustc-link-lib=static=mylib_iphoneos",
            "cargo::rustc-link-search=/sdk/api/studio/lib",
            "cargo::rustc-link-lib=static=mylibstudio_iphoneos",
        ]
    );
}

#[test]
fn plan_lines_with_bank_builder() {
    let lines = emit_plan_lines("/sdk", "x86_64-pc-windows-msvc", &config(true, false, true)).unwrap();
    assert_eq!(
        lines,
        vec![
            "cargo::rustc-link-search=/sdk/api/core/lib/x64",
            "cargo::rustc-link-lib=dylib=mylibL_vc",
            "cargo::rustc-link-search=/sdk/api/fsbank/lib/x64",
            "cargo::rustc-link-lib=dylib=fsbank_vc",
            "cargo::rustc-link-lib=dylib=libfsbvorbis64",
            "cargo::rustc-link-lib=dylib=opus",
        ]
    );
    let linux = emit_plan_lines("/sdk", "i686-unknown-linux-gnu", &config(false, false, true)).unwrap();
    assert_eq!(linux[3], "cargo::rustc-link-lib=dylib=fsbank");
    assert_eq!(&linux[4..], &["cargo::rustc-link-lib=dylib=fsbvorbis", "cargo::rustc-link-lib=dylib=opus"]);
}

#[test]
fn plan_lines_errors() {
    assert_eq!(
        emit_plan_lines("/sdk", "mips-unknown-linux-gnu", &config(false, false, false)),
        Err(ResolveError::UnrecognizedTriple)
    );
    assert_eq!(
        emit_plan_lines("/sdk", "wasm32-unknown-emscripten", &config(false, false, true)),
        Err(ResolveError::UnsupportedConfiguration { target: Target::Wasm, module: Module::Fsbank })
    );
}

#[test]
fn codec_libraries() {
    assert_eq!(
        codec_lines(Target::Windows(WindowsArch::I686, WindowsAbi::Msvc)),
        vec!["cargo::rustc-link-lib=dylib=libfsbvorbis", "cargo::rustc-link-lib=dylib=opus"]
    );
    assert_eq!(codec_lines(Target::MacOs(AppleArch::Aarch64))[0], "cargo::rustc-link-lib=dylib=fsbvorbis");
}
