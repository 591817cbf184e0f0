//! Link plans: which library each module needs on a target, where it lies under
//! the module's API directory, and how cargo is told to link it.
use vstd::prelude::*;

use crate::error::ResolveError;
use crate::target::{GnuAbi, LinuxArch, Module, Target, UwpArch, WindowsAbi, WindowsArch};

verus! {

/// How a library is linked.
#[derive(Clone, Copy, Debug, PartialEq, Eq, Structural)]
pub enum LinkKind {
    Dylib,
    Static,
}

/// The optional modules that a build asks for.
#[derive(Clone, Copy, Debug, PartialEq, Eq, Structural)]
pub struct FeatureSet {
    pub studio: bool,
    pub fsbank: bool,
}

/// What the caller of a resolution supplies besides the target.
#[derive(Clone, Debug)]
pub struct BuildConfig {
    /// The core library's name, from which the studio library's is formed.
    pub lib_name: String,
    /// Link the logging builds of the libraries.
    pub debug_logging: bool,
    pub features: FeatureSet,
}

/// One library to link: the directory to search, relative to the module's API
/// directory, and the name handed to the linker.
#[derive(Clone, Debug)]
pub struct LinkDirective {
    pub module: Module,
    pub search_dir: Vec<String>,
    pub kind: LinkKind,
    /// The name is a file name that the linker must take as it is.
    pub verbatim: bool,
    pub name: String,
}

/// The content of a `LinkDirective`.
pub struct DirectiveModel {
    pub module: Module,
    pub search_dir: Seq<Seq<char>>,
    pub kind: LinkKind,
    pub verbatim: bool,
    pub name: Seq<char>,
}

impl View for LinkDirective {
    type V = DirectiveModel;

    open spec fn view(&self) -> DirectiveModel {
        DirectiveModel {
            module: self.module,
            search_dir: self.search_dir.deep_view(),
            kind: self.kind,
            verbatim: self.verbatim,
            name: self.name@,
        }
    }
}

pub open spec fn directives_view(v: Seq<LinkDirective>) -> Seq<DirectiveModel> {
    Seq::new(v.len(), |i: int| v[i]@)
}

/// The content of a link plan, or its error.
pub open spec fn plan_view(r: Result<Vec<LinkDirective>, ResolveError>) -> Result<
    Seq<DirectiveModel>,
    ResolveError,
> {
    match r {
        Ok(v) => Ok(directives_view(v@)),
        Err(e) => Err(e),
    }
}

/// The directory, below a module's API directory, that holds its libraries for `t`.
pub open spec fn lib_subdirs(t: Target) -> Seq<Seq<char>> {
    match t {
        Target::Linux(a, _) => seq![
            "lib"@,
            match a {
                LinuxArch::Aarch64 => "arm64"@,
                LinuxArch::Armv7 => "arm"@,
                LinuxArch::I686 => "x86"@,
                LinuxArch::X86_64 => "x86_64"@,
            },
        ],
        Target::Windows(a, _) => seq![
            "lib"@,
            match a {
                WindowsArch::I686 => "x86"@,
                WindowsArch::X86_64 => "x64"@,
            },
        ],
        Target::Uwp(a, _) => seq![
            "lib"@,
            match a {
                UwpArch::I686 => "x86"@,
                UwpArch::X86_64 => "x64"@,
                UwpArch::Thumbv7a => "arm"@,
            },
        ],
        Target::Wasm => seq!["lib"@, "upstream"@, "w32"@],
        Target::Android(a, _) => seq![
            "lib"@,
            match a {
                LinuxArch::Aarch64 => "arm64-v8a"@,
                LinuxArch::Armv7 => "armeabi-v7a"@,
                LinuxArch::I686 => "x86"@,
                LinuxArch::X86_64 => "x86_64"@,
            },
        ],
        _ => seq!["lib"@],
    }
}

/// The mobile targets (Android, iOS, tvOS) and the web target link
/// statically; the desktops link the shared library.
pub open spec fn link_kind_of(t: Target) -> LinkKind {
    match t {
        Target::IosDevice(_) | Target::IosSimulator(_) | Target::TvosDevice
        | Target::TvosSimulator(_) | Target::Wasm | Target::Android(_, _) => LinkKind::Static,
        _ => LinkKind::Dylib,
    }
}

/// What follows the library's name (and its debug mark) on `t`.
pub open spec fn name_suffix(t: Target) -> Seq<char> {
    match t {
        Target::Windows(_, _) => "_vc"@,
        Target::IosDevice(_) => "_iphoneos"@,
        Target::IosSimulator(_) => "_iphonesimulator"@,
        Target::TvosDevice => "_appletvos"@,
        Target::TvosSimulator(_) => "_appletvsimulator"@,
        Target::Wasm => "_wasm.a"@,
        _ => Seq::<char>::empty(),
    }
}

/// The name of a module's library before any mark or suffix: the studio
/// library extends the core library's name, the bank builder's is fixed.
pub open spec fn module_stem(m: Module, base: Seq<char>) -> Seq<char> {
    match m {
        Module::Core => base,
        Module::Studio => base + "studio"@,
        Module::Fsbank => "fsbank"@,
    }
}

/// Whether a logging build of `m` exists on `t`. The bank builder ships no
/// logging build for desktop Windows, so there the flag is ignored.
pub open spec fn debug_applies(t: Target, m: Module) -> bool {
    !(m == Module::Fsbank && t is Windows)
}

/// The mark that selects a logging build.
pub open spec fn debug_mark(t: Target, m: Module, debug: bool) -> Seq<char> {
    if debug && debug_applies(t, m) {
        "L"@
    } else {
        Seq::<char>::empty()
    }
}

/// The name under which `m`'s library is linked on `t`.
pub open spec fn library_name(t: Target, m: Module, base: Seq<char>, debug: bool) -> Seq<char> {
    module_stem(m, base) + debug_mark(t, m, debug) + name_suffix(t)
}

/// The directive that links `m`'s library on `t`.
pub open spec fn directive_spec(
    t: Target,
    m: Module,
    base: Seq<char>,
    debug: bool,
) -> DirectiveModel {
    DirectiveModel {
        module: m,
        search_dir: lib_subdirs(t),
        kind: link_kind_of(t),
        verbatim: t is Wasm,
        name: library_name(t, m, base, debug),
    }
}

/// Whether the SDK ships `m` for `t`: the bank builder exists only for x86
/// Linux with glibc, Windows with MSVC, and macOS.
pub open spec fn module_supported(t: Target, m: Module) -> bool {
    match m {
        Module::Fsbank => match t {
            Target::Linux(LinuxArch::I686, GnuAbi::Gnu)
            | Target::Linux(LinuxArch::X86_64, GnuAbi::Gnu)
            | Target::Windows(_, WindowsAbi::Msvc)
            | Target::MacOs(_) => true,
            _ => false,
        },
        _ => true,
    }
}

/// The modules to link, in order: the core, then each optional one asked for.
pub open spec fn enabled_modules(f: FeatureSet) -> Seq<Module> {
    seq![Module::Core] + (if f.studio {
        seq![Module::Studio]
    } else {
        Seq::<Module>::empty()
    }) + (if f.fsbank {
        seq![Module::Fsbank]
    } else {
        Seq::<Module>::empty()
    })
}

/// The link plan for `t`: one directive per enabled module, or the first
/// optional module that the SDK does not ship for `t`.
pub open spec fn plan_spec(
    t: Target,
    base: Seq<char>,
    debug: bool,
    f: FeatureSet,
) -> Result<Seq<DirectiveModel>, ResolveError> {
    if f.studio && !module_supported(t, Module::Studio) {
        Err(ResolveError::UnsupportedConfiguration { target: t, module: Module::Studio })
    } else if f.fsbank && !module_supported(t, Module::Fsbank) {
        Err(ResolveError::UnsupportedConfiguration { target: t, module: Module::Fsbank })
    } else {
        Ok(enabled_modules(f).map_values(|m: Module| directive_spec(t, m, base, debug)))
    }
}

fn owned(s: &str) -> (r: String)
    ensures
        r@ == s@,
{
    String::from_str(s)
}

/// The directory below a module's API directory that holds its libraries.
pub fn library_subdirs(t: Target) -> (r: Vec<String>)
    ensures
        r.deep_view() == lib_subdirs(t),
{
    let mut dirs: Vec<String> = Vec::new();
    dirs.push(owned("lib"));
    match t {
        Target::Linux(a, _) => {
            dirs.push(
                owned(
                    match a {
                        LinuxArch::Aarch64 => "arm64",
                        LinuxArch::Armv7 => "arm",
                        LinuxArch::I686 => "x86",
                        LinuxArch::X86_64 => "x86_64",
                    },
                ),
            );
        },
        Target::Windows(a, _) => {
            dirs.push(
                owned(
                    match a {
                        WindowsArch::I686 => "x86",
                        WindowsArch::X86_64 => "x64",
                    },
                ),
            );
        },
        Target::Uwp(a, _) => {
            dirs.push(
                owned(
                    match a {
                        UwpArch::I686 => "x86",
                        UwpArch::X86_64 => "x64",
                        UwpArch::Thumbv7a => "arm",
                    },
                ),
            );
        },
        Target::Wasm => {
            dirs.push(owned("upstream"));
            dirs.push(owned("w32"));
        },
        Target::Android(a, _) => {
            dirs.push(
                owned(
                    match a {
                        LinuxArch::Aarch64 => "arm64-v8a",
                        LinuxArch::Armv7 => "armeabi-v7a",
                        LinuxArch::I686 => "x86",
                        LinuxArch::X86_64 => "x86_64",
                    },
                ),
            );
        },
        _ => {},
    }
    assert(dirs.deep_view() =~= lib_subdirs(t));
    dirs
}

fn link_kind(t: Target) -> (r: LinkKind)
    ensures
        r == link_kind_of(t),
{
    match t {
        Target::IosDevice(_) | Target::IosSimulator(_) | Target::TvosDevice
        | Target::TvosSimulator(_) | Target::Wasm | Target::Android(_, _) => LinkKind::Static,
        _ => LinkKind::Dylib,
    }
}

fn suffix(t: Target) -> (r: &'static str)
    ensures
        r@ == name_suffix(t),
{
    match t {
        Target::Windows(_, _) => "_vc",
        Target::IosDevice(_) => "_iphoneos",
        Target::IosSimulator(_) => "_iphonesimulator",
        Target::TvosDevice => "_appletvos",
        Target::TvosSimulator(_) => "_appletvsimulator",
        Target::Wasm => "_wasm.a",
        _ => {
            proof {
                reveal_strlit("");
            }
            ""
        },
    }
}

/// The name under which `m`'s library is linked on `t`, where `base` is the
/// core library's name: the module's name, the logging mark `L` where
/// `debug` asks for it and such a build exists, then the target's suffix.
pub fn library_file_name(t: Target, m: Module, base: &str, debug: bool) -> (r: String)
    ensures
        r@ == library_name(t, m, base@, debug),
{
    let mut name = match m {
        Module::Core => owned(base),
        Module::Studio => owned(base).concat("studio"),
        Module::Fsbank => owned("fsbank"),
    };
    let ghost stem = name@;
    if debug && !(m == Module::Fsbank && matches!(t, Target::Windows(_, _))) {
        name.append("L");
    } else {
        assert(stem + Seq::<char>::empty() =~= stem);
    }
    name.append(suffix(t));
    name
}

/// The directive that links `m`'s library on `t`.
pub fn resolve_library(t: Target, m: Module, base: &str, debug: bool) -> (r: LinkDirective)
    ensures
        r@ == directive_spec(t, m, base@, debug),
{
    LinkDirective {
        module: m,
        search_dir: library_subdirs(t),
        kind: link_kind(t),
        verbatim: matches!(t, Target::Wasm),
        name: library_file_name(t, m, base, debug),
    }
}

/// Whether the SDK ships `m` for `t`.
pub fn is_module_supported(t: Target, m: Module) -> (r: bool)
    ensures
        r == module_supported(t, m),
{
    match m {
        Module::Fsbank => match t {
            Target::Linux(LinuxArch::I686, GnuAbi::Gnu)
            | Target::Linux(LinuxArch::X86_64, GnuAbi::Gnu)
            | Target::Windows(_, WindowsAbi::Msvc)
            | Target::MacOs(_) => true,
            _ => false,
        },
        _ => true,
    }
}

/// The link plan of a build: a directive for the core library and for each
/// optional module asked for, in that order. A module that the SDK does not
/// ship for the target fails the whole plan, naming the target and module.
pub fn resolve_link(t: Target, config: &BuildConfig) -> (r: Result<Vec<LinkDirective>, ResolveError>)
    ensures
        plan_view(r) == plan_spec(t, config.lib_name@, config.debug_logging, config.features),
{
    let f = config.features;
    let base = config.lib_name.as_str();
    let debug = config.debug_logging;
    if f.studio && !is_module_supported(t, Module::Studio) {
        return Err(ResolveError::UnsupportedConfiguration { target: t, module: Module::Studio });
    }
    if f.fsbank && !is_module_supported(t, Module::Fsbank) {
        return Err(ResolveError::UnsupportedConfiguration { target: t, module: Module::Fsbank });
    }
    let ghost spec_plan = enabled_modules(f).map_values(
        |m: Module| directive_spec(t, m, base@, debug),
    );
    let mut plan: Vec<LinkDirective> = Vec::new();
    plan.push(resolve_library(t, Module::Core, base, debug));
    if f.studio {
        plan.push(resolve_library(t, Module::Studio, base, debug));
    }
    if f.fsbank {
        plan.push(resolve_library(t, Module::Fsbank, base, debug));
    }
    assert(directives_view(plan@) =~= spec_plan);
    Ok(plan)
}

/// Every directive of a plan for `t` searches the target's library directory.
pub proof fn lemma_plan_search_dirs(t: Target, base: Seq<char>, debug: bool, f: FeatureSet)
    ensures
        plan_spec(t, base, debug, f) is Ok ==> forall|i: int|
            0 <= i < plan_spec(t, base, debug, f)->Ok_0.len() ==> (#[trigger] plan_spec(
                t,
                base,
                debug,
                f,
            )->Ok_0[i]).search_dir == lib_subdirs(t),
{
}

/// Resolution depends on the target and the configuration alone: two
/// resolutions of the same target, with configurations that hold the same
/// values, give the same link plan.
pub proof fn lemma_resolution_deterministic(
    t: Target,
    c1: BuildConfig,
    c2: BuildConfig,
    r1: Result<Vec<LinkDirective>, ResolveError>,
    r2: Result<Vec<LinkDirective>, ResolveError>,
)
    requires
        c1.lib_name@ == c2.lib_name@,
        c1.debug_logging == c2.debug_logging,
        c1.features == c2.features,
        plan_view(r1) == plan_spec(t, c1.lib_name@, c1.debug_logging, c1.features),
        plan_view(r2) == plan_spec(t, c2.lib_name@, c2.debug_logging, c2.features),
    ensures
        plan_view(r1) == plan_view(r2),
{
}

/// A module asked for on a target for which the SDK does not ship it always
/// fails the plan with `UnsupportedConfiguration` naming one such module, and
/// a plan that succeeds links every module asked for.
pub proof fn lemma_unsupported_module_fails(t: Target, base: Seq<char>, debug: bool, f: FeatureSet)
    ensures
        ((f.studio && !module_supported(t, Module::Studio)) || (f.fsbank && !module_supported(
            t,
            Module::Fsbank,
        ))) <==> plan_spec(t, base, debug, f) is Err,
        match plan_spec(t, base, debug, f) {
            Err(e) => exists|m: Module|
                #![auto]
                enabled_modules(f).contains(m) && !module_supported(t, m) && e
                    == ResolveError::UnsupportedConfiguration { target: t, module: m },
            Ok(p) => forall|m: Module|
                #![auto]
                enabled_modules(f).contains(m) ==> exists|i: int|
                    0 <= i < p.len() && p[i] == directive_spec(t, m, base, debug),
        },
{
    let mods = enabled_modules(f);
    match plan_spec(t, base, debug, f) {
        Err(e) => {
            if f.studio && !module_supported(t, Module::Studio) {
                assert(mods[1] == Module::Studio);
            } else {
                assert(mods[mods.len() - 1] == Module::Fsbank);
            }
        },
        Ok(p) => {
            assert forall|m: Module| #![auto] mods.contains(m) implies exists|i: int|
                0 <= i < p.len() && p[i] == directive_spec(t, m, base, debug) by {
                let k = choose|k: int| 0 <= k < mods.len() && mods[k] == m;
                assert(p[k] == directive_spec(t, m, base, debug));
            }
        },
    }
}

/// With the logging flag set, every library name carries the mark `L` right
/// after the module's name wherever a logging build exists; where none does,
/// and in everything but the names, the flag changes nothing.
pub proof fn lemma_debug_mark(t: Target, base: Seq<char>, f: FeatureSet)
    ensures
        match (plan_spec(t, base, true, f), plan_spec(t, base, false, f)) {
            (Ok(on), Ok(off)) => on.len() == off.len() && forall|i: int|
                #![trigger on[i]]
                0 <= i < on.len() ==> {
                    let m = on[i].module;
                    &&& off[i].module == m
                    &&& on[i].search_dir == off[i].search_dir
                    &&& on[i].kind == off[i].kind
                    &&& on[i].verbatim == off[i].verbatim
                    &&& off[i].name == module_stem(m, base) + name_suffix(t)
                    &&& on[i].name == module_stem(m, base) + (if debug_applies(t, m) {
                        "L"@
                    } else {
                        Seq::<char>::empty()
                    }) + name_suffix(t)
                },
            (Err(a), Err(b)) => a == b,
            _ => false,
        },
{
    match (plan_spec(t, base, true, f), plan_spec(t, base, false, f)) {
        (Ok(on), Ok(off)) => {
            assert forall|i: int| 0 <= i < on.len() implies off[i].name == module_stem(
                on[i].module,
                base,
            ) + name_suffix(t) by {
                let m = on[i].module;
                assert(module_stem(m, base) + Seq::<char>::empty() =~= module_stem(m, base));
            }
        },
        _ => {},
    }
}

} // verus!
