//! The text of cargo's link directives, and the paths they name.
use vstd::prelude::*;

use crate::error::ResolveError;
use crate::link::{
    debug_applies, directive_spec, directives_view, lemma_debug_mark, lemma_plan_search_dirs, lib_subdirs, library_subdirs, plan_spec, plan_view,
    module_stem, name_suffix, resolve_library, resolve_link, BuildConfig, FeatureSet, DirectiveModel, LinkDirective, LinkKind,
};
use crate::target::{parse_spec, parse_triple, LinuxArch, Module, Target, UwpArch, WindowsArch};

verus! {

/// A path component that names a directory by letters, digits, `_` and `-` alone.
pub open spec fn plain_component(s: Seq<char>) -> bool {
    s.len() > 0 && forall|i: int|
        0 <= i < s.len() ==> {
            let c = #[trigger] s[i];
            ('a' <= c <= 'z') || ('A' <= c <= 'Z') || ('0' <= c <= '9') || c == '_' || c == '-'
        }
}

/// `s` holds no `?`, so it cannot begin with Windows' verbatim prefix `\\?\`.
pub open spec fn no_question(s: Seq<char>) -> bool {
    forall|i: int| 0 <= i < s.len() ==> s[i] != '?'
}

/// `r` is `base` with `part` appended, directly or after a path separator.
pub open spec fn adjoined(r: Seq<char>, base: Seq<char>, part: Seq<char>) -> bool {
    r == base + part || r == base + seq!['/'] + part || r == base + seq!['\\'] + part
}

/// What may stand between a path and a component adjoined to it.
pub open spec fn separator(sep: Seq<char>) -> bool {
    sep == Seq::<char>::empty() || sep == seq!['/'] || sep == seq!['\\']
}

/// `base` followed, for each part in turn, by its separator and the part.
pub open spec fn join_with(base: Seq<char>, parts: Seq<Seq<char>>, seps: Seq<Seq<char>>) -> Seq<
    char,
>
    decreases parts.len(),
{
    if parts.len() == 0 {
        base
    } else {
        join_with(base, parts.drop_last(), seps.drop_last()) + seps.last() + parts.last()
    }
}

/// `path` is `base` with each of `parts` adjoined in turn.
pub open spec fn joined(path: Seq<char>, base: Seq<char>, parts: Seq<Seq<char>>) -> bool {
    exists|seps: Seq<Seq<char>>|
        seps.len() == parts.len() && (forall|i: int|
            0 <= i < seps.len() ==> separator(#[trigger] seps[i])) && path == join_with(
            base,
            parts,
            seps,
        )
}

/// Relies on camino's `Utf8Path::join`, which adjoins `part` to `base` as std's
/// `PathBuf::push` does. A component without root or prefix is appended,
/// after the platform's separator where `base` does not already end in one;
/// only a verbatim `base` is rewritten, and such a base holds a `?`.
#[verifier::external_body]
fn join_path(base: &str, part: &str) -> (r: String)
    ensures
        plain_component(part@) && no_question(base@) ==> adjoined(r@, base@, part@),
{
    camino::Utf8Path::new(base).join(part).into_string()
}

proof fn lemma_adjoined_no_question(r: Seq<char>, base: Seq<char>, part: Seq<char>)
    requires
        adjoined(r, base, part),
        no_question(base),
        plain_component(part),
    ensures
        no_question(r),
{
    assert forall|i: int| 0 <= i < r.len() implies r[i] != '?' by {
        if i < base.len() {
            assert(r[i] == base[i]);
        } else if r == base + part {
            assert(r[i] == part[i - base.len()]);
        } else {
            if i > base.len() {
                assert(r[i] == part[i - base.len() - 1]);
            }
        }
    }
}

/// `base` with each of `parts` adjoined in turn. Where `base` holds no `?`
/// and each part is a plain component, that is all the result is.
pub fn search_path(base: &str, parts: &Vec<String>) -> (r: String)
    ensures
        no_question(base@) && (forall|i: int|
            0 <= i < parts.len() ==> plain_component(#[trigger] parts@[i]@)) ==> joined(
            r@,
            base@,
            parts.deep_view(),
        ),
{
    let mut path = String::from_str(base);
    let mut i: usize = 0;
    let ghost good = no_question(base@) && (forall|i: int|
        0 <= i < parts.len() ==> plain_component(#[trigger] parts@[i]@));
    let ghost mut seps: Seq<Seq<char>> = Seq::empty();
    assert(parts.deep_view().subrange(0, 0) =~= Seq::<Seq<char>>::empty());
    while i < parts.len()
        invariant
            i <= parts.len(),
            good == (no_question(base@) && (forall|i: int|
                0 <= i < parts.len() ==> plain_component(#[trigger] parts@[i]@))),
            good ==> no_question(path@),
            good ==> seps.len() == i,
            good ==> forall|k: int| 0 <= k < seps.len() ==> separator(#[trigger] seps[k]),
            good ==> path@ == join_with(base@, parts.deep_view().subrange(0, i as int), seps),
        decreases parts.len() - i,
    {
        let ghost mid = path@;
        path = join_path(path.as_str(), parts[i].as_str());
        proof {
            if good {
                let pv = parts.deep_view();
                let part = parts@[i as int]@;
                assert(pv[i as int] == part);
                assert(plain_component(part));
                lemma_adjoined_no_question(path@, mid, part);
                let sep = if path@ == mid + part {
                    assert(mid + Seq::<char>::empty() + part =~= mid + part);
                    Seq::<char>::empty()
                } else if path@ == mid + seq!['/'] + part {
                    seq!['/']
                } else {
                    seq!['\\']
                };
                let sub = pv.subrange(0, i + 1);
                assert(sub.drop_last() =~= pv.subrange(0, i as int));
                assert(sub.last() == part);
                let next = seps.push(sep);
                assert(next.drop_last() =~= seps);
                assert(path@ == join_with(base@, sub, next));
                seps = next;
            }
        }
        i = i + 1;
    }
    assert(parts.deep_view().subrange(0, i as int) =~= parts.deep_view());
    path
}

pub open spec fn link_kind_text(k: LinkKind) -> Seq<char> {
    match k {
        LinkKind::Dylib => "dylib"@,
        LinkKind::Static => "static"@,
    }
}

/// `cargo::rustc-link-search=<dir>`
pub open spec fn link_search_text(dir: Seq<char>) -> Seq<char> {
    "cargo::rustc-link-search="@ + dir
}

/// `cargo::rustc-link-lib=<kind>[:+verbatim]=<name>`
pub open spec fn link_lib_text(d: DirectiveModel) -> Seq<char> {
    "cargo::rustc-link-lib="@ + link_kind_text(d.kind) + (if d.verbatim {
        ":+verbatim"@
    } else {
        Seq::<char>::empty()
    }) + "="@ + d.name
}

/// The directive that adds `dir` to the linker's search path.
pub fn link_search_line(dir: &str) -> (r: String)
    ensures
        r@ == link_search_text(dir@),
{
    String::from_str("cargo::rustc-link-search=").concat(dir)
}

/// The directive that links the library that `d` names.
pub fn link_lib_line(d: &LinkDirective) -> (r: String)
    ensures
        r@ == link_lib_text(d@),
{
    let mut line = String::from_str("cargo::rustc-link-lib=");
    match d.kind {
        LinkKind::Dylib => line.append("dylib"),
        LinkKind::Static => line.append("static"),
    }
    let ghost head = line@;
    if d.verbatim {
        line.append(":+verbatim");
    } else {
        assert(head + Seq::<char>::empty() =~= head);
    }
    line.append("=");
    line.append(d.name.as_str());
    line
}

proof fn lemma_subdirs_plain(t: Target)
    ensures
        forall|i: int|
            0 <= i < lib_subdirs(t).len() ==> plain_component(#[trigger] lib_subdirs(t)[i]),
{
    reveal_strlit("upstream");
    assert("upstream"@.len() == 8);
    reveal_strlit("lib");
    reveal_strlit("arm64");
    reveal_strlit("arm");
    reveal_strlit("x86");
    reveal_strlit("x86_64");
    reveal_strlit("x64");
    reveal_strlit("w32");
    reveal_strlit("arm64-v8a");
    reveal_strlit("armeabi-v7a");
    match t {
        Target::Linux(a, _) => match a {
            LinuxArch::Aarch64 => assert("arm64"@.len() == 5),
            LinuxArch::Armv7 => assert("arm"@.len() == 3),
            LinuxArch::I686 => assert("x86"@.len() == 3),
            LinuxArch::X86_64 => assert("x86_64"@.len() == 6),
        },
        Target::Windows(a, _) => match a {
            WindowsArch::I686 => assert("x86"@.len() == 3),
            WindowsArch::X86_64 => assert("x64"@.len() == 3),
        },
        Target::Uwp(a, _) => match a {
            UwpArch::I686 => assert("x86"@.len() == 3),
            UwpArch::X86_64 => assert("x64"@.len() == 3),
            UwpArch::Thumbv7a => assert("arm"@.len() == 3),
        },
        Target::Wasm => assert("w32"@.len() == 3),
        Target::Android(a, _) => match a {
            LinuxArch::Aarch64 => assert("arm64-v8a"@.len() == 9),
            LinuxArch::Armv7 => assert("armeabi-v7a"@.len() == 11),
            LinuxArch::I686 => assert("x86"@.len() == 3),
            LinuxArch::X86_64 => assert("x86_64"@.len() == 6),
        },
        _ => assert("lib"@.len() == 3),
    }
}

/// The two directives that link the library `lib_name` found under `api_dir`
/// for the target `triple`: the search directory, `api_dir` with the target's
/// library directory adjoined, then the library itself.
pub fn emit_lib_link(api_dir: &str, triple: &str, lib_name: &str, debug_logging: bool) -> (r:
    Result<Vec<String>, ResolveError>)
    ensures
        match (r, parse_spec(triple@)) {
            (Ok(lines), Ok(t)) => lines.len() == 2 && lines@[1]@ == link_lib_text(
                directive_spec(t, Module::Core, lib_name@, debug_logging),
            ) && (no_question(api_dir@) ==> searches(lines@[0]@, api_dir@, lib_subdirs(t))),
            (Err(e), Err(pe)) => e == pe,
            _ => false,
        },
{
    let t = match parse_triple(triple) {
        Ok(t) => t,
        Err(e) => return Err(e),
    };
    let d = resolve_library(t, Module::Core, lib_name, debug_logging);
    proof {
        lemma_subdirs_plain(t);
    }
    let dir = search_path(api_dir, &d.search_dir);
    assert(forall|i: int|
        0 <= i < d.search_dir.len() ==> #[trigger] d.search_dir@[i]@ == lib_subdirs(t)[i]);
    let mut lines: Vec<String> = Vec::new();
    lines.push(link_search_line(dir.as_str()));
    lines.push(link_lib_line(&d));
    assert(lines@[0]@ == link_search_text(dir@));
    assert(d.search_dir.deep_view() =~= lib_subdirs(t));
    proof {
        if no_question(api_dir@) {
            assert(searches(lines@[0]@, api_dir@, lib_subdirs(t)));
        }
    }
    Ok(lines)
}

/// The directory, below the SDK root, of a module's API.
pub open spec fn module_dir(m: Module) -> Seq<char> {
    match m {
        Module::Core => "core"@,
        Module::Studio => "studio"@,
        Module::Fsbank => "fsbank"@,
    }
}

/// The components, below the SDK root, of the directory that `d` searches.
pub open spec fn sdk_search_parts(d: DirectiveModel) -> Seq<Seq<char>> {
    seq!["api"@, module_dir(d.module)] + d.search_dir
}

/// The Vorbis codec library that the bank builder needs on `t`.
pub open spec fn vorbis_name(t: Target) -> Seq<char> {
    match t {
        Target::Windows(WindowsArch::I686, _) => "libfsbvorbis"@,
        Target::Windows(WindowsArch::X86_64, _) => "libfsbvorbis64"@,
        _ => "fsbvorbis"@,
    }
}

/// `cargo::rustc-link-lib=dylib=<name>`
pub open spec fn dylib_text(name: Seq<char>) -> Seq<char> {
    "cargo::rustc-link-lib=dylib="@ + name
}

/// The directives for the codec libraries that the bank builder links
/// against: its Vorbis build for `t`, then Opus.
pub open spec fn codec_text(t: Target) -> Seq<Seq<char>> {
    seq![dylib_text(vorbis_name(t)), dylib_text("opus"@)]
}

/// `line` adds to the search path a directory that is `root` with `parts`
/// adjoined in turn.
pub open spec fn searches(line: Seq<char>, root: Seq<char>, parts: Seq<Seq<char>>) -> bool {
    exists|dir: Seq<char>| line == link_search_text(dir) && joined(dir, root, parts)
}

/// The directive lines of a plan under the SDK root `root`: for each library
/// its search directory, then the library; then the codec directives where
/// the bank builder is linked.
pub open spec fn plan_lines(
    lines: Seq<Seq<char>>,
    root: Seq<char>,
    plan: Seq<DirectiveModel>,
    codecs: Seq<Seq<char>>,
) -> bool {
    &&& lines.len() == 2 * plan.len() + codecs.len()
    &&& forall|i: int|
        0 <= i < plan.len() ==> lines[2 * i + 1] == link_lib_text(#[trigger] plan[i]) && (no_question(
            root,
        ) ==> searches(lines[2 * i], root, sdk_search_parts(plan[i])))
    &&& forall|j: int|
        0 <= j < codecs.len() ==> lines[2 * plan.len() + j] == #[trigger] codecs[j]
}

/// The codec directives that the bank builder needs on `t`.
pub fn codec_lines(t: Target) -> (r: Vec<String>)
    ensures
        r.deep_view() == codec_text(t),
{
    let vorbis = match t {
        Target::Windows(WindowsArch::I686, _) => "libfsbvorbis",
        Target::Windows(WindowsArch::X86_64, _) => "libfsbvorbis64",
        _ => "fsbvorbis",
    };
    let mut lines: Vec<String> = Vec::new();
    lines.push(String::from_str("cargo::rustc-link-lib=dylib=").concat(vorbis));
    lines.push(String::from_str("cargo::rustc-link-lib=dylib=").concat("opus"));
    assert(lines.deep_view() =~= codec_text(t));
    lines
}

proof fn lemma_sdk_parts_plain(t: Target, d: DirectiveModel)
    requires
        d.search_dir == lib_subdirs(t),
    ensures
        forall|i: int|
            0 <= i < sdk_search_parts(d).len() ==> plain_component(
                #[trigger] sdk_search_parts(d)[i],
            ),
{
    reveal_strlit("api");
    reveal_strlit("core");
    reveal_strlit("studio");
    reveal_strlit("fsbank");
    assert("api"@.len() == 3 && "core"@.len() == 4 && "studio"@.len() == 6);
    assert("fsbank"@.len() == 6);
    lemma_subdirs_plain(t);
    let p = sdk_search_parts(d);
    assert forall|i: int| 0 <= i < p.len() implies plain_component(#[trigger] p[i]) by {
        if i >= 2 {
            assert(p[i] == d.search_dir[i - 2]);
        }
    }
}

/// The directives that link every library that `config` asks for, found in
/// the SDK below `sdk_root`, for the target `triple`. Fails, emitting
/// nothing, where the triple is not supported or a module asked for is not
/// shipped for it.
pub fn emit_plan_lines(sdk_root: &str, triple: &str, config: &BuildConfig) -> (r: Result<
    Vec<String>,
    ResolveError,
>)
    ensures
        match parse_spec(triple@) {
            Err(pe) => r == Err::<Vec<String>, ResolveError>(pe),
            Ok(t) => match plan_spec(
                t,
                config.lib_name@,
                config.debug_logging,
                config.features,
            ) {
                Err(pe) => r == Err::<Vec<String>, ResolveError>(pe),
                Ok(plan) => r is Ok && plan_lines(
                    r->Ok_0.deep_view(),
                    sdk_root@,
                    plan,
                    if config.features.fsbank {
                        codec_text(t)
                    } else {
                        Seq::<Seq<char>>::empty()
                    },
                ),
            },
        },
{
    let t = match parse_triple(triple) {
        Ok(t) => t,
        Err(e) => return Err(e),
    };
    let plan = match resolve_link(t, config) {
        Ok(p) => p,
        Err(e) => return Err(e),
    };
    let ghost pv = directives_view(plan@);
    let ghost root = sdk_root@;
    let mut lines: Vec<String> = Vec::new();
    let mut i: usize = 0;
    while i < plan.len()
        invariant
            i <= plan.len(),
            pv == directives_view(plan@),
            plan_spec(t, config.lib_name@, config.debug_logging, config.features) == Ok::<
                Seq<DirectiveModel>,
                ResolveError,
            >(pv),
            root == sdk_root@,
            lines.len() == 2 * i,
            forall|k: int|
                0 <= k < i ==> lines.deep_view()[2 * k + 1] == link_lib_text(#[trigger] pv[k]) && (
                no_question(root) ==> searches(lines.deep_view()[2 * k], root, sdk_search_parts(pv[k]))),
        decreases plan.len() - i,
    {
        let d = &plan[i];
        assert(pv[i as int] == d@);
        let mut parts: Vec<String> = Vec::new();
        parts.push(String::from_str("api"));
        parts.push(
            String::from_str(
                match d.module {
                    Module::Core => "core",
                    Module::Studio => "studio",
                    Module::Fsbank => "fsbank",
                },
            ),
        );
        let mut j: usize = 0;
        while j < d.search_dir.len()
            invariant
                j <= d.search_dir.len(),
                parts.deep_view() == seq!["api"@, module_dir(d.module)] + d.search_dir.deep_view().subrange(
                    0,
                    j as int,
                ),
            decreases d.search_dir.len() - j,
        {
            let ghost before = parts.deep_view();
            parts.push(d.search_dir[j].clone());
            assert(parts.deep_view() =~= before.push(d.search_dir.deep_view()[j as int]));
            assert(seq!["api"@, module_dir(d.module)] + d.search_dir.deep_view().subrange(0, j + 1)
                =~= before.push(d.search_dir.deep_view()[j as int]));
            j = j + 1;
        }
        assert(d.search_dir.deep_view().subrange(0, j as int) =~= d.search_dir.deep_view());
        proof {
            lemma_plan_search_dirs(t, config.lib_name@, config.debug_logging, config.features);
            assert(pv[i as int].search_dir == lib_subdirs(t));
            lemma_sdk_parts_plain(t, d@);
            assert(parts.deep_view() =~= sdk_search_parts(d@));
            assert forall|k: int| 0 <= k < parts.len() implies plain_component(
                #[trigger] parts@[k]@,
            ) by {
                assert(parts@[k]@ == parts.deep_view()[k]);
            }
        }
        let dir = search_path(sdk_root, &parts);
        let ghost before = lines.deep_view();
        lines.push(link_search_line(dir.as_str()));
        lines.push(link_lib_line(d));
        proof {
            assert(lines.deep_view() =~= before.push(link_search_text(dir@)).push(link_lib_text(d@)));
            assert forall|k: int|
                0 <= k < i + 1 implies lines.deep_view()[2 * k + 1] == link_lib_text(
                #[trigger] pv[k],
            ) && (no_question(root) ==> searches(lines.deep_view()[2 * k], root, sdk_search_parts(pv[k]))) by {
                if k < i {
                    assert(lines.deep_view()[2 * k + 1] == before[2 * k + 1]);
                    assert(lines.deep_view()[2 * k] == before[2 * k]);
                } else {
                    assert(lines.deep_view()[2 * k] == link_search_text(dir@));
                    assert(lines.deep_view()[2 * k + 1] == link_lib_text(d@));
                    if no_question(root) {
                        assert(joined(dir@, root, sdk_search_parts(pv[k])));
                        assert(searches(lines.deep_view()[2 * k], root, sdk_search_parts(pv[k])));
                    }
                }
            }
        }
        i = i + 1;
    }
    let ghost body = lines.deep_view();
    if config.features.fsbank {
        let codecs = codec_lines(t);
        let mut c: usize = 0;
        while c < codecs.len()
            invariant
                c <= codecs.len(),
                codecs.deep_view() == codec_text(t),
                lines.deep_view() == body + codecs.deep_view().subrange(0, c as int),
            decreases codecs.len() - c,
        {
            let ghost prev = lines.deep_view();
            lines.push(codecs[c].clone());
            assert(lines.deep_view() =~= prev.push(codecs.deep_view()[c as int]));
            assert(body + codecs.deep_view().subrange(0, c + 1) =~= prev.push(
                codecs.deep_view()[c as int],
            ));
            c = c + 1;
        }
        assert(codecs.deep_view().subrange(0, c as int) =~= codec_text(t));
    } else {
        assert(body + Seq::<Seq<char>>::empty() =~= body);
    }
    proof {
        let codecs = if config.features.fsbank {
            codec_text(t)
        } else {
            Seq::<Seq<char>>::empty()
        };
        let lv = lines.deep_view();
        assert(lv == body + codecs);
        assert(body.len() == 2 * pv.len());
        assert forall|j: int| 0 <= j < codecs.len() implies lv[2 * pv.len() + j] == #[trigger] codecs[j] by {
            assert(lv[body.len() + j] == codecs[j]);
        }
        assert(pv.len() == plan@.len());
        assert forall|k: int|
            0 <= k < pv.len() implies lv[2 * k + 1] == link_lib_text(#[trigger] pv[k]) && (
            no_question(root) ==> searches(lv[2 * k], root, sdk_search_parts(pv[k]))) by {
            assert(lv[2 * k + 1] == body[2 * k + 1]);
            assert(lv[2 * k] == body[2 * k]);
        }
        assert(plan_lines(lv, root, pv, codecs));
    }
    Ok(lines)
}

/// Two emissions of the same plan under the same root agree line for line:
/// the same link and codec lines, and search lines that both name the root
/// with the same components adjoined in the same order.
pub proof fn lemma_emission_deterministic(
    root: Seq<char>,
    plan: Seq<DirectiveModel>,
    codecs: Seq<Seq<char>>,
    a: Seq<Seq<char>>,
    b: Seq<Seq<char>>,
)
    requires
        plan_lines(a, root, plan, codecs),
        plan_lines(b, root, plan, codecs),
    ensures
        a.len() == b.len(),
        forall|i: int| 0 <= i < plan.len() ==> #[trigger] a[2 * i + 1] == b[2 * i + 1],
        forall|i: int|
            0 <= i < plan.len() && no_question(root) ==> searches(
                #[trigger] a[2 * i],
                root,
                sdk_search_parts(plan[i]),
            ) && searches(b[2 * i], root, sdk_search_parts(plan[i])),
        forall|j: int|
            0 <= j < codecs.len() ==> #[trigger] a[2 * plan.len() + j] == b[2 * plan.len() + j],
{
    assert forall|i: int| 0 <= i < plan.len() implies #[trigger] a[2 * i + 1] == b[2 * i + 1] by {
        assert(a[2 * i + 1] == link_lib_text(plan[i]));
    }
    assert forall|i: int|
        0 <= i < plan.len() && no_question(root) implies searches(
            #[trigger] a[2 * i],
            root,
            sdk_search_parts(plan[i]),
        ) && searches(b[2 * i], root, sdk_search_parts(plan[i])) by {
        assert(a[2 * i + 1] == link_lib_text(plan[i]));
    }
    assert forall|j: int| 0 <= j < codecs.len() implies #[trigger] a[2 * plan.len() + j] == b[2
        * plan.len() + j] by {
        assert(a[2 * plan.len() + j] == codecs[j]);
    }
}

/// The logging flag leaves the emitted search lines as they are (the same
/// components below the same root) and changes a link line only by the mark
/// `L` after the module's name, where a logging build exists.
pub proof fn lemma_emission_debug(
    t: Target,
    root: Seq<char>,
    base: Seq<char>,
    f: FeatureSet,
    codecs: Seq<Seq<char>>,
    on: Seq<Seq<char>>,
    off: Seq<Seq<char>>,
)
    requires
        plan_spec(t, base, true, f) is Ok,
        plan_lines(on, root, plan_spec(t, base, true, f)->Ok_0, codecs),
        plan_lines(off, root, plan_spec(t, base, false, f)->Ok_0, codecs),
    ensures
        on.len() == off.len(),
        forall|i: int|
            #![trigger on[2 * i]]
            0 <= i < plan_spec(t, base, true, f)->Ok_0.len() ==> {
                let d_on = plan_spec(t, base, true, f)->Ok_0[i];
                let d_off = plan_spec(t, base, false, f)->Ok_0[i];
                &&& sdk_search_parts(d_on) == sdk_search_parts(d_off)
                &&& (no_question(root) ==> searches(on[2 * i], root, sdk_search_parts(d_on))
                    && searches(off[2 * i], root, sdk_search_parts(d_on)))
                &&& on[2 * i + 1] == link_lib_text(d_on)
                &&& off[2 * i + 1] == link_lib_text(d_off)
                &&& d_on.kind == d_off.kind && d_on.verbatim == d_off.verbatim
                &&& d_off.name == module_stem(d_on.module, base) + name_suffix(t)
                &&& d_on.name == module_stem(d_on.module, base) + (if debug_applies(t, d_on.module) {
                    "L"@
                } else {
                    Seq::<char>::empty()
                }) + name_suffix(t)
            },
{
    lemma_debug_mark(t, base, f);
    let pon = plan_spec(t, base, true, f)->Ok_0;
    let poff = plan_spec(t, base, false, f)->Ok_0;
    assert forall|i: int| #![trigger on[2 * i]] 0 <= i < pon.len() implies {
        &&& sdk_search_parts(pon[i]) == sdk_search_parts(poff[i])
        &&& (no_question(root) ==> searches(on[2 * i], root, sdk_search_parts(pon[i])) && searches(
            off[2 * i],
            root,
            sdk_search_parts(pon[i]),
        ))
        &&& on[2 * i + 1] == link_lib_text(pon[i])
        &&& off[2 * i + 1] == link_lib_text(poff[i])
    } by {
        assert(pon[i].module == poff[i].module);
        assert(on[2 * i + 1] == link_lib_text(pon[i]));
        assert(off[2 * i + 1] == link_lib_text(poff[i]));
    }
}

} // verus!
