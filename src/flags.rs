//! Compiler flags and allowlist patterns for the binding generator.
use vstd::prelude::*;

use crate::link::FeatureSet;
use crate::target::Target;

verus! {

/// `s` with each backslash doubled, as a regular expression reads it literally.
pub open spec fn escaped(s: Seq<char>) -> Seq<char>
    decreases s.len(),
{
    if s.len() == 0 {
        Seq::<char>::empty()
    } else {
        escaped(s.drop_last()) + if s.last() == '\\' {
            "\\\\"@
        } else {
            seq![s.last()]
        }
    }
}

/// Doubles each backslash of `s`.
pub fn escape_backslashes(s: &str) -> (r: String)
    ensures
        r@ == escaped(s@),
{
    let n = s.unicode_len();
    let mut out = String::new();
    let mut i: usize = 0;
    while i < n
        invariant
            n == s@.len(),
            i <= n,
            out@ == escaped(s@.subrange(0, i as int)),
        decreases n - i,
    {
        let c = s.get_char(i);
        assert(s@.subrange(0, i + 1).drop_last() =~= s@.subrange(0, i as int));
        if c == '\\' {
            out.append("\\\\");
        } else {
            let one = s.substring_char(i, i + 1);
            assert(one@ =~= seq![c]);
            out.append(one);
        }
        i = i + 1;
    }
    assert(s@.subrange(0, n as int) =~= s@);
    out
}

/// The pattern that admits every file below the directory `dir`.
pub open spec fn dir_pattern(dir: Seq<char>) -> Seq<char> {
    escaped(dir) + "[\\\\/].*"@
}

/// The pattern that admits the crate's own `src/bindgen.h` below `dir`.
pub open spec fn header_pattern(dir: Seq<char>) -> Seq<char> {
    escaped(dir) + "[\\\\/]src[\\\\/]bindgen\\.h"@
}

/// The allowlist pattern for every file below `dir`.
pub fn allowlist_dir_pattern(dir: &str) -> (r: String)
    ensures
        r@ == dir_pattern(dir@),
{
    escape_backslashes(dir).concat("[\\\\/].*")
}

/// The allowlist pattern for `src/bindgen.h` below `dir`.
pub fn allowlist_header_pattern(dir: &str) -> (r: String)
    ensures
        r@ == header_pattern(dir@),
{
    escape_backslashes(dir).concat("[\\\\/]src[\\\\/]bindgen\\.h")
}

pub open spec fn include_text(dir: Seq<char>) -> Seq<char> {
    "-I"@ + dir
}

/// The defines that the web target always needs for the SDK's exports.
pub open spec fn target_defines(t: Target) -> Seq<Seq<char>> {
    if t is Wasm {
        seq!["-DDLL_EXPORTS"@, "-DF_USE_ATTRIBUTE"@]
    } else {
        Seq::<Seq<char>>::empty()
    }
}

/// `-I<dir>` for each extra directory, then for the include directory, then
/// the target's defines.
pub open spec fn bindings_args_spec(inc: Seq<char>, extra: Seq<Seq<char>>, t: Target) -> Seq<
    Seq<char>,
> {
    extra.map_values(|d: Seq<char>| include_text(d)) + seq![include_text(inc)] + target_defines(t)
}

/// The flags for each module's headers: `-I` for the core and for each
/// optional module asked for, one define per optional module, then the
/// target's defines.
pub open spec fn compile_flags_spec(
    core: Seq<char>,
    studio: Seq<char>,
    fsbank: Seq<char>,
    f: FeatureSet,
    t: Target,
) -> Seq<Seq<char>> {
    seq![include_text(core)] + (if f.studio {
        seq![include_text(studio)]
    } else {
        Seq::<Seq<char>>::empty()
    }) + (if f.fsbank {
        seq![include_text(fsbank)]
    } else {
        Seq::<Seq<char>>::empty()
    }) + (if f.studio {
        seq!["-D_BINDGEN_STUDIO_"@]
    } else {
        Seq::<Seq<char>>::empty()
    }) + (if f.fsbank {
        seq!["-D_BINDGEN_FSBANK_"@]
    } else {
        Seq::<Seq<char>>::empty()
    }) + target_defines(t)
}

/// `-I<dir>`
pub fn include_flag(dir: &str) -> (r: String)
    ensures
        r@ == include_text(dir@),
{
    String::from_str("-I").concat(dir)
}

fn push_target_defines(args: &mut Vec<String>, t: Target)
    ensures
        final(args).deep_view() == old(args).deep_view() + target_defines(t),
{
    let ghost before = args.deep_view();
    if matches!(t, Target::Wasm) {
        args.push(String::from_str("-DDLL_EXPORTS"));
        args.push(String::from_str("-DF_USE_ATTRIBUTE"));
    }
    assert(args.deep_view() =~= before + target_defines(t));
}

/// The compiler arguments for generating bindings to the headers in
/// `include_dir`, which include headers from `extra_include_dirs`.
pub fn bindings_clang_args(include_dir: &str, extra_include_dirs: &Vec<String>, t: Target) -> (r:
    Vec<String>)
    ensures
        r.deep_view() == bindings_args_spec(include_dir@, extra_include_dirs.deep_view(), t),
{
    let mut args: Vec<String> = Vec::new();
    let mut i: usize = 0;
    while i < extra_include_dirs.len()
        invariant
            i <= extra_include_dirs.len(),
            args.deep_view() == extra_include_dirs.deep_view().subrange(0, i as int).map_values(
                |d: Seq<char>| include_text(d),
            ),
        decreases extra_include_dirs.len() - i,
    {
        let ghost before = args.deep_view();
        args.push(include_flag(extra_include_dirs[i].as_str()));
        assert(args.deep_view() =~= before.push(include_text(extra_include_dirs.deep_view()[i as int])));
        assert(args.deep_view() =~= extra_include_dirs.deep_view().subrange(
            0,
            i + 1,
        ).map_values(|d: Seq<char>| include_text(d)));
        i = i + 1;
    }
    assert(extra_include_dirs.deep_view().subrange(0, i as int) =~= extra_include_dirs.deep_view());
    let ghost before = args.deep_view();
    args.push(include_flag(include_dir));
    assert(args.deep_view() =~= before + seq![include_text(include_dir@)]);
    push_target_defines(&mut args, t);
    args
}

/// The compiler flags for the headers of the core module and of each optional
/// module asked for; `core_inc`, `studio_inc` and `fsbank_inc` are the
/// modules' include directories.
pub fn compile_flags(core_inc: &str, studio_inc: &str, fsbank_inc: &str, f: FeatureSet, t: Target) -> (r:
    Vec<String>)
    ensures
        r.deep_view() == compile_flags_spec(core_inc@, studio_inc@, fsbank_inc@, f, t),
{
    let mut args: Vec<String> = Vec::new();
    args.push(include_flag(core_inc));
    if f.studio {
        args.push(include_flag(studio_inc));
    }
    if f.fsbank {
        args.push(include_flag(fsbank_inc));
    }
    if f.studio {
        args.push(String::from_str("-D_BINDGEN_STUDIO_"));
    }
    if f.fsbank {
        args.push(String::from_str("-D_BINDGEN_FSBANK_"));
    }
    let ghost before = args.deep_view();
    assert(before =~= compile_flags_spec(core_inc@, studio_inc@, fsbank_inc@, f, t).subrange(
        0,
        before.len() as int,
    ));
    push_target_defines(&mut args, t);
    assert(args.deep_view() =~= compile_flags_spec(core_inc@, studio_inc@, fsbank_inc@, f, t));
    args
}

/// The compiler flags depend on their inputs alone: two computations from the
/// same directories, modules and target give the same flags in the same order.
pub proof fn lemma_flags_deterministic(
    core: Seq<char>,
    studio: Seq<char>,
    fsbank: Seq<char>,
    f: FeatureSet,
    t: Target,
    a1: Vec<String>,
    a2: Vec<String>,
)
    requires
        a1.deep_view() == compile_flags_spec(core, studio, fsbank, f, t),
        a2.deep_view() == compile_flags_spec(core, studio, fsbank, f, t),
    ensures
        a1.deep_view() == a2.deep_view(),
{
}

} // verus!
