//! The closed set of supported targets, their triples, and the triple parser.
use vstd::prelude::*;

use crate::error::ResolveError;
use crate::text::{
    dash_free, join_dash, lemma_join_split, lemma_split_join, split_dash, split_fields, str_eq,
};

verus! {

/// Architectures of desktop Linux and Android.
#[derive(Clone, Copy, Debug, PartialEq, Eq, Structural)]
pub enum LinuxArch {
    Aarch64,
    Armv7,
    I686,
    X86_64,
}

/// ABIs of desktop Linux.
#[derive(Clone, Copy, Debug, PartialEq, Eq, Structural)]
pub enum GnuAbi {
    Gnu,
    Gnueabihf,
}

/// Architectures of desktop Windows.
#[derive(Clone, Copy, Debug, PartialEq, Eq, Structural)]
pub enum WindowsArch {
    I686,
    X86_64,
}

/// Architectures of the Universal Windows Platform.
#[derive(Clone, Copy, Debug, PartialEq, Eq, Structural)]
pub enum UwpArch {
    I686,
    X86_64,
    Thumbv7a,
}

/// ABIs of Windows and of the Universal Windows Platform.
#[derive(Clone, Copy, Debug, PartialEq, Eq, Structural)]
pub enum WindowsAbi {
    Msvc,
    Gnu,
}

/// Architectures of macOS and of the iOS and tvOS simulators.
#[derive(Clone, Copy, Debug, PartialEq, Eq, Structural)]
pub enum AppleArch {
    Aarch64,
    X86_64,
}

/// Architectures of iOS devices: two spellings of 64-bit ARM.
#[derive(Clone, Copy, Debug, PartialEq, Eq, Structural)]
pub enum IosDeviceArch {
    Aarch64,
    Arm64e,
}

/// ABIs of Android.
#[derive(Clone, Copy, Debug, PartialEq, Eq, Structural)]
pub enum AndroidAbi {
    Android,
    Androideabi,
}

/// A supported target: every value stands for exactly one recognized triple.
#[derive(Clone, Copy, Debug, PartialEq, Eq, Structural)]
pub enum Target {
    /// `<arch>-unknown-linux-<abi>`
    Linux(LinuxArch, GnuAbi),
    /// `<arch>-pc-windows-<abi>`
    Windows(WindowsArch, WindowsAbi),
    /// `<arch>-uwp-windows-<abi>`
    Uwp(UwpArch, WindowsAbi),
    /// `<arch>-apple-darwin`
    MacOs(AppleArch),
    /// `<arch>-apple-ios`
    IosDevice(IosDeviceArch),
    /// `<arch>-apple-ios-sim`
    IosSimulator(AppleArch),
    /// `arm64e-apple-tvos`
    TvosDevice,
    /// `<arch>-apple-tvos-sim`
    TvosSimulator(AppleArch),
    /// `wasm32-unknown-emscripten`
    Wasm,
    /// `<arch>-linux-<abi>`
    Android(LinuxArch, AndroidAbi),
}

/// The SDK's modules: the core engine and the two optional ones.
#[derive(Clone, Copy, Debug, PartialEq, Eq, Structural)]
pub enum Module {
    Core,
    /// The extended (studio) module.
    Studio,
    /// The bank-building module.
    Fsbank,
}

pub open spec fn linux_arch_token(a: LinuxArch) -> Seq<char> {
    match a {
        LinuxArch::Aarch64 => "aarch64"@,
        LinuxArch::Armv7 => "armv7"@,
        LinuxArch::I686 => "i686"@,
        LinuxArch::X86_64 => "x86_64"@,
    }
}

pub open spec fn gnu_abi_token(a: GnuAbi) -> Seq<char> {
    match a {
        GnuAbi::Gnu => "gnu"@,
        GnuAbi::Gnueabihf => "gnueabihf"@,
    }
}

pub open spec fn windows_arch_token(a: WindowsArch) -> Seq<char> {
    match a {
        WindowsArch::I686 => "i686"@,
        WindowsArch::X86_64 => "x86_64"@,
    }
}

pub open spec fn uwp_arch_token(a: UwpArch) -> Seq<char> {
    match a {
        UwpArch::I686 => "i686"@,
        UwpArch::X86_64 => "x86_64"@,
        UwpArch::Thumbv7a => "thumbv7a"@,
    }
}

pub open spec fn windows_abi_token(a: WindowsAbi) -> Seq<char> {
    match a {
        WindowsAbi::Msvc => "msvc"@,
        WindowsAbi::Gnu => "gnu"@,
    }
}

pub open spec fn apple_arch_token(a: AppleArch) -> Seq<char> {
    match a {
        AppleArch::Aarch64 => "aarch64"@,
        AppleArch::X86_64 => "x86_64"@,
    }
}

pub open spec fn ios_device_arch_token(a: IosDeviceArch) -> Seq<char> {
    match a {
        IosDeviceArch::Aarch64 => "aarch64"@,
        IosDeviceArch::Arm64e => "arm64e"@,
    }
}

pub open spec fn android_abi_token(a: AndroidAbi) -> Seq<char> {
    match a {
        AndroidAbi::Android => "android"@,
        AndroidAbi::Androideabi => "androideabi"@,
    }
}

/// The fields of the triple that names `t`.
pub open spec fn target_fields(t: Target) -> Seq<Seq<char>> {
    match t {
        Target::Linux(a, b) => seq![linux_arch_token(a), "unknown"@, "linux"@, gnu_abi_token(b)],
        Target::Windows(a, b) => seq![
            windows_arch_token(a),
            "pc"@,
            "windows"@,
            windows_abi_token(b),
        ],
        Target::Uwp(a, b) => seq![uwp_arch_token(a), "uwp"@, "windows"@, windows_abi_token(b)],
        Target::MacOs(a) => seq![apple_arch_token(a), "apple"@, "darwin"@],
        Target::IosDevice(a) => seq![ios_device_arch_token(a), "apple"@, "ios"@],
        Target::IosSimulator(a) => seq![apple_arch_token(a), "apple"@, "ios"@, "sim"@],
        Target::TvosDevice => seq!["arm64e"@, "apple"@, "tvos"@],
        Target::TvosSimulator(a) => seq![apple_arch_token(a), "apple"@, "tvos"@, "sim"@],
        Target::Wasm => seq!["wasm32"@, "unknown"@, "emscripten"@],
        Target::Android(a, b) => seq![linux_arch_token(a), "linux"@, android_abi_token(b)],
    }
}

/// The triple that names `t`.
pub open spec fn triple_text(t: Target) -> Seq<char> {
    join_dash(target_fields(t))
}

pub open spec fn linux_arch_of(f: Seq<char>) -> Option<LinuxArch> {
    if f == "aarch64"@ {
        Some(LinuxArch::Aarch64)
    } else if f == "armv7"@ {
        Some(LinuxArch::Armv7)
    } else if f == "i686"@ {
        Some(LinuxArch::I686)
    } else if f == "x86_64"@ {
        Some(LinuxArch::X86_64)
    } else {
        None
    }
}

pub open spec fn gnu_abi_of(f: Seq<char>) -> Option<GnuAbi> {
    if f == "gnu"@ {
        Some(GnuAbi::Gnu)
    } else if f == "gnueabihf"@ {
        Some(GnuAbi::Gnueabihf)
    } else {
        None
    }
}

pub open spec fn windows_arch_of(f: Seq<char>) -> Option<WindowsArch> {
    if f == "i686"@ {
        Some(WindowsArch::I686)
    } else if f == "x86_64"@ {
        Some(WindowsArch::X86_64)
    } else {
        None
    }
}

pub open spec fn uwp_arch_of(f: Seq<char>) -> Option<UwpArch> {
    if f == "i686"@ {
        Some(UwpArch::I686)
    } else if f == "x86_64"@ {
        Some(UwpArch::X86_64)
    } else if f == "thumbv7a"@ {
        Some(UwpArch::Thumbv7a)
    } else {
        None
    }
}

pub open spec fn windows_abi_of(f: Seq<char>) -> Option<WindowsAbi> {
    if f == "msvc"@ {
        Some(WindowsAbi::Msvc)
    } else if f == "gnu"@ {
        Some(WindowsAbi::Gnu)
    } else {
        None
    }
}

pub open spec fn apple_arch_of(f: Seq<char>) -> Option<AppleArch> {
    if f == "aarch64"@ {
        Some(AppleArch::Aarch64)
    } else if f == "x86_64"@ {
        Some(AppleArch::X86_64)
    } else {
        None
    }
}

pub open spec fn ios_device_arch_of(f: Seq<char>) -> Option<IosDeviceArch> {
    if f == "aarch64"@ {
        Some(IosDeviceArch::Aarch64)
    } else if f == "arm64e"@ {
        Some(IosDeviceArch::Arm64e)
    } else {
        None
    }
}

pub open spec fn android_abi_of(f: Seq<char>) -> Option<AndroidAbi> {
    if f == "android"@ {
        Some(AndroidAbi::Android)
    } else if f == "androideabi"@ {
        Some(AndroidAbi::Androideabi)
    } else {
        None
    }
}

/// The target whose triple has exactly these fields, if one is supported.
pub open spec fn target_of_fields(f: Seq<Seq<char>>) -> Option<Target> {
    if f.len() == 4 && f[1] == "unknown"@ && f[2] == "linux"@ {
        match (linux_arch_of(f[0]), gnu_abi_of(f[3])) {
            (Some(a), Some(b)) => Some(Target::Linux(a, b)),
            _ => None,
        }
    } else if f.len() == 4 && f[1] == "pc"@ && f[2] == "windows"@ {
        match (windows_arch_of(f[0]), windows_abi_of(f[3])) {
            (Some(a), Some(b)) => Some(Target::Windows(a, b)),
            _ => None,
        }
    } else if f.len() == 4 && f[1] == "uwp"@ && f[2] == "windows"@ {
        match (uwp_arch_of(f[0]), windows_abi_of(f[3])) {
            (Some(a), Some(b)) => Some(Target::Uwp(a, b)),
            _ => None,
        }
    } else if f.len() == 3 && f[1] == "apple"@ && f[2] == "darwin"@ {
        match apple_arch_of(f[0]) {
            Some(a) => Some(Target::MacOs(a)),
            None => None,
        }
    } else if f.len() == 3 && f[1] == "apple"@ && f[2] == "ios"@ {
        match ios_device_arch_of(f[0]) {
            Some(a) => Some(Target::IosDevice(a)),
            None => None,
        }
    } else if f.len() == 4 && f[1] == "apple"@ && f[2] == "ios"@ && f[3] == "sim"@ {
        match apple_arch_of(f[0]) {
            Some(a) => Some(Target::IosSimulator(a)),
            None => None,
        }
    } else if f.len() == 3 && f[0] == "arm64e"@ && f[1] == "apple"@ && f[2] == "tvos"@ {
        Some(Target::TvosDevice)
    } else if f.len() == 4 && f[1] == "apple"@ && f[2] == "tvos"@ && f[3] == "sim"@ {
        match apple_arch_of(f[0]) {
            Some(a) => Some(Target::TvosSimulator(a)),
            None => None,
        }
    } else if f.len() == 3 && f[0] == "wasm32"@ && f[1] == "unknown"@ && f[2] == "emscripten"@ {
        Some(Target::Wasm)
    } else if f.len() == 3 && f[1] == "linux"@ {
        match (linux_arch_of(f[0]), android_abi_of(f[2])) {
            (Some(a), Some(b)) => Some(Target::Android(a, b)),
            _ => None,
        }
    } else {
        None
    }
}

/// What parsing the triple `s` gives.
pub open spec fn parse_spec(s: Seq<char>) -> Result<Target, ResolveError> {
    match target_of_fields(split_dash(s)) {
        Some(t) => Ok(t),
        None => Err(ResolveError::UnrecognizedTriple),
    }
}

fn linux_arch_from(f: &str) -> (r: Option<LinuxArch>)
    ensures
        r == linux_arch_of(f@),
{
    if str_eq(f, "aarch64") {
        Some(LinuxArch::Aarch64)
    } else if str_eq(f, "armv7") {
        Some(LinuxArch::Armv7)
    } else if str_eq(f, "i686") {
        Some(LinuxArch::I686)
    } else if str_eq(f, "x86_64") {
        Some(LinuxArch::X86_64)
    } else {
        None
    }
}

fn gnu_abi_from(f: &str) -> (r: Option<GnuAbi>)
    ensures
        r == gnu_abi_of(f@),
{
    if str_eq(f, "gnu") {
        Some(GnuAbi::Gnu)
    } else if str_eq(f, "gnueabihf") {
        Some(GnuAbi::Gnueabihf)
    } else {
        None
    }
}

fn windows_arch_from(f: &str) -> (r: Option<WindowsArch>)
    ensures
        r == windows_arch_of(f@),
{
    if str_eq(f, "i686") {
        Some(WindowsArch::I686)
    } else if str_eq(f, "x86_64") {
        Some(WindowsArch::X86_64)
    } else {
        None
    }
}

fn uwp_arch_from(f: &str) -> (r: Option<UwpArch>)
    ensures
        r == uwp_arch_of(f@),
{
    if str_eq(f, "i686") {
        Some(UwpArch::I686)
    } else if str_eq(f, "x86_64") {
        Some(UwpArch::X86_64)
    } else if str_eq(f, "thumbv7a") {
        Some(UwpArch::Thumbv7a)
    } else {
        None
    }
}

fn windows_abi_from(f: &str) -> (r: Option<WindowsAbi>)
    ensures
        r == windows_abi_of(f@),
{
    if str_eq(f, "msvc") {
        Some(WindowsAbi::Msvc)
    } else if str_eq(f, "gnu") {
        Some(WindowsAbi::Gnu)
    } else {
        None
    }
}

fn apple_arch_from(f: &str) -> (r: Option<AppleArch>)
    ensures
        r == apple_arch_of(f@),
{
    if str_eq(f, "aarch64") {
        Some(AppleArch::Aarch64)
    } else if str_eq(f, "x86_64") {
        Some(AppleArch::X86_64)
    } else {
        None
    }
}

fn ios_device_arch_from(f: &str) -> (r: Option<IosDeviceArch>)
    ensures
        r == ios_device_arch_of(f@),
{
    if str_eq(f, "aarch64") {
        Some(IosDeviceArch::Aarch64)
    } else if str_eq(f, "arm64e") {
        Some(IosDeviceArch::Arm64e)
    } else {
        None
    }
}

fn android_abi_from(f: &str) -> (r: Option<AndroidAbi>)
    ensures
        r == android_abi_of(f@),
{
    if str_eq(f, "android") {
        Some(AndroidAbi::Android)
    } else if str_eq(f, "androideabi") {
        Some(AndroidAbi::Androideabi)
    } else {
        None
    }
}

/// Parses a target triple. Only the supported triples are recognized: any
/// other string is `UnrecognizedTriple`, never a nearby target.
pub fn parse_triple(s: &str) -> (r: Result<Target, ResolveError>)
    ensures
        r == parse_spec(s@),
{
    let fields = split_fields(s);
    let ghost f = fields.deep_view();
    let n = fields.len();
    if n != 3 && n != 4 {
        return Err(ResolveError::UnrecognizedTriple);
    }
    assert(fields[0]@ == f[0] && fields[1]@ == f[1] && fields[2]@ == f[2]);
    let f0 = fields[0].as_str();
    let f1 = fields[1].as_str();
    let f2 = fields[2].as_str();
    let found = if n == 4 {
        assert(fields[3]@ == f[3]);
        let f3 = fields[3].as_str();
        if str_eq(f1, "unknown") && str_eq(f2, "linux") {
            match (linux_arch_from(f0), gnu_abi_from(f3)) {
                (Some(a), Some(b)) => Some(Target::Linux(a, b)),
                _ => None,
            }
        } else if str_eq(f1, "pc") && str_eq(f2, "windows") {
            match (windows_arch_from(f0), windows_abi_from(f3)) {
                (Some(a), Some(b)) => Some(Target::Windows(a, b)),
                _ => None,
            }
        } else if str_eq(f1, "uwp") && str_eq(f2, "windows") {
            match (uwp_arch_from(f0), windows_abi_from(f3)) {
                (Some(a), Some(b)) => Some(Target::Uwp(a, b)),
                _ => None,
            }
        } else if str_eq(f1, "apple") && str_eq(f2, "ios") && str_eq(f3, "sim") {
            match apple_arch_from(f0) {
                Some(a) => Some(Target::IosSimulator(a)),
                None => None,
            }
        } else if str_eq(f1, "apple") && str_eq(f2, "tvos") && str_eq(f3, "sim") {
            match apple_arch_from(f0) {
                Some(a) => Some(Target::TvosSimulator(a)),
                None => None,
            }
        } else {
            None
        }
    } else {
        if str_eq(f1, "apple") && str_eq(f2, "darwin") {
            match apple_arch_from(f0) {
                Some(a) => Some(Target::MacOs(a)),
                None => None,
            }
        } else if str_eq(f1, "apple") && str_eq(f2, "ios") {
            match ios_device_arch_from(f0) {
                Some(a) => Some(Target::IosDevice(a)),
                None => None,
            }
        } else if str_eq(f0, "arm64e") && str_eq(f1, "apple") && str_eq(f2, "tvos") {
            Some(Target::TvosDevice)
        } else if str_eq(f0, "wasm32") && str_eq(f1, "unknown") && str_eq(f2, "emscripten") {
            Some(Target::Wasm)
        } else if str_eq(f1, "linux") {
            match (linux_arch_from(f0), android_abi_from(f2)) {
                (Some(a), Some(b)) => Some(Target::Android(a, b)),
                _ => None,
            }
        } else {
            None
        }
    };
    assert(found == target_of_fields(f));
    match found {
        Some(t) => Ok(t),
        None => Err(ResolveError::UnrecognizedTriple),
    }
}

proof fn lemma_linux_arch_token(a: LinuxArch)
    ensures
        linux_arch_of(linux_arch_token(a)) == Some(a),
        dash_free(linux_arch_token(a)),
{
    reveal_strlit("aarch64");
    reveal_strlit("armv7");
    reveal_strlit("i686");
    reveal_strlit("x86_64");
    assert("aarch64"@.len() == 7 && "armv7"@.len() == 5 && "i686"@.len() == 4);
    assert("x86_64"@.len() == 6);
}

proof fn lemma_gnu_abi_token(b: GnuAbi)
    ensures
        gnu_abi_of(gnu_abi_token(b)) == Some(b),
        dash_free(gnu_abi_token(b)),
{
    reveal_strlit("gnu");
    reveal_strlit("gnueabihf");
    assert("gnu"@.len() == 3 && "gnueabihf"@.len() == 9);
}

proof fn lemma_windows_arch_token(a: WindowsArch)
    ensures
        windows_arch_of(windows_arch_token(a)) == Some(a),
        dash_free(windows_arch_token(a)),
{
    reveal_strlit("i686");
    reveal_strlit("x86_64");
    assert("i686"@.len() == 4 && "x86_64"@.len() == 6);
}

proof fn lemma_uwp_arch_token(a: UwpArch)
    ensures
        uwp_arch_of(uwp_arch_token(a)) == Some(a),
        dash_free(uwp_arch_token(a)),
{
    reveal_strlit("i686");
    reveal_strlit("x86_64");
    reveal_strlit("thumbv7a");
    assert("i686"@.len() == 4 && "x86_64"@.len() == 6 && "thumbv7a"@.len() == 8);
}

proof fn lemma_windows_abi_token(b: WindowsAbi)
    ensures
        windows_abi_of(windows_abi_token(b)) == Some(b),
        dash_free(windows_abi_token(b)),
{
    reveal_strlit("msvc");
    reveal_strlit("gnu");
    assert("msvc"@.len() == 4 && "gnu"@.len() == 3);
}

proof fn lemma_apple_arch_token(a: AppleArch)
    ensures
        apple_arch_of(apple_arch_token(a)) == Some(a),
        dash_free(apple_arch_token(a)),
{
    reveal_strlit("aarch64");
    reveal_strlit("x86_64");
    assert("aarch64"@.len() == 7 && "x86_64"@.len() == 6);
}

proof fn lemma_ios_device_arch_token(a: IosDeviceArch)
    ensures
        ios_device_arch_of(ios_device_arch_token(a)) == Some(a),
        dash_free(ios_device_arch_token(a)),
{
    reveal_strlit("aarch64");
    reveal_strlit("arm64e");
    assert("aarch64"@.len() == 7 && "arm64e"@.len() == 6);
}

proof fn lemma_android_abi_token(b: AndroidAbi)
    ensures
        android_abi_of(android_abi_token(b)) == Some(b),
        dash_free(android_abi_token(b)),
{
    reveal_strlit("android");
    reveal_strlit("androideabi");
    assert("android"@.len() == 7 && "androideabi"@.len() == 11);
}

fn join_fields(fields: &Vec<&str>) -> (r: String)
    requires
        fields.len() >= 1,
    ensures
        r@ == join_dash(fields.deep_view()),
{
    let mut out = String::from_str(fields[0]);
    let mut i: usize = 1;
    proof {
        reveal_strlit("-");
        assert(fields.deep_view().subrange(0, 1) =~= seq![fields[0]@]);
    }
    while i < fields.len()
        invariant
            1 <= i <= fields.len(),
            out@ == join_dash(fields.deep_view().subrange(0, i as int)),
        decreases fields.len() - i,
    {
        out.append("-");
        out.append(fields[i]);
        proof {
            reveal_strlit("-");
            let fv = fields.deep_view();
            assert(fv.subrange(0, i + 1).drop_last() =~= fv.subrange(0, i as int));
        }
        i = i + 1;
    }
    assert(fields.deep_view().subrange(0, i as int) =~= fields.deep_view());
    out
}

fn linux_arch_str(a: LinuxArch) -> (r: &'static str)
    ensures
        r@ == linux_arch_token(a),
{
    match a {
        LinuxArch::Aarch64 => "aarch64",
        LinuxArch::Armv7 => "armv7",
        LinuxArch::I686 => "i686",
        LinuxArch::X86_64 => "x86_64",
    }
}

fn windows_abi_str(b: WindowsAbi) -> (r: &'static str)
    ensures
        r@ == windows_abi_token(b),
{
    match b {
        WindowsAbi::Msvc => "msvc",
        WindowsAbi::Gnu => "gnu",
    }
}

fn apple_arch_str(a: AppleArch) -> (r: &'static str)
    ensures
        r@ == apple_arch_token(a),
{
    match a {
        AppleArch::Aarch64 => "aarch64",
        AppleArch::X86_64 => "x86_64",
    }
}

/// The triple that names `t`.
pub fn triple_string(t: Target) -> (r: String)
    ensures
        r@ == triple_text(t),
{
    let fields: Vec<&str> = match t {
        Target::Linux(a, b) => vec![
            linux_arch_str(a),
            "unknown",
            "linux",
            match b {
                GnuAbi::Gnu => "gnu",
                GnuAbi::Gnueabihf => "gnueabihf",
            },
        ],
        Target::Windows(a, b) => vec![
            match a {
                WindowsArch::I686 => "i686",
                WindowsArch::X86_64 => "x86_64",
            },
            "pc",
            "windows",
            windows_abi_str(b),
        ],
        Target::Uwp(a, b) => vec![
            match a {
                UwpArch::I686 => "i686",
                UwpArch::X86_64 => "x86_64",
                UwpArch::Thumbv7a => "thumbv7a",
            },
            "uwp",
            "windows",
            windows_abi_str(b),
        ],
        Target::MacOs(a) => vec![apple_arch_str(a), "apple", "darwin"],
        Target::IosDevice(a) => vec![
            match a {
                IosDeviceArch::Aarch64 => "aarch64",
                IosDeviceArch::Arm64e => "arm64e",
            },
            "apple",
            "ios",
        ],
        Target::IosSimulator(a) => vec![apple_arch_str(a), "apple", "ios", "sim"],
        Target::TvosDevice => vec!["arm64e", "apple", "tvos"],
        Target::TvosSimulator(a) => vec![apple_arch_str(a), "apple", "tvos", "sim"],
        Target::Wasm => vec!["wasm32", "unknown", "emscripten"],
        Target::Android(a, b) => vec![
            linux_arch_str(a),
            "linux",
            match b {
                AndroidAbi::Android => "android",
                AndroidAbi::Androideabi => "androideabi",
            },
        ],
    };
    assert(fields.deep_view() =~= target_fields(t));
    join_fields(&fields)
}

/// Every supported triple is recognized as the target it names, and as no
/// other: the recognizing branches never overlap and none falls through.
pub proof fn lemma_triple_round_trip(t: Target)
    ensures
        parse_spec(triple_text(t)) == Ok::<Target, ResolveError>(t),
{
    reveal_strlit("arm64e");
    reveal_strlit("wasm32");
    reveal_strlit("unknown");
    reveal_strlit("pc");
    reveal_strlit("uwp");
    reveal_strlit("apple");
    reveal_strlit("linux");
    reveal_strlit("windows");
    reveal_strlit("darwin");
    reveal_strlit("ios");
    reveal_strlit("tvos");
    reveal_strlit("emscripten");
    reveal_strlit("sim");
    assert("unknown"@.len() == 7 && "pc"@.len() == 2 && "uwp"@.len() == 3);
    assert("apple"@.len() == 5 && "linux"@.len() == 5 && "windows"@.len() == 7);
    assert("darwin"@.len() == 6 && "ios"@.len() == 3 && "tvos"@.len() == 4);
    assert("emscripten"@.len() == 10 && "sim"@.len() == 3);
    assert("arm64e"@.len() == 6 && "wasm32"@.len() == 6);
    assert("linux"@[0] != "apple"@[0]);
    let f = target_fields(t);
    match t {
        Target::Linux(a, b) => {
            lemma_linux_arch_token(a);
            lemma_gnu_abi_token(b);
        },
        Target::Windows(a, b) => {
            lemma_windows_arch_token(a);
            lemma_windows_abi_token(b);
        },
        Target::Uwp(a, b) => {
            lemma_uwp_arch_token(a);
            lemma_windows_abi_token(b);
        },
        Target::MacOs(a) => {
            lemma_apple_arch_token(a);
        },
        Target::IosDevice(a) => {
            lemma_ios_device_arch_token(a);
        },
        Target::IosSimulator(a) => {
            lemma_apple_arch_token(a);
        },
        Target::TvosDevice => {},
        Target::TvosSimulator(a) => {
            lemma_apple_arch_token(a);
        },
        Target::Wasm => {},
        Target::Android(a, b) => {
            lemma_linux_arch_token(a);
            lemma_android_abi_token(b);
        },
    }
    assert(forall|i: int| 0 <= i < f.len() ==> dash_free(#[trigger] f[i]));
    lemma_split_join(f);
    assert(target_of_fields(f) == Some(t));
}

/// Two targets with the same triple are the same target.
pub proof fn lemma_triple_text_injective(a: Target, b: Target)
    requires
        triple_text(a) == triple_text(b),
    ensures
        a == b,
{
    lemma_triple_round_trip(a);
    lemma_triple_round_trip(b);
}

/// Only the supported triples are accepted: a string that parses is exactly
/// the triple of the target it parses to.
pub proof fn lemma_accepted_is_supported(s: Seq<char>)
    ensures
        parse_spec(s) is Ok ==> s == triple_text(parse_spec(s)->Ok_0),
{
    if parse_spec(s) is Ok {
        let t = parse_spec(s)->Ok_0;
        let f = split_dash(s);
        lemma_join_split(s);
        assert(target_of_fields(f) == Some(t));
        assert(f =~= target_fields(t));
    }
}

} // verus!
