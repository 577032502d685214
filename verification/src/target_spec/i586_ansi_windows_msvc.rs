//! The 32-bit MSVC target for the Windows line that began with Windows 95.

use vstd::prelude::*;

verus! {

/// The flavors of the LLVM linker.
#[derive(Debug, Clone, Copy, PartialEq, Eq, Structural)]
pub enum LldFlavor {
    Wasm,
    Ld64,
    Ld,
    Link,
}

/// The flavors of linker that a target may use.
#[derive(Debug, Clone, Copy, PartialEq, Eq, Structural)]
pub enum LinkerFlavor {
    Em,
    Gcc,
    Ld,
    Msvc,
    Lld(LldFlavor),
    PtxLinker,
}

/// The arguments that go to the linker before the objects, for the two
/// linker flavors of an MSVC target.
#[derive(Debug, PartialEq, Eq)]
pub struct PreLinkArgs {
    /// For `LinkerFlavor::Msvc`.
    pub msvc: Vec<String>,
    /// For `LinkerFlavor::Lld(LldFlavor::Link)`.
    pub lld_link: Vec<String>,
}

/// The options of a target that this description sets or extends.
#[derive(Debug, PartialEq, Eq)]
pub struct TargetOptions {
    pub cpu: String,
    pub max_atomic_width: Option<u64>,
    pub target_api_default_features: Vec<String>,
    pub pre_link_args: PreLinkArgs,
}

/// A target description.
#[derive(Debug, PartialEq, Eq)]
pub struct Target {
    pub llvm_target: String,
    pub target_endian: String,
    pub target_pointer_width: String,
    pub target_c_int_width: String,
    pub data_layout: String,
    pub arch: String,
    pub target_os: String,
    pub target_env: String,
    pub target_vendor: String,
    pub linker_flavor: LinkerFlavor,
    pub options: TargetOptions,
}

/// A target description, or why there is none.
pub type TargetResult = Result<Target, String>;

/// The texts of a list of strings.
pub open spec fn texts(list: Seq<String>) -> Seq<Seq<char>> {
    list.map_values(|text: String| text@)
}

/// The two linker arguments of this target: no safe exception handlers,
/// which the libraries of the old toolchain lack, and the old name of the
/// C++ frame handler in place of the new one.
pub open spec fn msvc_args() -> Seq<Seq<char>> {
    seq!["/SAFESEH:NO"@, "/ALTERNATENAME:___CxxFrameHandler3=___CxxFrameHandler"@]
}

/// Appends the two linker arguments of this target.
fn extend_args(args: &mut Vec<String>)
    ensures
        texts(final(args)@) == texts(old(args)@) + msvc_args(),
{
    args.push("/SAFESEH:NO".to_owned());
    args.push("/ALTERNATENAME:___CxxFrameHandler3=___CxxFrameHandler".to_owned());
    proof {
        assert(texts(args@) =~= texts(old(args)@) + msvc_args());
    }
}

/// The i586 MSVC target for Windows 95 and its successors, made from the
/// options that all MSVC targets share: a Pentium, atomics up to 64 bits,
/// the API level of Windows 98 SE by default, and the two linker arguments
/// of this target behind those of the base, for both linker flavors.
pub fn target(base: TargetOptions) -> (result: TargetResult)
    ensures
        result matches Ok(target) && {
            &&& target.llvm_target@ == "i586-pc-windows-msvc"@
            &&& target.target_endian@ == "little"@
            &&& target.target_pointer_width@ == "32"@
            &&& target.target_c_int_width@ == "32"@
            &&& target.data_layout@
                == "e-m:x-p:32:32-p270:32:32-p271:32:32-p272:64:64-i64:64-f80:32-n8:16:32-a:0:32-S32"@
            &&& target.arch@ == "x86"@
            &&& target.target_os@ == "windows"@
            &&& target.target_env@ == "msvc"@
            &&& target.target_vendor@ == "ansi"@
            &&& target.linker_flavor == LinkerFlavor::Msvc
            &&& target.options.cpu@ == "pentium"@
            &&& target.options.max_atomic_width == Some(64u64)
            &&& texts(target.options.target_api_default_features@) == seq!["4.10.2222"@]
            &&& texts(target.options.pre_link_args.msvc@) == texts(base.pre_link_args.msvc@)
                + msvc_args()
            &&& texts(target.options.pre_link_args.lld_link@) == texts(base.pre_link_args.lld_link@)
                + msvc_args()
        },
{
    let mut base = base;
    base.cpu = "pentium".to_owned();
    base.max_atomic_width = Some(64);
    let mut features: Vec<String> = Vec::new();
    features.push("4.10.2222".to_owned());
    proof {
        assert(texts(features@) =~= seq!["4.10.2222"@]);
    }
    base.target_api_default_features = features;
    extend_args(&mut base.pre_link_args.msvc);
    extend_args(&mut base.pre_link_args.lld_link);
    Ok(
        Target {
            llvm_target: "i586-pc-windows-msvc".to_owned(),
            target_endian: "little".to_owned(),
            target_pointer_width: "32".to_owned(),
            target_c_int_width: "32".to_owned(),
            data_layout: "e-m:x-p:32:32-p270:32:32-p271:32:32-p272:64:64-i64:64-f80:32-n8:16:32-a:0:32-S32".to_owned(),
            arch: "x86".to_owned(),
            target_os: "windows".to_owned(),
            target_env: "msvc".to_owned(),
            target_vendor: "ansi".to_owned(),
            linker_flavor: LinkerFlavor::Msvc,
            options: base,
        },
    )
}

} // verus!
