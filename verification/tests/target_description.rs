use tiered_sync::api::windows::get_enabled_target_api_features;
use tiered_sync::target_spec::i586_ansi_windows_msvc::target;
use tiered_sync::target_spec::i586_ansi_windows_msvc::LinkerFlavor;
use tiered_sync::target_spec::i586_ansi_windows_msvc::PreLinkArgs;
use tiered_sync::target_spec::i586_ansi_windows_msvc::TargetOptions;

fn base() -> TargetOptions {
    TargetOptions {
        cpu: "generic".to_string(),
        max_atomic_width: None,
        target_api_default_features: vec!["10.0.19041".to_string()],
        pre_link_args: PreLinkArgs {
            msvc: vec!["/NOLOGO".to_string(), "/NXCOMPAT".to_string()],
            lld_link: vec!["/NOLOGO".to_string()],
        },
    }
}

#[test]
fn target_is_the_i586_msvc_target_of_the_ansi_line() {
    let made = target(base()).unwrap();
    assert_eq!(made.llvm_target, "i586-pc-windows-msvc");
    assert_eq!(made.target_endian, "little");
    assert_eq!(made.target_pointer_width, "32");
    assert_eq!(made.target_c_int_width, "32");
    assert_eq!(
        made.data_layout,
        "e-m:x-p:32:32-p270:32:32-p271:32:32-p272:64:64-i64:64-f80:32-n8:16:32-a:0:32-S32"
    );
    assert_eq!(made.arch, "x86");
    assert_eq!(made.target_os, "windows");
    assert_eq!(made.target_env, "msvc");
    assert_eq!(made.target_vendor, "ansi");
    assert_eq!(made.linker_flavor, LinkerFlavor::Msvc);
}

#[test]
fn target_sets_cpu_atomics_and_api_level() {
    let made = target(base()).unwrap();
    assert_eq!(made.options.cpu, "pentium");
    assert_eq!(made.options.max_atomic_width, Some(64));
    assert_eq!(made.options.target_api_default_features, vec!["4.10.2222".to_string()]);
}

#[test]
fn target_appends_its_linker_arguments_for_both_flavors() {
    let made = target(base()).unwrap();
    assert_eq!(
        made.options.pre_link_args.msvc,
        vec![
            "/NOLOGO",
            "/NXCOMPAT",
            "/SAFESEH:NO",
            "/ALTERNATENAME:___CxxFrameHandler3=___CxxFrameHandler"
        ]
    );
    assert_eq!(
        made.options.pre_link_args.lld_link,
        vec!["/NOLOGO", "/SAFESEH:NO", "/ALTERNATENAME:___CxxFrameHandler3=___CxxFrameHandler"]
    );
}

#[test]
fn default_api_level_enables_the_ansi_line_up_to_98_se() {
    let made = target(base()).unwrap();
    let features = get_enabled_target_api_features(&made.options.target_api_default_features);
    assert_eq!(
        features,
        vec!["4.00.950", "4.00.950 A", "4.00.950 B", "4.00.950 C", "4.10.1998", "4.10.2222"]
    );
}
