use cargo_arceos::options::{link_flags, ArceOSOptions, Feature, Ipv4, LogLevel};
use cargo_arceos::platforms::{Arch, ArchOrPlatform, Platform};
use cargo_arceos::text::{contains_text, decimal_string, join_texts, same_text};

fn options(arch: Option<Arch>, platform: Option<Platform>, soft_float: bool, cpus: u32) -> ArceOSOptions {
    ArceOSOptions {
        arch_or_platform: ArchOrPlatform { arch, platform },
        soft_float,
        cpus,
        configs: Vec::new(),
        log: LogLevel::Warn,
        ip: Ipv4 { a: 10, b: 0, c: 2, d: 15 },
        gateway: Ipv4 { a: 10, b: 0, c: 2, d: 2 },
    }
}

fn pair(name: &str, value: &str) -> (String, String) {
    (name.to_string(), value.to_string())
}

fn texts(list: &[&str]) -> Vec<String> {
    list.iter().map(|s| s.to_string()).collect()
}

#[test]
fn decimal_notation() {
    assert_eq!(decimal_string(0), "0");
    assert_eq!(decimal_string(7), "7");
    assert_eq!(decimal_string(10), "10");
    assert_eq!(decimal_string(101), "101");
    assert_eq!(decimal_string(65536), "65536");
    assert_eq!(decimal_string(u32::MAX), "4294967295");
}

#[test]
fn text_helpers() {
    assert!(same_text("abc", "abc"));
    assert!(!same_text("abc", "abd"));
    assert!(!same_text("abc", "ab"));
    let list = texts(&["a", "b", "c"]);
    assert!(contains_text(&list, "b"));
    assert!(!contains_text(&list, "d"));
    assert_eq!(join_texts(&list, ", "), "a, b, c");
    assert_eq!(join_texts(&texts(&["a"]), ", "), "a");
    assert_eq!(join_texts(&Vec::new(), ", "), "");
}

#[test]
fn addresses_and_log_levels() {
    assert_eq!(Ipv4 { a: 10, b: 0, c: 2, d: 15 }.text(), "10.0.2.15");
    assert_eq!(Ipv4 { a: 255, b: 255, c: 255, d: 0 }.text(), "255.255.255.0");
    assert_eq!(Ipv4 { a: 0, b: 0, c: 0, d: 0 }.text(), "0.0.0.0");
    assert_eq!(LogLevel::Off.name(), "OFF");
    assert_eq!(LogLevel::Error.name(), "ERROR");
    assert_eq!(LogLevel::Warn.name(), "WARN");
    assert_eq!(LogLevel::Info.name(), "INFO");
    assert_eq!(LogLevel::Debug.name(), "DEBUG");
    assert_eq!(LogLevel::Trace.name(), "TRACE");
}

#[test]
fn platform_arch_and_target_of_the_options() {
    let o = options(None, None, false, 1);
    assert_eq!(o.platform(), Platform::Dummy);
    assert_eq!(o.arch(), Arch::X86_64);
    assert_eq!(o.target(), "x86_64-unknown-none");
    let o = options(Some(Arch::Aarch64), None, true, 1);
    assert_eq!(o.platform(), Platform::AARCH64_QEMU_VIRT);
    assert_eq!(o.arch(), Arch::Aarch64);
    assert_eq!(o.target(), "aarch64-unknown-none-softfloat");
    let o = options(None, Some(Platform::AARCH64_RASPI4), false, 1);
    assert_eq!(o.platform(), Platform::AARCH64_RASPI4);
    assert_eq!(o.target(), "aarch64-unknown-none");
}

#[test]
fn link_flags_hold_the_three_arguments() {
    for arch in [Arch::Aarch64, Arch::Loongarch64, Arch::Riscv64, Arch::X86_64] {
        for soft_float in [false, true] {
            let o = options(Some(arch), None, soft_float, 1);
            let dir = format!("/out/{}/debug", o.target());
            let patch = o.apply(&dir, "/out/axconfig.toml", "debug");
            let (name, flags) = patch.env.last().unwrap().clone();
            assert_eq!(name, "RUSTFLAGS");
            let expected = format!(
                "-C link-arg=-T{}/linker_{}.lds -C link-arg=-no-pie -C link-arg=-znostart-stop-gc",
                dir,
                o.platform().name()
            );
            assert_eq!(flags, expected);
            assert_eq!(patch.env.iter().filter(|(n, _)| n == "RUSTFLAGS").count(), 1);
        }
    }
    assert_eq!(
        link_flags("target/x", Platform::X86_64_PC_OSLAB).unwrap(),
        "-C link-arg=-Ttarget/x/linker_x86_64-pc-oslab.lds -C link-arg=-no-pie \
         -C link-arg=-znostart-stop-gc"
    );
    assert_eq!(link_flags("target/x", Platform::Dummy), None);
}

#[test]
fn build_for_aarch64_with_four_processors() {
    let mut o = options(Some(Arch::Aarch64), None, false, 4);
    o.log = LogLevel::Info;
    let patch = o.apply(
        "/work/target/aarch64-unknown-none/release",
        "/work/target/aarch64-unknown-none/release/axconfig.toml",
        "release",
    );
    assert_eq!(patch.args, texts(&["--target", "aarch64-unknown-none"]));
    assert_eq!(
        patch.env,
        vec![
            pair("AX_CONFIG_PATH", "/work/target/aarch64-unknown-none/release/axconfig.toml"),
            pair("AX_PLATFORM", "aarch64-qemu-virt"),
            pair("AX_ARCH", "aarch64"),
            pair("AX_SMP", "4"),
            pair("AX_TARGET", "aarch64-unknown-none"),
            pair("AX_MODE", "release"),
            pair("AX_LOG", "INFO"),
            pair("AX_IP", "10.0.2.15"),
            pair("AX_GW", "10.0.2.2"),
            pair(
                "RUSTFLAGS",
                "-C link-arg=-T/work/target/aarch64-unknown-none/release/linker_aarch64-qemu-virt.lds \
                 -C link-arg=-no-pie -C link-arg=-znostart-stop-gc"
            ),
        ]
    );
    let warnings = o.check_features("axhal", &Vec::new());
    assert_eq!(
        warnings,
        texts(&[
            "feature `smp` should be enabled for package `axhal` when number of CPUs > 1",
            "feature `fp_simd` should be enabled for package `axhal` when compiling to AArch64 \
             without soft float",
        ])
    );
}

#[test]
fn build_for_the_dummy_platform_sets_no_link_flags() {
    let o = options(None, None, false, 1);
    let patch = o.apply("target/x86_64-unknown-none/debug", "/abs/axconfig.toml", "debug");
    assert_eq!(patch.args, texts(&["--target", "x86_64-unknown-none"]));
    assert_eq!(
        patch.env,
        vec![
            pair("AX_CONFIG_PATH", "/abs/axconfig.toml"),
            pair("AX_PLATFORM", "dummy"),
            pair("AX_ARCH", "x86_64"),
            pair("AX_SMP", "1"),
            pair("AX_TARGET", "x86_64-unknown-none"),
            pair("AX_MODE", "debug"),
            pair("AX_LOG", "WARN"),
            pair("AX_IP", "10.0.2.15"),
            pair("AX_GW", "10.0.2.2"),
        ]
    );
}

#[test]
fn features_and_their_packages() {
    assert_eq!(Feature::Smp.name(), "smp");
    assert_eq!(Feature::FpSimd.name(), "fp_simd");
    assert_eq!(Feature::Smp.cond(), "number of CPUs > 1");
    assert_eq!(Feature::FpSimd.cond(), "compiling to AArch64 without soft float");
    assert_eq!(
        Feature::Smp.packages(),
        texts(&["axlibc", "arceos_posix_api", "axstd", "axfeat", "axhal", "axruntime", "axtask"])
    );
    assert_eq!(Feature::FpSimd.packages(), texts(&["axlibc", "axstd", "axfeat", "axhal"]));
}

#[test]
fn needed_features() {
    assert_eq!(options(None, None, false, 1).features(), Vec::new());
    assert_eq!(options(None, None, false, 2).features(), vec![Feature::Smp]);
    assert_eq!(options(Some(Arch::Aarch64), None, false, 1).features(), vec![Feature::FpSimd]);
    assert_eq!(options(Some(Arch::Aarch64), None, true, 1).features(), Vec::new());
    assert_eq!(
        options(None, Some(Platform::AARCH64_RASPI4), false, 8).features(),
        vec![Feature::Smp, Feature::FpSimd]
    );
    assert_eq!(options(Some(Arch::Riscv64), None, false, 2).features(), vec![Feature::Smp]);
}

#[test]
fn two_processors_and_an_undeclared_multi_core_feature() {
    let o = options(None, None, false, 2);
    for package in ["axlibc", "arceos_posix_api", "axstd", "axfeat", "axhal", "axruntime", "axtask"] {
        let warnings = o.check_features(package, &Vec::new());
        assert_eq!(
            warnings,
            vec![format!(
                "feature `smp` should be enabled for package `{}` when number of CPUs > 1",
                package
            )]
        );
        assert_eq!(o.check_features(package, &texts(&["smp"])), Vec::<String>::new());
        assert_eq!(o.check_features(package, &texts(&["alloc", "smp", "irq"])), Vec::<String>::new());
        assert_eq!(o.check_features(package, &texts(&["fp_simd"])).len(), 1);
    }
    assert_eq!(o.check_features("axnet", &Vec::new()), Vec::<String>::new());
    assert_eq!(options(None, None, false, 1).check_features("axhal", &Vec::new()), Vec::<String>::new());
}

#[test]
fn floating_point_feature_on_aarch64() {
    let o = options(Some(Arch::Aarch64), None, false, 1);
    assert_eq!(
        o.check_features("axstd", &Vec::new()),
        texts(&[
            "feature `fp_simd` should be enabled for package `axstd` when compiling to AArch64 \
             without soft float"
        ])
    );
    assert_eq!(o.check_features("axstd", &texts(&["fp_simd"])), Vec::<String>::new());
    assert_eq!(o.check_features("axtask", &Vec::new()), Vec::<String>::new());
    let soft = options(Some(Arch::Aarch64), None, true, 1);
    assert_eq!(soft.check_features("axstd", &Vec::new()), Vec::<String>::new());
    let both = options(Some(Arch::Aarch64), None, false, 4);
    assert_eq!(both.check_features("axstd", &texts(&["smp"])).len(), 1);
    assert_eq!(both.check_features("axstd", &texts(&["fp_simd"])).len(), 1);
    assert_eq!(both.check_features("axstd", &texts(&["fp_simd", "smp"])).len(), 0);
    assert_eq!(both.check_features("axtask", &Vec::new()).len(), 1);
}
