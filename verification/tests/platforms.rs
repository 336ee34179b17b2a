use cargo_arceos::platforms::{Arch, ArchOrPlatform, Platform};

const PLATFORMS: [(Platform, &str, Arch); 9] = [
    (Platform::Dummy, "dummy", Arch::X86_64),
    (Platform::AARCH64_BSTA1000B, "aarch64-bsta1000b", Arch::Aarch64),
    (Platform::AARCH64_PHYTIUM_PI, "aarch64-phytium-pi", Arch::Aarch64),
    (Platform::AARCH64_QEMU_VIRT, "aarch64-qemu-virt", Arch::Aarch64),
    (Platform::AARCH64_RASPI4, "aarch64-raspi4", Arch::Aarch64),
    (Platform::LOONGARCH64_QEMU_VIRT, "loongarch64-qemu-virt", Arch::Loongarch64),
    (Platform::RISCV64_QEMU_VIRT, "riscv64-qemu-virt", Arch::Riscv64),
    (Platform::X86_64_PC_OSLAB, "x86_64-pc-oslab", Arch::X86_64),
    (Platform::X86_64_QEMU_Q35, "x86_64-qemu-q35", Arch::X86_64),
];

#[test]
fn platform_names_and_architectures() {
    for (platform, name, arch) in PLATFORMS {
        assert_eq!(platform.name(), name);
        assert_eq!(Platform::parse(name), Some(platform));
        assert_eq!(Arch::from(platform), arch);
    }
}

#[test]
fn unknown_platform_names_are_refused() {
    assert_eq!(Platform::parse(""), None);
    assert_eq!(Platform::parse("Dummy"), None);
    assert_eq!(Platform::parse("x86-64-qemu-q35"), None);
    assert_eq!(Platform::parse("aarch64-qemu-virt "), None);
}

#[test]
fn arch_names_and_default_platforms() {
    let table = [
        (Arch::Aarch64, "aarch64", Platform::AARCH64_QEMU_VIRT),
        (Arch::Loongarch64, "loongarch64", Platform::LOONGARCH64_QEMU_VIRT),
        (Arch::Riscv64, "riscv64", Platform::RISCV64_QEMU_VIRT),
        (Arch::X86_64, "x86_64", Platform::X86_64_QEMU_Q35),
    ];
    for (arch, name, platform) in table {
        assert_eq!(arch.name(), name);
        assert_eq!(Arch::parse(name), Some(arch));
        assert_eq!(Platform::from(arch), platform);
        assert_eq!(Arch::from(Platform::from(arch)), arch);
    }
    assert_eq!(Arch::parse("arm"), None);
}

#[test]
fn target_identifiers() {
    assert_eq!(Arch::Aarch64.target(false), "aarch64-unknown-none");
    assert_eq!(Arch::Aarch64.target(true), "aarch64-unknown-none-softfloat");
    assert_eq!(Arch::Loongarch64.target(false), "loongarch64-unknown-none");
    assert_eq!(Arch::Loongarch64.target(true), "loongarch64-unknown-none");
    assert_eq!(Arch::Riscv64.target(false), "riscv64gc-unknown-none-elf");
    assert_eq!(Arch::Riscv64.target(true), "riscv64gc-unknown-none-elf");
    assert_eq!(Arch::X86_64.target(false), "x86_64-unknown-none");
    assert_eq!(Arch::X86_64.target(true), "x86_64-unknown-none");
}

#[test]
fn resolving_the_choice() {
    let neither = ArchOrPlatform { arch: None, platform: None };
    assert_eq!(Platform::from(neither), Platform::Dummy);
    let by_arch = ArchOrPlatform { arch: Some(Arch::Riscv64), platform: None };
    assert_eq!(Platform::from(by_arch), Platform::RISCV64_QEMU_VIRT);
    let by_platform = ArchOrPlatform { arch: None, platform: Some(Platform::AARCH64_RASPI4) };
    assert_eq!(Platform::from(by_platform), Platform::AARCH64_RASPI4);
    let both = ArchOrPlatform { arch: Some(Arch::X86_64), platform: Some(Platform::AARCH64_RASPI4) };
    assert_eq!(Platform::from(both), Platform::X86_64_QEMU_Q35);
}

#[test]
fn resolving_twice_gives_the_same_target() {
    for (platform, _, _) in PLATFORMS {
        for soft_float in [false, true] {
            let first = Arch::from(platform).target(soft_float);
            let second = Arch::from(platform).target(soft_float);
            assert_eq!(first, second);
        }
    }
}

#[test]
fn machines_of_the_emulator() {
    let virt = Platform::AARCH64_QEMU_VIRT.machine().unwrap();
    assert_eq!((virt.name, virt.memory), ("virt", None));
    let raspi = Platform::AARCH64_RASPI4.machine().unwrap();
    assert_eq!((raspi.name, raspi.memory), ("raspi4b", Some("2G")));
    let loongarch = Platform::LOONGARCH64_QEMU_VIRT.machine().unwrap();
    assert_eq!((loongarch.name, loongarch.memory), ("virt", Some("1G")));
    let riscv = Platform::RISCV64_QEMU_VIRT.machine().unwrap();
    assert_eq!((riscv.name, riscv.memory), ("virt", None));
    let q35 = Platform::X86_64_QEMU_Q35.machine().unwrap();
    assert_eq!((q35.name, q35.memory), ("q35", None));
    assert!(Platform::Dummy.machine().is_none());
    assert!(Platform::AARCH64_BSTA1000B.machine().is_none());
    assert!(Platform::AARCH64_PHYTIUM_PI.machine().is_none());
    assert!(Platform::X86_64_PC_OSLAB.machine().is_none());
}

#[test]
fn emulators_and_image_kinds() {
    assert_eq!(Arch::Aarch64.emulator(), "qemu-system-aarch64");
    assert_eq!(Arch::Loongarch64.emulator(), "qemu-system-loongarch64");
    assert_eq!(Arch::Riscv64.emulator(), "qemu-system-riscv64");
    assert_eq!(Arch::X86_64.emulator(), "qemu-system-x86_64");
    assert!(Arch::Aarch64.boots_raw_image());
    assert!(Arch::Riscv64.boots_raw_image());
    assert!(!Arch::Loongarch64.boots_raw_image());
    assert!(!Arch::X86_64.boots_raw_image());
}
