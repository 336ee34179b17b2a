use cargo_arceos::commands::{discard_args, discard_targets, event_stream_arg, exit_code, profile, Runner};
use cargo_arceos::platforms::{Arch, Platform};
use cargo_arceos::qemu::{
    convert_invocation, runner_variable, BusType, Host, NetDevType, QEMUOptions, RunError,
};

fn plain() -> QEMUOptions {
    QEMUOptions {
        smp: None,
        mem: None,
        bus: None,
        net: None,
        net_dump: None,
        disk: None,
        graphics: false,
        accel: false,
        debug: false,
    }
}

fn no_host() -> Host {
    Host { arch: None, apple: false, kvm: false }
}

fn texts(list: &[&str]) -> Vec<String> {
    list.iter().map(|s| s.to_string()).collect()
}

#[test]
fn bus_and_net_names() {
    assert_eq!(BusType::default(), BusType::Pci);
    assert_eq!(BusType::Pci.name(), "pci");
    assert_eq!(BusType::Mmio.name(), "mmio");
    assert_eq!(BusType::Pci.vdev_suffix(), "pci");
    assert_eq!(BusType::Mmio.vdev_suffix(), "device");
    assert_eq!(NetDevType::default(), NetDevType::User);
    assert_eq!(NetDevType::User.name(), "user");
    assert_eq!(
        NetDevType::User.backend(),
        "user,id=net0,hostfwd=tcp::5555-:5555,hostfwd=udp::5555-:5555"
    );
}

#[test]
fn aarch64_virt_with_plain_options() {
    let launch = plain()
        .launch(Platform::AARCH64_QEMU_VIRT, "out/kernel", "out/kernel.bin", "4", no_host())
        .unwrap();
    let convert = launch.convert.unwrap();
    assert_eq!(convert.program, "rust-objcopy");
    assert_eq!(
        convert.args,
        texts(&["--strip-all", "-O", "binary", "out/kernel", "out/kernel.bin"])
    );
    assert_eq!(launch.emulator.program, "qemu-system-aarch64");
    assert_eq!(
        launch.emulator.args,
        texts(&[
            "-kernel",
            "out/kernel.bin",
            "-machine",
            "virt",
            "-smp",
            "4",
            "-cpu",
            "cortex-a72",
            "-nographic",
        ])
    );
}

#[test]
fn x86_64_boots_the_linked_binary() {
    let launch = plain()
        .launch(Platform::X86_64_QEMU_Q35, "out/kernel", "out/kernel.bin", "1", no_host())
        .unwrap();
    assert!(launch.convert.is_none());
    assert_eq!(launch.emulator.program, "qemu-system-x86_64");
    assert_eq!(
        launch.emulator.args,
        texts(&["-kernel", "out/kernel", "-machine", "q35", "-smp", "1", "-nographic"])
    );
}

#[test]
fn raspi_board_has_its_fixed_memory() {
    let launch = plain()
        .launch(Platform::AARCH64_RASPI4, "k", "k.bin", "1", no_host())
        .unwrap();
    assert_eq!(
        launch.emulator.args,
        texts(&[
            "-kernel",
            "k.bin",
            "-machine",
            "raspi4b",
            "-smp",
            "1",
            "-cpu",
            "cortex-a72",
            "-m",
            "2G",
            "-nographic",
        ])
    );
}

#[test]
fn explicit_memory_replaces_the_boards_memory() {
    let mut options = plain();
    options.mem = Some("4G".to_string());
    let launch = options
        .launch(Platform::AARCH64_RASPI4, "k", "k.bin", "1", no_host())
        .unwrap();
    let args = launch.emulator.args;
    let at = args.iter().position(|a| a == "-m").unwrap();
    assert_eq!(args[at + 1], "4G");
    assert!(!args.contains(&"2G".to_string()));
    assert_eq!(args.iter().filter(|a| *a == "-m").count(), 1);
}

#[test]
fn loongarch_board_memory_and_no_cpu_model() {
    let launch = plain()
        .launch(Platform::LOONGARCH64_QEMU_VIRT, "k", "k.bin", "2", no_host())
        .unwrap();
    assert!(launch.convert.is_none());
    assert_eq!(launch.emulator.program, "qemu-system-loongarch64");
    assert_eq!(
        launch.emulator.args,
        texts(&["-kernel", "k", "-machine", "virt", "-smp", "2", "-m", "1G", "-nographic"])
    );
}

#[test]
fn all_devices_on_the_mmio_bus() {
    let options = QEMUOptions {
        smp: Some("8".to_string()),
        mem: Some("512M".to_string()),
        bus: Some(BusType::Mmio),
        net: Some(None),
        net_dump: Some("net.pcap".to_string()),
        disk: Some("disk.img".to_string()),
        graphics: true,
        accel: false,
        debug: true,
    };
    let launch = options
        .launch(Platform::RISCV64_QEMU_VIRT, "k", "k.bin", "2", no_host())
        .unwrap();
    assert_eq!(launch.emulator.program, "qemu-system-riscv64");
    assert_eq!(
        launch.emulator.args,
        texts(&[
            "-kernel",
            "k.bin",
            "-machine",
            "virt",
            "-smp",
            "8",
            "-m",
            "512M",
            "-device",
            "virtio-net-device,netdev=net0",
            "-netdev",
            "user,id=net0,hostfwd=tcp::5555-:5555,hostfwd=udp::5555-:5555",
            "-object",
            "filter-dump,id=dump0,netdev=net0,file=net.pcap",
            "-device",
            "virtio-blk-device,drive=disk0",
            "-drive",
            "id=disk0,if=none,format=raw,file=disk.img",
            "-device",
            "virtio-gpu-device",
            "-vga",
            "none",
            "-serial",
            "mon:stdio",
            "-s",
            "-S",
        ])
    );
}

#[test]
fn devices_on_the_pci_bus_by_default() {
    let mut options = plain();
    options.net = Some(Some(NetDevType::User));
    options.disk = Some("d.img".to_string());
    let launch = options
        .launch(Platform::X86_64_QEMU_Q35, "k", "k.bin", "1", no_host())
        .unwrap();
    assert_eq!(
        launch.emulator.args,
        texts(&[
            "-kernel",
            "k",
            "-machine",
            "q35",
            "-smp",
            "1",
            "-device",
            "virtio-net-pci,netdev=net0",
            "-netdev",
            "user,id=net0,hostfwd=tcp::5555-:5555,hostfwd=udp::5555-:5555",
            "-device",
            "virtio-blk-pci,drive=disk0",
            "-drive",
            "id=disk0,if=none,format=raw,file=d.img",
            "-nographic",
        ])
    );
}

#[test]
fn graphics_is_never_headless() {
    for platform in [
        Platform::AARCH64_QEMU_VIRT,
        Platform::AARCH64_RASPI4,
        Platform::LOONGARCH64_QEMU_VIRT,
        Platform::RISCV64_QEMU_VIRT,
        Platform::X86_64_QEMU_Q35,
    ] {
        let mut options = plain();
        options.graphics = true;
        let args = options.launch(platform, "k", "k.bin", "1", no_host()).unwrap().emulator.args;
        assert!(!args.contains(&"-nographic".to_string()));
        let at = args.iter().position(|a| a == "-serial").unwrap();
        assert_eq!(args[at + 1], "mon:stdio");
        assert!(args.contains(&"virtio-gpu-pci".to_string()));
    }
}

#[test]
fn debug_with_accel_is_refused() {
    let mut options = plain();
    options.debug = true;
    options.accel = true;
    let refused = options.launch(Platform::X86_64_QEMU_Q35, "k", "k.bin", "1", no_host());
    assert_eq!(refused.unwrap_err(), RunError::DebugWithAccel);
    let refused = options.clone().execute("k", "x86_64-qemu-q35", "1", no_host());
    assert_eq!(refused.unwrap_err(), RunError::DebugWithAccel);
    let refused = options.execute("k", "no-such-platform", "1", no_host());
    assert_eq!(refused.unwrap_err(), RunError::DebugWithAccel);
}

#[test]
fn unsupported_and_unknown_platforms() {
    for platform in [
        Platform::Dummy,
        Platform::AARCH64_BSTA1000B,
        Platform::AARCH64_PHYTIUM_PI,
        Platform::X86_64_PC_OSLAB,
    ] {
        let refused = plain().launch(platform, "k", "k.bin", "1", no_host());
        assert_eq!(refused.unwrap_err(), RunError::UnsupportedPlatform(platform));
    }
    let refused = plain().execute("k", "dummy", "1", no_host());
    assert_eq!(refused.unwrap_err(), RunError::UnsupportedPlatform(Platform::Dummy));
    let refused = plain().execute("k", "pdp11", "1", no_host());
    assert_eq!(refused.unwrap_err(), RunError::UnknownPlatform);
}

#[test]
fn error_messages() {
    assert_eq!(
        RunError::UnsupportedPlatform(Platform::X86_64_PC_OSLAB).message(),
        "unsupported platform: x86_64-pc-oslab"
    );
    assert_eq!(RunError::UnknownPlatform.message(), "Matching variant not found");
    assert_eq!(
        RunError::DebugWithAccel.message(),
        "the argument '--debug' cannot be used with '--accel'"
    );
}

#[test]
fn acceleration_when_asked_for() {
    let mut options = plain();
    options.accel = true;
    let args = options
        .launch(Platform::RISCV64_QEMU_VIRT, "k", "k.bin", "1", no_host())
        .unwrap()
        .emulator
        .args;
    assert_eq!(args[args.len() - 4..], texts(&["-cpu", "host", "-accel", "kvm"]));
    let apple = Host { arch: None, apple: true, kvm: false };
    let args = options
        .launch(Platform::RISCV64_QEMU_VIRT, "k", "k.bin", "1", apple)
        .unwrap()
        .emulator
        .args;
    assert_eq!(args[args.len() - 4..], texts(&["-cpu", "host", "-accel", "hvf"]));
}

#[test]
fn acceleration_is_detected() {
    let linux = Host { arch: Some(Arch::X86_64), apple: false, kvm: true };
    assert!(linux.detects_accel(Arch::X86_64));
    assert!(!linux.detects_accel(Arch::Aarch64));
    assert!(!linux.detects_accel(Arch::Riscv64));
    let no_kvm = Host { arch: Some(Arch::X86_64), apple: false, kvm: false };
    assert!(!no_kvm.detects_accel(Arch::X86_64));
    let mac = Host { arch: Some(Arch::Aarch64), apple: true, kvm: false };
    assert!(mac.detects_accel(Arch::Aarch64));
    assert!(!mac.detects_accel(Arch::X86_64));
    let riscv = Host { arch: Some(Arch::Riscv64), apple: false, kvm: true };
    assert!(!riscv.detects_accel(Arch::Riscv64));
    assert_eq!(linux.accelerator(), "kvm");
    assert_eq!(mac.accelerator(), "hvf");

    let args = plain()
        .launch(Platform::X86_64_QEMU_Q35, "k", "k.bin", "1", linux)
        .unwrap()
        .emulator
        .args;
    assert_eq!(
        args,
        texts(&[
            "-kernel",
            "k",
            "-machine",
            "q35",
            "-smp",
            "1",
            "-nographic",
            "-cpu",
            "host",
            "-accel",
            "kvm",
        ])
    );
    let mut debugging = plain();
    debugging.debug = true;
    let args = debugging
        .launch(Platform::X86_64_QEMU_Q35, "k", "k.bin", "1", linux)
        .unwrap()
        .emulator
        .args;
    assert_eq!(args[args.len() - 2..], texts(&["-s", "-S"]));
    assert!(!args.contains(&"-accel".to_string()));
}

#[test]
fn runner_phase_converts_the_image_beside_the_binary() {
    let launch = plain()
        .execute("target/aarch64-unknown-none/debug/kernel", "aarch64-qemu-virt", "4", no_host())
        .unwrap();
    let convert = launch.convert.unwrap();
    assert_eq!(convert.program, "rust-objcopy");
    assert_eq!(
        convert.args,
        texts(&[
            "--strip-all",
            "-O",
            "binary",
            "target/aarch64-unknown-none/debug/kernel",
            "target/aarch64-unknown-none/debug/kernel.bin",
        ])
    );
    assert_eq!(launch.emulator.args[1], "target/aarch64-unknown-none/debug/kernel.bin");
    assert_eq!(launch.emulator.args[5], "4");

    let launch = plain().execute("dir/kernel.elf", "riscv64-qemu-virt", "1", no_host()).unwrap();
    assert_eq!(launch.emulator.args[1], "dir/kernel.bin");
}

#[test]
fn runner_subcommand_executes_its_options() {
    let mut qemu = plain();
    qemu.smp = Some("2".to_string());
    let runner = Runner { qemu, binary: "out/kernel".to_string() };
    let launch = runner.execute("x86_64-qemu-q35", "4", no_host()).unwrap();
    assert!(launch.convert.is_none());
    assert_eq!(
        launch.emulator.args,
        texts(&["-kernel", "out/kernel", "-machine", "q35", "-smp", "2", "-nographic"])
    );
    let runner = Runner { qemu: plain(), binary: "out/kernel".to_string() };
    assert_eq!(
        runner.execute("x86_64-pc-oslab", "4", no_host()).unwrap_err(),
        RunError::UnsupportedPlatform(Platform::X86_64_PC_OSLAB)
    );
}

#[test]
fn conversion_command() {
    let convert = convert_invocation("a", "b");
    assert_eq!(convert.program, "rust-objcopy");
    assert_eq!(convert.args, texts(&["--strip-all", "-O", "binary", "a", "b"]));
}

#[test]
fn runner_registration_for_each_target() {
    let options = plain();
    for (target, variable) in [
        ("aarch64-unknown-none", "CARGO_TARGET_AARCH64_UNKNOWN_NONE_RUNNER"),
        (
            "aarch64-unknown-none-softfloat",
            "CARGO_TARGET_AARCH64_UNKNOWN_NONE_SOFTFLOAT_RUNNER",
        ),
        ("loongarch64-unknown-none", "CARGO_TARGET_LOONGARCH64_UNKNOWN_NONE_RUNNER"),
        ("riscv64gc-unknown-none-elf", "CARGO_TARGET_RISCV64GC_UNKNOWN_NONE_ELF_RUNNER"),
        ("x86_64-unknown-none", "CARGO_TARGET_X86_64_UNKNOWN_NONE_RUNNER"),
    ] {
        let (name, value) = options.apply(target);
        assert_eq!(name, variable);
        assert_eq!(value, "cargo-arceos runner");
    }
    assert_eq!(runner_variable("X"), "CARGO_TARGET_X_RUNNER");
}

#[test]
fn runner_command_hands_the_options_on() {
    let options = QEMUOptions {
        smp: Some("8".to_string()),
        mem: Some("512M".to_string()),
        bus: Some(BusType::Mmio),
        net: Some(Some(NetDevType::User)),
        net_dump: Some("net.pcap".to_string()),
        disk: Some("disk.img".to_string()),
        graphics: true,
        accel: true,
        debug: false,
    };
    assert_eq!(
        options.runner_command(),
        "cargo-arceos runner --smp 8 --mem 512M --bus mmio --net=user --net-dump net.pcap \
         --disk disk.img --graphics --accel"
    );
    let mut options = plain();
    options.net = Some(None);
    options.bus = Some(BusType::Pci);
    options.debug = true;
    assert_eq!(options.runner_command(), "cargo-arceos runner --bus pci --net --debug");
}

#[test]
fn profiles_and_exit_codes() {
    assert_eq!(profile(true, None), "release");
    assert_eq!(profile(true, Some("bench")), "release");
    assert_eq!(profile(false, Some("bench")), "bench");
    assert_eq!(profile(false, None), "debug");
    assert_eq!(exit_code(Some(0)), 0);
    assert_eq!(exit_code(Some(3)), 3);
    assert_eq!(exit_code(Some(-1)), -1);
    assert_eq!(exit_code(None), 101);
}

#[test]
fn passthrough_targets_and_arguments_are_discarded() {
    let mut targets = texts(&["x86_64-unknown-linux-gnu"]);
    assert_eq!(discard_targets(&mut targets), Some("`--target` option is ignored".to_string()));
    assert!(targets.is_empty());
    assert_eq!(discard_targets(&mut targets), None);

    let mut args = texts(&["--foo", "bar"]);
    assert_eq!(discard_args(&mut args), Some("extra args `--foo bar` is ignored".to_string()));
    assert!(args.is_empty());
    assert_eq!(discard_args(&mut args), None);

    assert_eq!(event_stream_arg(&Vec::new()), Some("--message-format=json-render-diagnostics"));
    assert_eq!(event_stream_arg(&texts(&["short"])), None);
}
