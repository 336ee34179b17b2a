//! Synthesis of the emulator command from abstract options, and the command
//! that registers this tool as the runner of the produced binary.

use vstd::prelude::*;
use crate::platforms::{Arch, Platform};
use crate::text::{concat2, concat3, push_text};

verus! {

/// The kind of bus that virtual devices are attached to.
#[derive(Debug, Clone, Copy, PartialEq, Eq, Hash, Structural)]
pub enum BusType {
    Pci,
    Mmio,
}

impl Default for BusType {
    fn default() -> (r: BusType)
        ensures
            r == BusType::Pci,
    {
        BusType::Pci
    }
}

impl BusType {
    /// The bus kind as written on the command line.
    pub open spec fn spec_name(self) -> Seq<char> {
        match self {
            BusType::Pci => "pci"@,
            BusType::Mmio => "mmio"@,
        }
    }

    /// The bus kind as written on the command line.
    pub fn name(&self) -> (r: &'static str)
        ensures
            r@ == self.spec_name(),
    {
        match self {
            BusType::Pci => "pci",
            BusType::Mmio => "mmio",
        }
    }

    /// The ending of the names of the virtual devices on this bus.
    pub open spec fn spec_vdev_suffix(self) -> Seq<char> {
        match self {
            BusType::Pci => "pci"@,
            BusType::Mmio => "device"@,
        }
    }

    /// The ending of the names of the virtual devices on this bus.
    pub fn vdev_suffix(&self) -> (r: &'static str)
        ensures
            r@ == self.spec_vdev_suffix(),
    {
        match self {
            BusType::Pci => "pci",
            BusType::Mmio => "device",
        }
    }
}

/// The kind of network backend.
#[derive(Debug, Clone, Copy, PartialEq, Eq, Hash, Structural)]
pub enum NetDevType {
    User,
}

impl Default for NetDevType {
    fn default() -> (r: NetDevType)
        ensures
            r == NetDevType::User,
    {
        NetDevType::User
    }
}

impl NetDevType {
    /// The backend kind as written on the command line.
    pub open spec fn spec_name(self) -> Seq<char> {
        match self {
            NetDevType::User => "user"@,
        }
    }

    /// The backend kind as written on the command line.
    pub fn name(&self) -> (r: &'static str)
        ensures
            r@ == self.spec_name(),
    {
        match self {
            NetDevType::User => "user",
        }
    }

    /// The description of the backend that the emulator is given.
    pub open spec fn spec_backend(self) -> Seq<char> {
        match self {
            NetDevType::User => "user,id=net0,hostfwd=tcp::5555-:5555,hostfwd=udp::5555-:5555"@,
        }
    }

    /// The description of the backend that the emulator is given.
    pub fn backend(&self) -> (r: &'static str)
        ensures
            r@ == self.spec_backend(),
    {
        match self {
            NetDevType::User => "user,id=net0,hostfwd=tcp::5555-:5555,hostfwd=udp::5555-:5555",
        }
    }
}

/// What is known of the machine that the emulator will run on.
#[derive(Debug, Clone, Copy)]
pub struct Host {
    /// The host's own architecture, where it is one of the supported ones.
    pub arch: Option<Arch>,
    /// Whether the host's vendor is the one whose accelerator is always there.
    pub apple: bool,
    /// Whether the device node of the host's accelerator exists.
    pub kvm: bool,
}

impl Host {
    /// Whether the host can run code of `arch` natively: only x86_64 and
    /// aarch64 hosts count.
    pub open spec fn spec_native(self, arch: Arch) -> bool {
        self.arch == Some(arch) && (arch == Arch::X86_64 || arch == Arch::Aarch64)
    }

    /// Whether acceleration is chosen for `arch` without being asked for.
    pub open spec fn spec_detects_accel(self, arch: Arch) -> bool {
        self.spec_native(arch) && (self.apple || self.kvm)
    }

    /// The name of the accelerator backend on this host.
    pub open spec fn spec_accelerator(self) -> Seq<char> {
        if self.apple {
            "hvf"@
        } else {
            "kvm"@
        }
    }

    /// Whether acceleration is chosen for `arch` without being asked for.
    pub fn detects_accel(&self, arch: Arch) -> (r: bool)
        ensures
            r == self.spec_detects_accel(arch),
    {
        let native = match (self.arch, arch) {
            (Some(Arch::X86_64), Arch::X86_64) => true,
            (Some(Arch::Aarch64), Arch::Aarch64) => true,
            _ => false,
        };
        native && (self.apple || self.kvm)
    }

    /// The name of the accelerator backend on this host.
    pub fn accelerator(&self) -> (r: &'static str)
        ensures
            r@ == self.spec_accelerator(),
    {
        if self.apple {
            "hvf"
        } else {
            "kvm"
        }
    }
}

/// The options of the virtual machine.
#[derive(Debug, Clone)]
pub struct QEMUOptions {
    /// The number of processors, if it is not the one recorded at build time.
    pub smp: Option<String>,
    /// The memory size.
    pub mem: Option<String>,
    /// The bus kind of the devices.
    pub bus: Option<BusType>,
    /// Whether there is a network device, and of which kind.
    pub net: Option<Option<NetDevType>>,
    /// The file that network packets are dumped to.
    pub net_dump: Option<String>,
    /// The disk image.
    pub disk: Option<String>,
    /// Whether there is a display.
    pub graphics: bool,
    /// Whether hardware acceleration is asked for.
    pub accel: bool,
    /// Whether the emulator waits for a debugger.
    pub debug: bool,
}

/// A program and its arguments.
#[derive(Debug, Clone)]
pub struct Invocation {
    pub program: String,
    pub args: Vec<String>,
}

impl View for Invocation {
    type V = (Seq<char>, Seq<Seq<char>>);

    open spec fn view(&self) -> (Seq<char>, Seq<Seq<char>>) {
        (self.program@, self.args.deep_view())
    }
}

/// What the runner phase has to execute: a conversion of the image, where the
/// architecture needs one, and then the emulator.
#[derive(Debug, Clone)]
pub struct Launch {
    pub convert: Option<Invocation>,
    pub emulator: Invocation,
}

impl View for Launch {
    type V = (Option<(Seq<char>, Seq<Seq<char>>)>, (Seq<char>, Seq<Seq<char>>));

    open spec fn view(&self) -> (Option<(Seq<char>, Seq<Seq<char>>)>, (Seq<char>, Seq<Seq<char>>)) {
        (
            match self.convert {
                Some(c) => Some(c@),
                None => None,
            },
            self.emulator@,
        )
    }
}

/// Why no emulator command was made.
#[derive(Debug, Clone, Copy, PartialEq, Eq, Structural)]
pub enum RunError {
    /// Debugging and hardware acceleration were both asked for.
    DebugWithAccel,
    /// The recorded platform name is not the name of a platform.
    UnknownPlatform,
    /// The emulator cannot run the platform.
    UnsupportedPlatform(Platform),
}

/// The view of an optional text.
pub open spec fn opt_text(s: Option<String>) -> Option<Seq<char>> {
    match s {
        Some(t) => Some(t@),
        None => None,
    }
}

/// The arguments that name the image, the machine and the processor count.
pub open spec fn spec_base_args(kernel: Seq<char>, machine: Seq<char>, smp: Seq<char>) -> Seq<
    Seq<char>,
> {
    seq!["-kernel"@, kernel, "-machine"@, machine, "-smp"@, smp]
}

/// The argument pair that fixes the processor model, on the architectures
/// that need one.
pub open spec fn spec_cpu_args(arch: Arch) -> Seq<Seq<char>> {
    if arch == Arch::Aarch64 {
        seq!["-cpu"@, "cortex-a72"@]
    } else {
        Seq::empty()
    }
}

/// The argument pair that sets the memory size, if there is one to set.
pub open spec fn spec_memory_args(memory: Option<Seq<char>>) -> Seq<Seq<char>> {
    match memory {
        Some(m) => seq!["-m"@, m],
        None => Seq::empty(),
    }
}

/// The arguments for the network device and its backend.
pub open spec fn spec_net_args(net: Option<Option<NetDevType>>, suffix: Seq<char>) -> Seq<
    Seq<char>,
> {
    match net {
        Some(kind) => seq![
            "-device"@,
            "virtio-net-"@ + suffix + ",netdev=net0"@,
            "-netdev"@,
            (match kind {
                Some(k) => k,
                None => NetDevType::User,
            }).spec_backend(),
        ],
        None => Seq::empty(),
    }
}

/// The arguments for the packet filter that dumps the network traffic.
pub open spec fn spec_dump_args(dump: Option<Seq<char>>) -> Seq<Seq<char>> {
    match dump {
        Some(file) => seq!["-object"@, "filter-dump,id=dump0,netdev=net0,file="@ + file],
        None => Seq::empty(),
    }
}

/// The arguments for the block device and its drive.
pub open spec fn spec_disk_args(disk: Option<Seq<char>>, suffix: Seq<char>) -> Seq<Seq<char>> {
    match disk {
        Some(file) => seq![
            "-device"@,
            "virtio-blk-"@ + suffix + ",drive=disk0"@,
            "-drive"@,
            "id=disk0,if=none,format=raw,file="@ + file,
        ],
        None => Seq::empty(),
    }
}

/// The arguments for the display: a display device with the serial console
/// on the terminal, or no display at all.
pub open spec fn spec_display_args(graphics: bool, suffix: Seq<char>) -> Seq<Seq<char>> {
    if graphics {
        seq!["-device"@, "virtio-gpu-"@ + suffix, "-vga"@, "none"@, "-serial"@, "mon:stdio"@]
    } else {
        seq!["-nographic"@]
    }
}

/// The arguments for the debug stub or for hardware acceleration.
pub open spec fn spec_accel_args(debug: bool, accel: bool, arch: Arch, host: Host) -> Seq<
    Seq<char>,
> {
    if debug {
        seq!["-s"@, "-S"@]
    } else if accel || host.spec_detects_accel(arch) {
        seq!["-cpu"@, "host"@, "-accel"@, host.spec_accelerator()]
    } else {
        Seq::empty()
    }
}

/// The arguments of the conversion of `binary` into the raw image `image`.
pub open spec fn spec_convert_args(binary: Seq<char>, image: Seq<char>) -> Seq<Seq<char>> {
    seq!["--strip-all"@, "-O"@, "binary"@, binary, image]
}

impl QEMUOptions {
    /// The bus kind in force: the one given, or PCI.
    pub open spec fn spec_bus(&self) -> BusType {
        match self.bus {
            Some(b) => b,
            None => BusType::Pci,
        }
    }

    /// The processor count in force: the one given, or the recorded one.
    pub open spec fn spec_smp(&self, recorded: Seq<char>) -> Seq<char> {
        match self.smp {
            Some(s) => s@,
            None => recorded,
        }
    }

    /// The memory size in force: the one given, or the board's own.
    pub open spec fn spec_memory(&self, board: Option<Seq<char>>) -> Option<Seq<char>> {
        match self.mem {
            Some(m) => Some(m@),
            None => board,
        }
    }

    /// The emulator's arguments for a platform with the given machine type
    /// and board memory, booting the image `kernel`.
    pub open spec fn spec_emulator_args(
        &self,
        arch: Arch,
        machine: (Seq<char>, Option<Seq<char>>),
        kernel: Seq<char>,
        recorded_smp: Seq<char>,
        host: Host,
    ) -> Seq<Seq<char>> {
        let suffix = self.spec_bus().spec_vdev_suffix();
        spec_base_args(kernel, machine.0, self.spec_smp(recorded_smp)) + spec_cpu_args(arch)
            + spec_memory_args(self.spec_memory(machine.1)) + spec_net_args(self.net, suffix)
            + spec_dump_args(opt_text(self.net_dump)) + spec_disk_args(
            opt_text(self.disk),
            suffix,
        ) + spec_display_args(self.graphics, suffix) + spec_accel_args(
            self.debug,
            self.accel,
            arch,
            host,
        )
    }

    /// Why an emulator command cannot be made for `platform`, if it cannot.
    pub open spec fn spec_launch_error(&self, platform: Platform) -> Option<RunError> {
        if self.debug && self.accel {
            Some(RunError::DebugWithAccel)
        } else if platform.spec_machine() is None {
            Some(RunError::UnsupportedPlatform(platform))
        } else {
            None
        }
    }

    /// What has to be executed to run `binary` on `platform`, where
    /// `raw_image` is the file that a raw image is written to.
    pub open spec fn spec_launch(
        &self,
        platform: Platform,
        binary: Seq<char>,
        raw_image: Seq<char>,
        recorded_smp: Seq<char>,
        host: Host,
    ) -> (Option<(Seq<char>, Seq<Seq<char>>)>, (Seq<char>, Seq<Seq<char>>)) {
        let arch = platform.spec_arch();
        let raw = arch.spec_boots_raw_image();
        (
            if raw {
                Some(("rust-objcopy"@, spec_convert_args(binary, raw_image)))
            } else {
                None
            },
            (
                arch.spec_emulator(),
                self.spec_emulator_args(
                    arch,
                    platform.spec_machine().unwrap(),
                    if raw {
                        raw_image
                    } else {
                        binary
                    },
                    recorded_smp,
                    host,
                ),
            ),
        )
    }
}

fn push_base_args(args: &mut Vec<String>, kernel: &str, machine: &str, smp: &str)
    ensures
        final(args).deep_view() == old(args).deep_view() + spec_base_args(kernel@, machine@, smp@),
{
    push_text(args, "-kernel");
    push_text(args, kernel);
    push_text(args, "-machine");
    push_text(args, machine);
    push_text(args, "-smp");
    push_text(args, smp);
    assert(args.deep_view() =~= old(args).deep_view() + spec_base_args(kernel@, machine@, smp@));
}

fn push_cpu_args(args: &mut Vec<String>, arch: Arch)
    ensures
        final(args).deep_view() == old(args).deep_view() + spec_cpu_args(arch),
{
    if let Arch::Aarch64 = arch {
        push_text(args, "-cpu");
        push_text(args, "cortex-a72");
    }
    assert(args.deep_view() =~= old(args).deep_view() + spec_cpu_args(arch));
}

fn push_memory_args(args: &mut Vec<String>, memory: Option<&str>)
    ensures
        final(args).deep_view() == old(args).deep_view() + spec_memory_args(
            match memory {
                Some(m) => Some(m@),
                None => None,
            },
        ),
{
    if let Some(m) = memory {
        push_text(args, "-m");
        push_text(args, m);
    }
    assert(args.deep_view() =~= old(args).deep_view() + spec_memory_args(
        match memory {
            Some(m) => Some(m@),
            None => None,
        },
    ));
}

fn push_net_args(args: &mut Vec<String>, net: Option<Option<NetDevType>>, suffix: &str)
    ensures
        final(args).deep_view() == old(args).deep_view() + spec_net_args(net, suffix@),
{
    if let Some(kind) = net {
        let device = concat3("virtio-net-", suffix, ",netdev=net0");
        push_text(args, "-device");
        push_text(args, device.as_str());
        push_text(args, "-netdev");
        let kind = match kind {
            Some(k) => k,
            None => NetDevType::default(),
        };
        push_text(args, kind.backend());
    }
    assert(args.deep_view() =~= old(args).deep_view() + spec_net_args(net, suffix@));
}

fn push_dump_args(args: &mut Vec<String>, dump: &Option<String>)
    ensures
        final(args).deep_view() == old(args).deep_view() + spec_dump_args(opt_text(*dump)),
{
    if let Some(file) = dump {
        let filter = concat2("filter-dump,id=dump0,netdev=net0,file=", file.as_str());
        push_text(args, "-object");
        push_text(args, filter.as_str());
    }
    assert(args.deep_view() =~= old(args).deep_view() + spec_dump_args(opt_text(*dump)));
}

fn push_disk_args(args: &mut Vec<String>, disk: &Option<String>, suffix: &str)
    ensures
        final(args).deep_view() == old(args).deep_view() + spec_disk_args(
            opt_text(*disk),
            suffix@,
        ),
{
    if let Some(file) = disk {
        let device = concat3("virtio-blk-", suffix, ",drive=disk0");
        let drive = concat2("id=disk0,if=none,format=raw,file=", file.as_str());
        push_text(args, "-device");
        push_text(args, device.as_str());
        push_text(args, "-drive");
        push_text(args, drive.as_str());
    }
    assert(args.deep_view() =~= old(args).deep_view() + spec_disk_args(opt_text(*disk), suffix@));
}

fn push_display_args(args: &mut Vec<String>, graphics: bool, suffix: &str)
    ensures
        final(args).deep_view() == old(args).deep_view() + spec_display_args(graphics, suffix@),
{
    if graphics {
        let device = concat2("virtio-gpu-", suffix);
        push_text(args, "-device");
        push_text(args, device.as_str());
        push_text(args, "-vga");
        push_text(args, "none");
        push_text(args, "-serial");
        push_text(args, "mon:stdio");
    } else {
        push_text(args, "-nographic");
    }
    assert(args.deep_view() =~= old(args).deep_view() + spec_display_args(graphics, suffix@));
}

fn push_accel_args(args: &mut Vec<String>, debug: bool, accel: bool, arch: Arch, host: Host)
    ensures
        final(args).deep_view() == old(args).deep_view() + spec_accel_args(
            debug,
            accel,
            arch,
            host,
        ),
{
    if debug {
        push_text(args, "-s");
        push_text(args, "-S");
    } else {
        let accel = accel || host.detects_accel(arch);
        if accel {
            push_text(args, "-cpu");
            push_text(args, "host");
            push_text(args, "-accel");
            push_text(args, host.accelerator());
        }
    }
    assert(args.deep_view() =~= old(args).deep_view() + spec_accel_args(debug, accel, arch, host));
}

/// The conversion of `binary` into the raw image `image`.
pub fn convert_invocation(binary: &str, image: &str) -> (r: Invocation)
    ensures
        r@ == ("rust-objcopy"@, spec_convert_args(binary@, image@)),
{
    let mut args: Vec<String> = Vec::new();
    push_text(&mut args, "--strip-all");
    push_text(&mut args, "-O");
    push_text(&mut args, "binary");
    push_text(&mut args, binary);
    push_text(&mut args, image);
    assert(args.deep_view() =~= spec_convert_args(binary@, image@));
    Invocation { program: "rust-objcopy".to_owned(), args }
}

impl QEMUOptions {
    /// Makes the emulator's arguments for the architecture `arch` and the
    /// machine type `machine` with its board memory `board_memory`.
    pub fn emulator_args(
        &self,
        arch: Arch,
        machine: &str,
        board_memory: Option<&str>,
        kernel: &str,
        recorded_smp: &str,
        host: Host,
    ) -> (args: Vec<String>)
        ensures
            args.deep_view() == self.spec_emulator_args(
                arch,
                (
                    machine@,
                    match board_memory {
                        Some(m) => Some(m@),
                        None => None,
                    },
                ),
                kernel@,
                recorded_smp@,
                host,
            ),
    {
        let mut args: Vec<String> = Vec::new();
        let smp = match &self.smp {
            Some(s) => s.as_str(),
            None => recorded_smp,
        };
        push_base_args(&mut args, kernel, machine, smp);
        push_cpu_args(&mut args, arch);
        let memory = match &self.mem {
            Some(m) => Some(m.as_str()),
            None => board_memory,
        };
        push_memory_args(&mut args, memory);
        let bus = match self.bus {
            Some(b) => b,
            None => BusType::default(),
        };
        let suffix = bus.vdev_suffix();
        push_net_args(&mut args, self.net, suffix);
        push_dump_args(&mut args, &self.net_dump);
        push_disk_args(&mut args, &self.disk, suffix);
        push_display_args(&mut args, self.graphics, suffix);
        push_accel_args(&mut args, self.debug, self.accel, arch, host);
        args
    }

    /// Decides what has to be executed to run `binary` on `platform`.
    /// `raw_image` names the file for the raw image, `recorded_smp` is the
    /// processor count that the build recorded.
    pub fn launch(
        &self,
        platform: Platform,
        binary: &str,
        raw_image: &str,
        recorded_smp: &str,
        host: Host,
    ) -> (r: Result<Launch, RunError>)
        ensures
            match r {
                Ok(l) => self.spec_launch_error(platform) is None && l@ == self.spec_launch(
                    platform,
                    binary@,
                    raw_image@,
                    recorded_smp@,
                    host,
                ),
                Err(e) => self.spec_launch_error(platform) == Some(e),
            },
    {
        if self.debug && self.accel {
            return Err(RunError::DebugWithAccel);
        }
        let machine = match platform.machine() {
            Some(m) => m,
            None => {
                return Err(RunError::UnsupportedPlatform(platform));
            },
        };
        let arch = Arch::from(platform);
        let raw = arch.boots_raw_image();
        let convert = if raw {
            Some(convert_invocation(binary, raw_image))
        } else {
            None
        };
        let kernel = if raw {
            raw_image
        } else {
            binary
        };
        let args = self.emulator_args(arch, machine.name, machine.memory, kernel, recorded_smp, host);
        let emulator = Invocation { program: arch.emulator().to_owned(), args };
        Ok(Launch { convert, emulator })
    }
}

/// What heck's `to_shouty_snake_case` makes of a text: its words in upper
/// case, joined by underscores.
pub uninterp spec fn shouty_snake_case(s: Seq<char>) -> Seq<char>;

/// Calls `heck::ToShoutySnakeCase::to_shouty_snake_case` on `s`. The result
/// is believed to be the one function of `s` that `shouty_snake_case` names.
#[verifier::external_body]
fn to_shouty_snake_case(s: &str) -> (r: String)
    ensures
        r@ == shouty_snake_case(s@),
{
    heck::ToShoutySnakeCase::to_shouty_snake_case(s)
}

/// Calls `std::path::Path::with_extension` on a path held as text and hands
/// the new path back as text. Nothing is claimed of the result: it depends
/// on what the operating system takes for a path separator.
#[verifier::external_body]
fn with_extension(path: &str, extension: &str) -> (r: String)
    requires
        !extension@.contains('/'),
        !extension@.contains('\\'),
{
    std::path::Path::new(path).with_extension(extension).to_string_lossy().into_owned()
}

/// A flag with its value, or nothing where there is no value.
pub open spec fn spec_flag_value(flag: Seq<char>, value: Option<Seq<char>>) -> Seq<char> {
    match value {
        Some(v) => flag + v,
        None => Seq::empty(),
    }
}

/// A flag, or nothing where it is not set.
pub open spec fn spec_flag(flag: Seq<char>, set: bool) -> Seq<char> {
    if set {
        flag
    } else {
        Seq::empty()
    }
}

/// The network flag: absent, bare, or with the kind of backend.
pub open spec fn spec_net_flag(net: Option<Option<NetDevType>>) -> Seq<char> {
    match net {
        Some(Some(kind)) => " --net="@ + kind.spec_name(),
        Some(None) => " --net"@,
        None => Seq::empty(),
    }
}

/// The name of the variable under which the build tool looks for the runner
/// of a target, given the target's identifier in upper case with underscores.
pub open spec fn spec_runner_variable(shouty_target: Seq<char>) -> Seq<char> {
    "CARGO_TARGET_"@ + shouty_target + "_RUNNER"@
}

fn append_flag_value(text: &mut String, flag: &str, value: Option<&str>)
    ensures
        final(text)@ == old(text)@ + spec_flag_value(
            flag@,
            match value {
                Some(v) => Some(v@),
                None => None,
            },
        ),
{
    if let Some(v) = value {
        text.append(flag);
        text.append(v);
    }
    assert(text@ =~= old(text)@ + spec_flag_value(
        flag@,
        match value {
            Some(v) => Some(v@),
            None => None,
        },
    ));
}

fn append_flag(text: &mut String, flag: &str, set: bool)
    ensures
        final(text)@ == old(text)@ + spec_flag(flag@, set),
{
    if set {
        text.append(flag);
    }
    assert(text@ =~= old(text)@ + spec_flag(flag@, set));
}

fn append_net_flag(text: &mut String, net: Option<Option<NetDevType>>)
    ensures
        final(text)@ == old(text)@ + spec_net_flag(net),
{
    if let Some(kind) = net {
        if let Some(k) = kind {
            text.append(" --net=");
            text.append(k.name());
        } else {
            text.append(" --net");
        }
    }
    assert(text@ =~= old(text)@ + spec_net_flag(net));
}

fn as_text(s: &Option<String>) -> (r: Option<&str>)
    ensures
        match r {
            Some(t) => opt_text(*s) == Some(t@),
            None => s is None,
        },
{
    match s {
        Some(t) => Some(t.as_str()),
        None => None,
    }
}

/// The name of the variable under which the build tool looks for the runner
/// of a target, given the target's identifier in upper case with underscores.
pub fn runner_variable(shouty_target: &str) -> (r: String)
    ensures
        r@ == spec_runner_variable(shouty_target@),
{
    concat3("CARGO_TARGET_", shouty_target, "_RUNNER")
}

impl RunError {
    /// The error in words.
    pub open spec fn spec_message(self) -> Seq<char> {
        match self {
            RunError::DebugWithAccel => "the argument '--debug' cannot be used with '--accel'"@,
            RunError::UnknownPlatform => "Matching variant not found"@,
            RunError::UnsupportedPlatform(p) => "unsupported platform: "@ + p.spec_name(),
        }
    }

    /// The error in words.
    pub fn message(&self) -> (r: String)
        ensures
            r@ == self.spec_message(),
    {
        match self {
            RunError::DebugWithAccel => "the argument '--debug' cannot be used with '--accel'".to_owned(),
            RunError::UnknownPlatform => "Matching variant not found".to_owned(),
            RunError::UnsupportedPlatform(p) => concat2("unsupported platform: ", p.name()),
        }
    }
}

impl QEMUOptions {
    /// The command that runs this tool as the runner, with the options of
    /// the virtual machine handed on.
    pub open spec fn spec_runner_command(&self) -> Seq<char> {
        "cargo-arceos runner"@ + spec_flag_value(" --smp "@, opt_text(self.smp)) + spec_flag_value(
            " --mem "@,
            opt_text(self.mem),
        ) + spec_flag_value(
            " --bus "@,
            match self.bus {
                Some(b) => Some(b.spec_name()),
                None => None,
            },
        ) + spec_net_flag(self.net) + spec_flag_value(" --net-dump "@, opt_text(self.net_dump))
            + spec_flag_value(" --disk "@, opt_text(self.disk)) + spec_flag(
            " --graphics"@,
            self.graphics,
        ) + spec_flag(" --accel"@, self.accel) + spec_flag(" --debug"@, self.debug)
    }

    /// The command that runs this tool as the runner.
    pub fn runner_command(&self) -> (r: String)
        ensures
            r@ == self.spec_runner_command(),
    {
        let mut runner = "cargo-arceos runner".to_owned();
        append_flag_value(&mut runner, " --smp ", as_text(&self.smp));
        append_flag_value(&mut runner, " --mem ", as_text(&self.mem));
        let bus = match &self.bus {
            Some(b) => Some(b.name()),
            None => None,
        };
        append_flag_value(&mut runner, " --bus ", bus);
        append_net_flag(&mut runner, self.net);
        append_flag_value(&mut runner, " --net-dump ", as_text(&self.net_dump));
        append_flag_value(&mut runner, " --disk ", as_text(&self.disk));
        append_flag(&mut runner, " --graphics", self.graphics);
        append_flag(&mut runner, " --accel", self.accel);
        append_flag(&mut runner, " --debug", self.debug);
        runner
    }

    /// Registers this tool as the runner of the binaries built for `target`:
    /// returns the name of the variable to set and its value.
    pub fn apply(&self, target: &str) -> (r: (String, String))
        ensures
            r.0@ == spec_runner_variable(shouty_snake_case(target@)),
            r.1@ == self.spec_runner_command(),
    {
        let shouty = to_shouty_snake_case(target);
        (runner_variable(shouty.as_str()), self.runner_command())
    }

    /// Why the runner phase makes no emulator command, if it makes none.
    pub open spec fn spec_execute_error(&self, platform_name: Seq<char>) -> Option<RunError> {
        if self.debug && self.accel {
            Some(RunError::DebugWithAccel)
        } else {
            match Platform::spec_parse(platform_name) {
                Some(platform) => self.spec_launch_error(platform),
                None => Some(RunError::UnknownPlatform),
            }
        }
    }

    /// The runner phase: decides what has to be executed to run `binary`,
    /// given the platform name and the processor count that the build
    /// recorded. The raw image, where one is needed, is `binary` with the
    /// extension `bin`.
    pub fn execute(self, binary: &str, platform_name: &str, recorded_smp: &str, host: Host) -> (r:
        Result<Launch, RunError>)
        ensures
            match r {
                Ok(l) => self.spec_execute_error(platform_name@) is None && exists|raw: Seq<char>|
                    l@ == self.spec_launch(
                        Platform::spec_parse(platform_name@).unwrap(),
                        binary@,
                        raw,
                        recorded_smp@,
                        host,
                    ),
                Err(e) => self.spec_execute_error(platform_name@) == Some(e),
            },
    {
        if self.debug && self.accel {
            return Err(RunError::DebugWithAccel);
        }
        let platform = match Platform::parse(platform_name) {
            Some(p) => p,
            None => {
                return Err(RunError::UnknownPlatform);
            },
        };
        proof {
            reveal_strlit("bin");
        }
        let raw_image = with_extension(binary, "bin");
        self.launch(platform, binary, raw_image.as_str(), recorded_smp, host)
    }
}

proof fn lemma_concat_lacks(a: Seq<Seq<char>>, b: Seq<Seq<char>>, x: Seq<char>)
    requires
        !a.contains(x),
        !b.contains(x),
    ensures
        !(a + b).contains(x),
{
    assert forall|i: int| 0 <= i < (a + b).len() implies (a + b)[i] != x by {
        if i < a.len() {
            assert(a.contains(a[i]));
        } else {
            assert(b.contains(b[i - a.len()]));
        }
    }
}

proof fn lemma_fixed_arguments_are_not_headless()
    ensures
        "-kernel"@ != "-nographic"@,
        "-machine"@ != "-nographic"@,
        "-smp"@ != "-nographic"@,
        "-cpu"@ != "-nographic"@,
        "cortex-a72"@ != "-nographic"@,
        "-m"@ != "-nographic"@,
        "-device"@ != "-nographic"@,
        "-netdev"@ != "-nographic"@,
        "-object"@ != "-nographic"@,
        "-drive"@ != "-nographic"@,
        "-vga"@ != "-nographic"@,
        "none"@ != "-nographic"@,
        "-serial"@ != "-nographic"@,
        "mon:stdio"@ != "-nographic"@,
        "-s"@ != "-nographic"@,
        "-S"@ != "-nographic"@,
        "host"@ != "-nographic"@,
        "-accel"@ != "-nographic"@,
        "hvf"@ != "-nographic"@,
        "kvm"@ != "-nographic"@,
        "virt"@ != "-nographic"@,
        "raspi4b"@ != "-nographic"@,
        "q35"@ != "-nographic"@,
        "2G"@ != "-nographic"@,
        "1G"@ != "-nographic"@,
        NetDevType::User.spec_backend() != "-nographic"@,
        "-nographic"@.len() == 10,
        "-nographic"@[0] == '-',
        "virtio-net-"@.len() > 0 && "virtio-net-"@[0] == 'v',
        "virtio-blk-"@.len() > 0 && "virtio-blk-"@[0] == 'v',
        "virtio-gpu-"@.len() > 0 && "virtio-gpu-"@[0] == 'v',
        "filter-dump,id=dump0,netdev=net0,file="@.len() > 0
            && "filter-dump,id=dump0,netdev=net0,file="@[0] == 'f',
        "id=disk0,if=none,format=raw,file="@.len() > 0 && "id=disk0,if=none,format=raw,file="@[0]
            == 'i',
{
    reveal_strlit("-nographic");
    reveal_strlit("-kernel");
    reveal_strlit("-machine");
    reveal_strlit("-smp");
    reveal_strlit("-cpu");
    reveal_strlit("cortex-a72");
    reveal_strlit("-m");
    reveal_strlit("-device");
    reveal_strlit("-netdev");
    reveal_strlit("-object");
    reveal_strlit("-drive");
    reveal_strlit("-vga");
    reveal_strlit("none");
    reveal_strlit("-serial");
    reveal_strlit("mon:stdio");
    reveal_strlit("-s");
    reveal_strlit("-S");
    reveal_strlit("host");
    reveal_strlit("-accel");
    reveal_strlit("hvf");
    reveal_strlit("kvm");
    reveal_strlit("virt");
    reveal_strlit("raspi4b");
    reveal_strlit("q35");
    reveal_strlit("2G");
    reveal_strlit("1G");
    reveal_strlit("user,id=net0,hostfwd=tcp::5555-:5555,hostfwd=udp::5555-:5555");
    reveal_strlit("virtio-net-");
    reveal_strlit("virtio-blk-");
    reveal_strlit("virtio-gpu-");
    reveal_strlit("filter-dump,id=dump0,netdev=net0,file=");
    reveal_strlit("id=disk0,if=none,format=raw,file=");
    assert("-nographic"@.len() == 10);
    assert("-kernel"@.len() == 7);
    assert("-machine"@.len() == 8);
    assert("-smp"@.len() == 4);
    assert("-cpu"@.len() == 4);
    assert("cortex-a72"@[0] == 'c');
    assert("-m"@.len() == 2);
    assert("-device"@.len() == 7);
    assert("-netdev"@.len() == 7);
    assert("-object"@.len() == 7);
    assert("-drive"@.len() == 6);
    assert("-vga"@.len() == 4);
    assert("none"@.len() == 4);
    assert("-serial"@.len() == 7);
    assert("mon:stdio"@.len() == 9);
    assert("-s"@.len() == 2);
    assert("-S"@.len() == 2);
    assert("host"@.len() == 4);
    assert("-accel"@.len() == 6);
    assert("hvf"@.len() == 3);
    assert("kvm"@.len() == 3);
    assert("virt"@.len() == 4);
    assert("raspi4b"@.len() == 7);
    assert("q35"@.len() == 3);
    assert("2G"@.len() == 2);
    assert("1G"@.len() == 2);
    assert("user,id=net0,hostfwd=tcp::5555-:5555,hostfwd=udp::5555-:5555"@[0] == 'u');
}

/// With a display asked for, the emulator is never told to run headless and
/// is always told to put the serial console on the terminal. This is stated
/// of the options in which no text that becomes an argument of its own (the
/// paths of the binary and of the raw image, the processor counts, the
/// memory size) is itself the headless flag. Debugging together with
/// acceleration is refused whatever else is asked for.
pub proof fn lemma_graphics_is_never_headless(
    options: QEMUOptions,
    platform: Platform,
    binary: Seq<char>,
    raw_image: Seq<char>,
    recorded_smp: Seq<char>,
    host: Host,
)
    requires
        options.graphics,
        platform.spec_machine() is Some,
        binary != "-nographic"@,
        raw_image != "-nographic"@,
        recorded_smp != "-nographic"@,
        opt_text(options.smp) != Some("-nographic"@),
        opt_text(options.mem) != Some("-nographic"@),
    ensures
        !options.spec_launch(platform, binary, raw_image, recorded_smp, host).1.1.contains(
            "-nographic"@,
        ),
        exists|i: int|
            0 <= i && i + 1 < options.spec_launch(
                platform,
                binary,
                raw_image,
                recorded_smp,
                host,
            ).1.1.len() && #[trigger] options.spec_launch(
                platform,
                binary,
                raw_image,
                recorded_smp,
                host,
            ).1.1[i] == "-serial"@ && options.spec_launch(
                platform,
                binary,
                raw_image,
                recorded_smp,
                host,
            ).1.1[i + 1] == "mon:stdio"@,
        options.debug && options.accel ==> options.spec_launch_error(platform) == Some(
            RunError::DebugWithAccel,
        ),
{
    lemma_fixed_arguments_are_not_headless();
    let x = "-nographic"@;
    let arch = platform.spec_arch();
    let machine = platform.spec_machine().unwrap();
    let kernel = if arch.spec_boots_raw_image() {
        raw_image
    } else {
        binary
    };
    let suffix = options.spec_bus().spec_vdev_suffix();
    let base = spec_base_args(kernel, machine.0, options.spec_smp(recorded_smp));
    let cpu = spec_cpu_args(arch);
    let memory = spec_memory_args(options.spec_memory(machine.1));
    let net = spec_net_args(options.net, suffix);
    let dump = spec_dump_args(opt_text(options.net_dump));
    let disk = spec_disk_args(opt_text(options.disk), suffix);
    let display = spec_display_args(options.graphics, suffix);
    let accel = spec_accel_args(options.debug, options.accel, arch, host);
    let args = options.spec_launch(platform, binary, raw_image, recorded_smp, host).1.1;
    assert(args == base + cpu + memory + net + dump + disk + display + accel);
    assert(!base.contains(x)) by {
        assert forall|i: int| 0 <= i < base.len() implies base[i] != x by {}
    }
    assert(!cpu.contains(x)) by {
        assert forall|i: int| 0 <= i < cpu.len() implies cpu[i] != x by {}
    }
    assert(!memory.contains(x)) by {
        assert forall|i: int| 0 <= i < memory.len() implies memory[i] != x by {}
    }
    assert(!net.contains(x)) by {
        assert forall|i: int| 0 <= i < net.len() implies net[i] != x by {
            assert(("virtio-net-"@ + suffix + ",netdev=net0"@)[0] == 'v');
        }
    }
    assert(!dump.contains(x)) by {
        assert forall|i: int| 0 <= i < dump.len() implies dump[i] != x by {
            if options.net_dump is Some {
                let file = opt_text(options.net_dump).unwrap();
                assert(("filter-dump,id=dump0,netdev=net0,file="@ + file)[0] == 'f');
            }
        }
    }
    assert(!disk.contains(x)) by {
        assert forall|i: int| 0 <= i < disk.len() implies disk[i] != x by {
            assert(("virtio-blk-"@ + suffix + ",drive=disk0"@)[0] == 'v');
            if options.disk is Some {
                let file = opt_text(options.disk).unwrap();
                assert(("id=disk0,if=none,format=raw,file="@ + file)[0] == 'i');
            }
        }
    }
    assert(!display.contains(x)) by {
        assert forall|i: int| 0 <= i < display.len() implies display[i] != x by {
            assert(("virtio-gpu-"@ + suffix)[0] == 'v');
        }
    }
    assert(!accel.contains(x)) by {
        assert forall|i: int| 0 <= i < accel.len() implies accel[i] != x by {}
    }
    lemma_concat_lacks(base, cpu, x);
    lemma_concat_lacks(base + cpu, memory, x);
    lemma_concat_lacks(base + cpu + memory, net, x);
    lemma_concat_lacks(base + cpu + memory + net, dump, x);
    lemma_concat_lacks(base + cpu + memory + net + dump, disk, x);
    lemma_concat_lacks(base + cpu + memory + net + dump + disk, display, x);
    lemma_concat_lacks(base + cpu + memory + net + dump + disk + display, accel, x);
    let before = base + cpu + memory + net + dump + disk;
    let at = before.len() as int + 4;
    assert(display[4] == "-serial"@ && display[5] == "mon:stdio"@);
    assert(args[at] == "-serial"@);
    assert(args[at + 1] == "mon:stdio"@);
}

} // verus!
