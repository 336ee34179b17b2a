//! The static registry of supported platforms and architectures.

use vstd::prelude::*;
use vstd::std_specs::convert::FromSpecImpl;
use crate::text::same_text;

verus! {

/// A supported target platform. `Dummy` stands for "no real target requested".
#[allow(non_camel_case_types)]
#[derive(Debug, Clone, Copy, PartialEq, Eq, Hash, Structural)]
pub enum Platform {
    Dummy,
    AARCH64_BSTA1000B,
    AARCH64_PHYTIUM_PI,
    AARCH64_QEMU_VIRT,
    AARCH64_RASPI4,
    LOONGARCH64_QEMU_VIRT,
    RISCV64_QEMU_VIRT,
    X86_64_PC_OSLAB,
    X86_64_QEMU_Q35,
}

/// A supported processor architecture.
#[derive(Debug, Clone, Copy, PartialEq, Eq, Hash, Structural)]
pub enum Arch {
    Aarch64,
    Loongarch64,
    Riscv64,
    X86_64,
}

impl Arch {
    /// The platform that is built for when only the architecture is given.
    pub open spec fn spec_default_platform(self) -> Platform {
        match self {
            Arch::Aarch64 => Platform::AARCH64_QEMU_VIRT,
            Arch::Loongarch64 => Platform::LOONGARCH64_QEMU_VIRT,
            Arch::Riscv64 => Platform::RISCV64_QEMU_VIRT,
            Arch::X86_64 => Platform::X86_64_QEMU_Q35,
        }
    }

    /// The identifier of the architecture, as written on the command line.
    pub open spec fn spec_name(self) -> Seq<char> {
        match self {
            Arch::Aarch64 => "aarch64"@,
            Arch::Loongarch64 => "loongarch64"@,
            Arch::Riscv64 => "riscv64"@,
            Arch::X86_64 => "x86_64"@,
        }
    }

    /// The identifier of the architecture.
    pub fn name(&self) -> (r: &'static str)
        ensures
            r@ == self.spec_name(),
    {
        match self {
            Arch::Aarch64 => "aarch64",
            Arch::Loongarch64 => "loongarch64",
            Arch::Riscv64 => "riscv64",
            Arch::X86_64 => "x86_64",
        }
    }
}

impl Platform {
    /// The architecture that the platform runs on. The dummy platform counts
    /// as x86_64.
    pub open spec fn spec_arch(self) -> Arch {
        match self {
            Platform::AARCH64_BSTA1000B
            | Platform::AARCH64_PHYTIUM_PI
            | Platform::AARCH64_QEMU_VIRT
            | Platform::AARCH64_RASPI4 => Arch::Aarch64,
            Platform::LOONGARCH64_QEMU_VIRT => Arch::Loongarch64,
            Platform::RISCV64_QEMU_VIRT => Arch::Riscv64,
            Platform::X86_64_PC_OSLAB | Platform::X86_64_QEMU_Q35 => Arch::X86_64,
            Platform::Dummy => Arch::X86_64,
        }
    }
}

impl From<Arch> for Platform {
    fn from(arch: Arch) -> (r: Platform) {
        match arch {
            Arch::Aarch64 => Platform::AARCH64_QEMU_VIRT,
            Arch::Loongarch64 => Platform::LOONGARCH64_QEMU_VIRT,
            Arch::Riscv64 => Platform::RISCV64_QEMU_VIRT,
            Arch::X86_64 => Platform::X86_64_QEMU_Q35,
        }
    }
}

impl FromSpecImpl<Arch> for Platform {
    open spec fn obeys_from_spec() -> bool {
        true
    }

    open spec fn from_spec(arch: Arch) -> Platform {
        arch.spec_default_platform()
    }
}

impl From<Platform> for Arch {
    fn from(platform: Platform) -> (r: Arch) {
        match platform {
            Platform::AARCH64_BSTA1000B
            | Platform::AARCH64_PHYTIUM_PI
            | Platform::AARCH64_QEMU_VIRT
            | Platform::AARCH64_RASPI4 => Arch::Aarch64,
            Platform::LOONGARCH64_QEMU_VIRT => Arch::Loongarch64,
            Platform::RISCV64_QEMU_VIRT => Arch::Riscv64,
            Platform::X86_64_PC_OSLAB | Platform::X86_64_QEMU_Q35 => Arch::X86_64,
            Platform::Dummy => Arch::X86_64,
        }
    }
}

impl FromSpecImpl<Platform> for Arch {
    open spec fn obeys_from_spec() -> bool {
        true
    }

    open spec fn from_spec(platform: Platform) -> Arch {
        platform.spec_arch()
    }
}

/// What the emulator is told about the board of a platform.
#[derive(Debug, Clone, Copy)]
pub struct Machine {
    /// The emulator's name of the machine type.
    pub name: &'static str,
    /// The memory size that the board must be given, if it has one.
    pub memory: Option<&'static str>,
}

impl Machine {
    /// The machine's name and the memory size as character sequences.
    pub open spec fn view(&self) -> (Seq<char>, Option<Seq<char>>) {
        (
            self.name@,
            match self.memory {
                Some(m) => Some(m@),
                None => None,
            },
        )
    }
}

impl Arch {
    /// The architecture that `name` identifies, if any.
    pub open spec fn spec_parse(name: Seq<char>) -> Option<Arch> {
        if name == "aarch64"@ {
            Some(Arch::Aarch64)
        } else if name == "loongarch64"@ {
            Some(Arch::Loongarch64)
        } else if name == "riscv64"@ {
            Some(Arch::Riscv64)
        } else if name == "x86_64"@ {
            Some(Arch::X86_64)
        } else {
            None
        }
    }

    /// Reads an architecture identifier.
    pub fn parse(name: &str) -> (r: Option<Arch>)
        ensures
            r == Arch::spec_parse(name@),
    {
        if same_text(name, "aarch64") {
            Some(Arch::Aarch64)
        } else if same_text(name, "loongarch64") {
            Some(Arch::Loongarch64)
        } else if same_text(name, "riscv64") {
            Some(Arch::Riscv64)
        } else if same_text(name, "x86_64") {
            Some(Arch::X86_64)
        } else {
            None
        }
    }

    /// The identifier of the compilation target for the architecture. Only
    /// aarch64 has a variant for soft float.
    pub open spec fn spec_target(self, soft_float: bool) -> Seq<char> {
        match self {
            Arch::Aarch64 => if soft_float {
                "aarch64-unknown-none-softfloat"@
            } else {
                "aarch64-unknown-none"@
            },
            Arch::Loongarch64 => "loongarch64-unknown-none"@,
            Arch::Riscv64 => "riscv64gc-unknown-none-elf"@,
            Arch::X86_64 => "x86_64-unknown-none"@,
        }
    }

    /// The identifier of the compilation target for the architecture.
    pub fn target(&self, soft_float: bool) -> (r: &'static str)
        ensures
            r@ == self.spec_target(soft_float),
    {
        match self {
            Arch::Aarch64 => if soft_float {
                "aarch64-unknown-none-softfloat"
            } else {
                "aarch64-unknown-none"
            },
            Arch::Loongarch64 => "loongarch64-unknown-none",
            Arch::Riscv64 => "riscv64gc-unknown-none-elf",
            Arch::X86_64 => "x86_64-unknown-none",
        }
    }

    /// The name of the emulator program for the architecture.
    pub open spec fn spec_emulator(self) -> Seq<char> {
        match self {
            Arch::Aarch64 => "qemu-system-aarch64"@,
            Arch::Loongarch64 => "qemu-system-loongarch64"@,
            Arch::Riscv64 => "qemu-system-riscv64"@,
            Arch::X86_64 => "qemu-system-x86_64"@,
        }
    }

    /// The name of the emulator program for the architecture.
    pub fn emulator(&self) -> (r: &'static str)
        ensures
            r@ == self.spec_emulator(),
    {
        match self {
            Arch::Aarch64 => "qemu-system-aarch64",
            Arch::Loongarch64 => "qemu-system-loongarch64",
            Arch::Riscv64 => "qemu-system-riscv64",
            Arch::X86_64 => "qemu-system-x86_64",
        }
    }

    /// Whether the emulator boots a raw binary image on this architecture,
    /// so that the linked binary has to be converted first.
    pub open spec fn spec_boots_raw_image(self) -> bool {
        self == Arch::Aarch64 || self == Arch::Riscv64
    }

    /// Whether the linked binary has to be converted to a raw image first.
    pub fn boots_raw_image(&self) -> (r: bool)
        ensures
            r == self.spec_boots_raw_image(),
    {
        match self {
            Arch::Aarch64 | Arch::Riscv64 => true,
            _ => false,
        }
    }
}

impl Platform {
    /// The identifier of the platform, as written on the command line.
    pub open spec fn spec_name(self) -> Seq<char> {
        match self {
            Platform::Dummy => "dummy"@,
            Platform::AARCH64_BSTA1000B => "aarch64-bsta1000b"@,
            Platform::AARCH64_PHYTIUM_PI => "aarch64-phytium-pi"@,
            Platform::AARCH64_QEMU_VIRT => "aarch64-qemu-virt"@,
            Platform::AARCH64_RASPI4 => "aarch64-raspi4"@,
            Platform::LOONGARCH64_QEMU_VIRT => "loongarch64-qemu-virt"@,
            Platform::RISCV64_QEMU_VIRT => "riscv64-qemu-virt"@,
            Platform::X86_64_PC_OSLAB => "x86_64-pc-oslab"@,
            Platform::X86_64_QEMU_Q35 => "x86_64-qemu-q35"@,
        }
    }

    /// The identifier of the platform.
    pub fn name(&self) -> (r: &'static str)
        ensures
            r@ == self.spec_name(),
    {
        match self {
            Platform::Dummy => "dummy",
            Platform::AARCH64_BSTA1000B => "aarch64-bsta1000b",
            Platform::AARCH64_PHYTIUM_PI => "aarch64-phytium-pi",
            Platform::AARCH64_QEMU_VIRT => "aarch64-qemu-virt",
            Platform::AARCH64_RASPI4 => "aarch64-raspi4",
            Platform::LOONGARCH64_QEMU_VIRT => "loongarch64-qemu-virt",
            Platform::RISCV64_QEMU_VIRT => "riscv64-qemu-virt",
            Platform::X86_64_PC_OSLAB => "x86_64-pc-oslab",
            Platform::X86_64_QEMU_Q35 => "x86_64-qemu-q35",
        }
    }

    /// The platform that `name` identifies, if any.
    pub open spec fn spec_parse(name: Seq<char>) -> Option<Platform> {
        if name == "dummy"@ {
            Some(Platform::Dummy)
        } else if name == "aarch64-bsta1000b"@ {
            Some(Platform::AARCH64_BSTA1000B)
        } else if name == "aarch64-phytium-pi"@ {
            Some(Platform::AARCH64_PHYTIUM_PI)
        } else if name == "aarch64-qemu-virt"@ {
            Some(Platform::AARCH64_QEMU_VIRT)
        } else if name == "aarch64-raspi4"@ {
            Some(Platform::AARCH64_RASPI4)
        } else if name == "loongarch64-qemu-virt"@ {
            Some(Platform::LOONGARCH64_QEMU_VIRT)
        } else if name == "riscv64-qemu-virt"@ {
            Some(Platform::RISCV64_QEMU_VIRT)
        } else if name == "x86_64-pc-oslab"@ {
            Some(Platform::X86_64_PC_OSLAB)
        } else if name == "x86_64-qemu-q35"@ {
            Some(Platform::X86_64_QEMU_Q35)
        } else {
            None
        }
    }

    /// Reads a platform identifier.
    pub fn parse(name: &str) -> (r: Option<Platform>)
        ensures
            r == Platform::spec_parse(name@),
    {
        if same_text(name, "dummy") {
            Some(Platform::Dummy)
        } else if same_text(name, "aarch64-bsta1000b") {
            Some(Platform::AARCH64_BSTA1000B)
        } else if same_text(name, "aarch64-phytium-pi") {
            Some(Platform::AARCH64_PHYTIUM_PI)
        } else if same_text(name, "aarch64-qemu-virt") {
            Some(Platform::AARCH64_QEMU_VIRT)
        } else if same_text(name, "aarch64-raspi4") {
            Some(Platform::AARCH64_RASPI4)
        } else if same_text(name, "loongarch64-qemu-virt") {
            Some(Platform::LOONGARCH64_QEMU_VIRT)
        } else if same_text(name, "riscv64-qemu-virt") {
            Some(Platform::RISCV64_QEMU_VIRT)
        } else if same_text(name, "x86_64-pc-oslab") {
            Some(Platform::X86_64_PC_OSLAB)
        } else if same_text(name, "x86_64-qemu-q35") {
            Some(Platform::X86_64_QEMU_Q35)
        } else {
            None
        }
    }

    /// The machine type and the fixed memory size of the platforms that the
    /// emulator can run; `None` for the others.
    pub open spec fn spec_machine(self) -> Option<(Seq<char>, Option<Seq<char>>)> {
        match self {
            Platform::AARCH64_QEMU_VIRT => Some(("virt"@, None)),
            Platform::AARCH64_RASPI4 => Some(("raspi4b"@, Some("2G"@))),
            Platform::LOONGARCH64_QEMU_VIRT => Some(("virt"@, Some("1G"@))),
            Platform::RISCV64_QEMU_VIRT => Some(("virt"@, None)),
            Platform::X86_64_QEMU_Q35 => Some(("q35"@, None)),
            _ => None,
        }
    }

    /// Looks the platform up in the table of emulated machines.
    pub fn machine(&self) -> (r: Option<Machine>)
        ensures
            match r {
                Some(m) => self.spec_machine() == Some(m.view()),
                None => self.spec_machine() is None,
            },
    {
        match self {
            Platform::AARCH64_QEMU_VIRT => Some(Machine { name: "virt", memory: None }),
            Platform::AARCH64_RASPI4 => Some(Machine { name: "raspi4b", memory: Some("2G") }),
            Platform::LOONGARCH64_QEMU_VIRT => Some(Machine { name: "virt", memory: Some("1G") }),
            Platform::RISCV64_QEMU_VIRT => Some(Machine { name: "virt", memory: None }),
            Platform::X86_64_QEMU_Q35 => Some(Machine { name: "q35", memory: None }),
            _ => None,
        }
    }
}

/// The choice of a target on the command line: an architecture, a platform,
/// or neither.
#[derive(Debug, Clone, Copy)]
pub struct ArchOrPlatform {
    /// Target architecture.
    pub arch: Option<Arch>,
    /// Target platform.
    pub platform: Option<Platform>,
}

impl ArchOrPlatform {
    /// The platform that the choice stands for: the default platform of the
    /// architecture if one is given, else the platform if one is given, else
    /// the dummy platform.
    pub open spec fn spec_platform(self) -> Platform {
        match self.arch {
            Some(arch) => arch.spec_default_platform(),
            None => match self.platform {
                Some(platform) => platform,
                None => Platform::Dummy,
            },
        }
    }
}

impl From<ArchOrPlatform> for Platform {
    fn from(value: ArchOrPlatform) -> (r: Platform) {
        if let Some(arch) = value.arch {
            Platform::from(arch)
        } else if let Some(platform) = value.platform {
            platform
        } else {
            Platform::Dummy
        }
    }
}

impl FromSpecImpl<ArchOrPlatform> for Platform {
    open spec fn obeys_from_spec() -> bool {
        true
    }

    open spec fn from_spec(value: ArchOrPlatform) -> Platform {
        value.spec_platform()
    }
}

/// Every platform is found again under its identifier, and no other text
/// identifies it.
pub proof fn lemma_platform_name_round_trip(p: Platform, name: Seq<char>)
    ensures
        Platform::spec_parse(p.spec_name()) == Some(p),
        Platform::spec_parse(name) == Some(p) ==> name == p.spec_name(),
{
    reveal_strlit("dummy");
    reveal_strlit("aarch64-bsta1000b");
    reveal_strlit("aarch64-phytium-pi");
    reveal_strlit("aarch64-qemu-virt");
    reveal_strlit("aarch64-raspi4");
    reveal_strlit("loongarch64-qemu-virt");
    reveal_strlit("riscv64-qemu-virt");
    reveal_strlit("x86_64-pc-oslab");
    reveal_strlit("x86_64-qemu-q35");
    assert("dummy"@.len() == 5);
    assert("aarch64-bsta1000b"@.len() == 17 && "aarch64-bsta1000b"@[8] == 'b');
    assert("aarch64-phytium-pi"@.len() == 18);
    assert("aarch64-qemu-virt"@.len() == 17 && "aarch64-qemu-virt"@[0] == 'a'
        && "aarch64-qemu-virt"@[8] == 'q');
    assert("aarch64-raspi4"@.len() == 14);
    assert("loongarch64-qemu-virt"@.len() == 21);
    assert("riscv64-qemu-virt"@.len() == 17 && "riscv64-qemu-virt"@[0] == 'r'
        && "riscv64-qemu-virt"@[8] == 'q');
    assert("x86_64-pc-oslab"@.len() == 15 && "x86_64-pc-oslab"@[7] == 'p');
    assert("x86_64-qemu-q35"@.len() == 15 && "x86_64-qemu-q35"@[7] == 'q');
}

/// Every architecture is found again under its identifier, and no other text
/// identifies it.
pub proof fn lemma_arch_name_round_trip(a: Arch, name: Seq<char>)
    ensures
        Arch::spec_parse(a.spec_name()) == Some(a),
        Arch::spec_parse(name) == Some(a) ==> name == a.spec_name(),
{
    reveal_strlit("aarch64");
    reveal_strlit("loongarch64");
    reveal_strlit("riscv64");
    reveal_strlit("x86_64");
    assert("aarch64"@.len() == 7 && "aarch64"@[0] == 'a');
    assert("loongarch64"@.len() == 11);
    assert("riscv64"@.len() == 7 && "riscv64"@[0] == 'r');
    assert("x86_64"@.len() == 6);
}

} // verus!
