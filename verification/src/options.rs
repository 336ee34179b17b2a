//! The options of a build, and the arguments and environment variables
//! that they become for the build tool.

use vstd::prelude::*;
use crate::config::{cpu_key, spec_merge, toml_value};
use crate::platforms::{Arch, ArchOrPlatform, Platform};
use crate::text::{concat3, contains_text, decimal, decimal_string, joined, push_pair, push_text};

verus! {

/// The most verbose level of messages that the kernel logs.
#[derive(Debug, Clone, Copy, PartialEq, Eq, Hash, Structural)]
pub enum LogLevel {
    Off,
    Error,
    Warn,
    Info,
    Debug,
    Trace,
}

impl LogLevel {
    /// The level as the kernel's build reads it: in capitals.
    pub open spec fn spec_name(self) -> Seq<char> {
        match self {
            LogLevel::Off => "OFF"@,
            LogLevel::Error => "ERROR"@,
            LogLevel::Warn => "WARN"@,
            LogLevel::Info => "INFO"@,
            LogLevel::Debug => "DEBUG"@,
            LogLevel::Trace => "TRACE"@,
        }
    }

    /// The level in capitals.
    pub fn name(&self) -> (r: &'static str)
        ensures
            r@ == self.spec_name(),
    {
        match self {
            LogLevel::Off => "OFF",
            LogLevel::Error => "ERROR",
            LogLevel::Warn => "WARN",
            LogLevel::Info => "INFO",
            LogLevel::Debug => "DEBUG",
            LogLevel::Trace => "TRACE",
        }
    }
}

/// An IPv4 address, by its four numbers.
#[derive(Debug, Clone, Copy, PartialEq, Eq, Hash, Structural)]
pub struct Ipv4 {
    pub a: u8,
    pub b: u8,
    pub c: u8,
    pub d: u8,
}

impl Ipv4 {
    /// The address in dotted decimal notation.
    pub open spec fn spec_text(self) -> Seq<char> {
        decimal(self.a as nat) + "."@ + decimal(self.b as nat) + "."@ + decimal(self.c as nat)
            + "."@ + decimal(self.d as nat)
    }

    /// The address in dotted decimal notation.
    pub fn text(&self) -> (r: String)
        ensures
            r@ == self.spec_text(),
    {
        let mut r = decimal_string(self.a as u32);
        r.append(".");
        r.append(decimal_string(self.b as u32).as_str());
        r.append(".");
        r.append(decimal_string(self.c as u32).as_str());
        r.append(".");
        r.append(decimal_string(self.d as u32).as_str());
        r
    }
}

/// A capability that some packages have to be built with under some
/// condition.
#[derive(Debug, Clone, Copy, PartialEq, Eq, Hash, Structural)]
pub enum Feature {
    /// Support for more than one processor.
    Smp,
    /// Support for floating point and SIMD registers.
    FpSimd,
}

impl Feature {
    /// The name under which packages declare the capability.
    pub open spec fn spec_name(self) -> Seq<char> {
        match self {
            Feature::Smp => "smp"@,
            Feature::FpSimd => "fp_simd"@,
        }
    }

    /// The name under which packages declare the capability.
    pub fn name(&self) -> (r: &'static str)
        ensures
            r@ == self.spec_name(),
    {
        match self {
            Feature::Smp => "smp",
            Feature::FpSimd => "fp_simd",
        }
    }

    /// The condition under which the capability is needed, in words.
    pub open spec fn spec_cond(self) -> Seq<char> {
        match self {
            Feature::Smp => "number of CPUs > 1"@,
            Feature::FpSimd => "compiling to AArch64 without soft float"@,
        }
    }

    /// The condition under which the capability is needed, in words.
    pub fn cond(&self) -> (r: &'static str)
        ensures
            r@ == self.spec_cond(),
    {
        match self {
            Feature::Smp => "number of CPUs > 1",
            Feature::FpSimd => "compiling to AArch64 without soft float",
        }
    }

    /// The packages that have to declare the capability.
    pub open spec fn spec_packages(self) -> Seq<Seq<char>> {
        match self {
            Feature::Smp => seq![
                "axlibc"@,
                "arceos_posix_api"@,
                "axstd"@,
                "axfeat"@,
                "axhal"@,
                "axruntime"@,
                "axtask"@,
            ],
            Feature::FpSimd => seq!["axlibc"@, "axstd"@, "axfeat"@, "axhal"@],
        }
    }

    /// The packages that have to declare the capability.
    pub fn packages(&self) -> (r: Vec<String>)
        ensures
            r.deep_view() == self.spec_packages(),
    {
        let mut r: Vec<String> = Vec::new();
        match self {
            Feature::Smp => {
                push_text(&mut r, "axlibc");
                push_text(&mut r, "arceos_posix_api");
                push_text(&mut r, "axstd");
                push_text(&mut r, "axfeat");
                push_text(&mut r, "axhal");
                push_text(&mut r, "axruntime");
                push_text(&mut r, "axtask");
            },
            Feature::FpSimd => {
                push_text(&mut r, "axlibc");
                push_text(&mut r, "axstd");
                push_text(&mut r, "axfeat");
                push_text(&mut r, "axhal");
            },
        }
        assert(r.deep_view() =~= self.spec_packages());
        r
    }

    /// The warning that `package` lacks the capability.
    pub open spec fn spec_warning(self, package: Seq<char>) -> Seq<char> {
        "feature `"@ + self.spec_name() + "` should be enabled for package `"@ + package
            + "` when "@ + self.spec_cond()
    }

    /// The warning that `package` lacks the capability.
    pub fn warning(&self, package: &str) -> (r: String)
        ensures
            r@ == self.spec_warning(package@),
    {
        let mut r = concat3("feature `", self.name(), "` should be enabled for package `");
        r.append(package);
        r.append("` when ");
        r.append(self.cond());
        r
    }

    /// The warning about this capability for a package that declares the
    /// capabilities `declared`: one warning where the package has to declare
    /// it and does not, none otherwise.
    pub open spec fn spec_check(self, package: Seq<char>, declared: Seq<Seq<char>>) -> Seq<
        Seq<char>,
    > {
        if self.spec_packages().contains(package) && !declared.contains(self.spec_name()) {
            seq![self.spec_warning(package)]
        } else {
            Seq::empty()
        }
    }
}

/// The warnings about the capabilities `needed`, in their order.
pub open spec fn spec_check_all(needed: Seq<Feature>, package: Seq<char>, declared: Seq<Seq<char>>) -> Seq<
    Seq<char>,
>
    decreases needed.len(),
{
    if needed.len() == 0 {
        Seq::empty()
    } else {
        spec_check_all(needed.drop_last(), package, declared) + needed.last().spec_check(
            package,
            declared,
        )
    }
}

/// The three arguments that the linker needs for a real platform: the
/// linker script of the platform in the directory of the binary, no
/// position-independent executable, and no garbage collection of the
/// sections between start and stop symbols.
pub open spec fn spec_link_args(binary_dir: Seq<char>, platform: Platform) -> Seq<Seq<char>> {
    seq![
        "-C link-arg=-T"@ + binary_dir + "/linker_"@ + platform.spec_name() + ".lds"@,
        "-C link-arg=-no-pie"@,
        "-C link-arg=-znostart-stop-gc"@,
    ]
}

/// The compiler flags for a real platform: the three link arguments with a
/// blank between them.
pub open spec fn spec_link_flags(binary_dir: Seq<char>, platform: Platform) -> Seq<char> {
    joined(spec_link_args(binary_dir, platform), " "@)
}

/// The compiler flags for a platform: none for the dummy platform, the
/// three link arguments for every other.
pub fn link_flags(binary_dir: &str, platform: Platform) -> (r: Option<String>)
    ensures
        match r {
            Some(flags) => platform != Platform::Dummy && flags@ == spec_link_flags(
                binary_dir@,
                platform,
            ),
            None => platform == Platform::Dummy,
        },
{
    if let Platform::Dummy = platform {
        return None;
    }
    let mut flags = concat3("-C link-arg=-T", binary_dir, "/linker_");
    flags.append(platform.name());
    flags.append(".lds");
    let ghost first = flags@;
    flags.append(" ");
    flags.append("-C link-arg=-no-pie");
    flags.append(" ");
    flags.append("-C link-arg=-znostart-stop-gc");
    proof {
        let args = spec_link_args(binary_dir@, platform);
        assert(args[0] == first);
        assert(args.drop_last().drop_last() =~= seq![first]);
        assert(args.drop_last() =~= seq![first, "-C link-arg=-no-pie"@]);
        reveal_with_fuel(joined, 3);
        assert(joined(args.drop_last().drop_last(), " "@) == first);
        assert(joined(args.drop_last(), " "@) == first + " "@ + "-C link-arg=-no-pie"@);
        assert(flags@ =~= joined(args, " "@));
    }
    Some(flags)
}

/// What the build tool is to be called with in addition: arguments and
/// environment variables.
#[derive(Debug, Clone)]
pub struct CommandPatch {
    pub args: Vec<String>,
    pub env: Vec<(String, String)>,
}

/// The options of a build.
#[derive(Debug, Clone)]
pub struct ArceOSOptions {
    /// The target, by architecture or by platform.
    pub arch_or_platform: ArchOrPlatform,
    /// Whether floating point is done in software.
    pub soft_float: bool,
    /// The number of processors.
    pub cpus: u32,
    /// The paths of the override files, in the order in which they apply.
    pub configs: Vec<String>,
    /// The log level.
    pub log: LogLevel,
    /// The address of the kernel.
    pub ip: Ipv4,
    /// The address of the gateway.
    pub gateway: Ipv4,
}

impl ArceOSOptions {
    /// The platform that is built for.
    pub open spec fn spec_platform(&self) -> Platform {
        self.arch_or_platform.spec_platform()
    }

    /// The architecture that is built for.
    pub open spec fn spec_arch(&self) -> Arch {
        self.spec_platform().spec_arch()
    }

    /// The identifier of the compilation target.
    pub open spec fn spec_target(&self) -> Seq<char> {
        self.spec_arch().spec_target(self.soft_float)
    }

    /// The platform that is built for.
    pub fn platform(&self) -> (r: Platform)
        ensures
            r == self.spec_platform(),
    {
        Platform::from(self.arch_or_platform)
    }

    /// The architecture that is built for.
    pub fn arch(&self) -> (r: Arch)
        ensures
            r == self.spec_arch(),
    {
        Arch::from(self.platform())
    }

    /// The identifier of the compilation target.
    pub fn target(&self) -> (r: &'static str)
        ensures
            r@ == self.spec_target(),
    {
        self.arch().target(self.soft_float)
    }

    /// The arguments that select the compilation target.
    pub open spec fn spec_args(&self) -> Seq<Seq<char>> {
        seq!["--target"@, self.spec_target()]
    }

    /// The environment variables that every build gets.
    pub open spec fn spec_common_env(&self, config_path: Seq<char>, profile: Seq<char>) -> Seq<
        (Seq<char>, Seq<char>),
    > {
        seq![
            ("AX_CONFIG_PATH"@, config_path),
            ("AX_PLATFORM"@, self.spec_platform().spec_name()),
            ("AX_ARCH"@, self.spec_arch().spec_name()),
            ("AX_SMP"@, decimal(self.cpus as nat)),
            ("AX_TARGET"@, self.spec_target()),
            ("AX_MODE"@, profile),
            ("AX_LOG"@, self.log.spec_name()),
            ("AX_IP"@, self.ip.spec_text()),
            ("AX_GW"@, self.gateway.spec_text()),
        ]
    }

    /// The environment variable with the compiler flags, for a real
    /// platform only.
    pub open spec fn spec_link_env(&self, binary_dir: Seq<char>) -> Seq<(Seq<char>, Seq<char>)> {
        if self.spec_platform() == Platform::Dummy {
            Seq::empty()
        } else {
            seq![("RUSTFLAGS"@, spec_link_flags(binary_dir, self.spec_platform()))]
        }
    }

    /// The environment variables of the build.
    pub open spec fn spec_env(
        &self,
        binary_dir: Seq<char>,
        config_path: Seq<char>,
        profile: Seq<char>,
    ) -> Seq<(Seq<char>, Seq<char>)> {
        self.spec_common_env(config_path, profile) + self.spec_link_env(binary_dir)
    }

    /// Makes what the build tool is called with in addition. `binary_dir` is the directory of the binary for the target
    /// and the profile, `config_path` the absolute path of the merged
    /// configuration file written there.
    pub fn apply(&self, binary_dir: &str, config_path: &str, profile: &str) -> (r: CommandPatch)
        ensures
            r.args.deep_view() == self.spec_args(),
            r.env.deep_view() == self.spec_env(binary_dir@, config_path@, profile@),
    {
        let platform = self.platform();
        let arch = self.arch();
        let target = self.target();
        let mut args: Vec<String> = Vec::new();
        push_text(&mut args, "--target");
        push_text(&mut args, target);
        assert(args.deep_view() =~= self.spec_args());
        let mut env: Vec<(String, String)> = Vec::new();
        push_pair(&mut env, "AX_CONFIG_PATH", config_path);
        push_pair(&mut env, "AX_PLATFORM", platform.name());
        push_pair(&mut env, "AX_ARCH", arch.name());
        push_pair(&mut env, "AX_SMP", decimal_string(self.cpus).as_str());
        push_pair(&mut env, "AX_TARGET", target);
        push_pair(&mut env, "AX_MODE", profile);
        push_pair(&mut env, "AX_LOG", self.log.name());
        push_pair(&mut env, "AX_IP", self.ip.text().as_str());
        push_pair(&mut env, "AX_GW", self.gateway.text().as_str());
        assert(env.deep_view() =~= self.spec_common_env(config_path@, profile@));
        if let Some(flags) = link_flags(binary_dir, platform) {
            push_pair(&mut env, "RUSTFLAGS", flags.as_str());
        }
        assert(env.deep_view() =~= self.spec_env(binary_dir@, config_path@, profile@));
        CommandPatch { args, env }
    }

    /// Whether the build needs the capability.
    pub open spec fn spec_needs(&self, feature: Feature) -> bool {
        match feature {
            Feature::Smp => self.cpus > 1,
            Feature::FpSimd => self.spec_arch() == Arch::Aarch64 && !self.soft_float,
        }
    }

    /// The capabilities that the build needs.
    pub open spec fn spec_features(&self) -> Seq<Feature> {
        (if self.spec_needs(Feature::Smp) {
            seq![Feature::Smp]
        } else {
            Seq::empty()
        }) + (if self.spec_needs(Feature::FpSimd) {
            seq![Feature::FpSimd]
        } else {
            Seq::empty()
        })
    }

    /// The capabilities that the build needs.
    pub fn features(&self) -> (r: Vec<Feature>)
        ensures
            r@ == self.spec_features(),
    {
        let mut features: Vec<Feature> = Vec::new();
        if self.cpus > 1 {
            features.push(Feature::Smp);
        }
        if let Arch::Aarch64 = self.arch() {
            if !self.soft_float {
                features.push(Feature::FpSimd);
            }
        }
        assert(features@ =~= self.spec_features());
        features
    }

    /// The warnings for a package that was built with the capabilities
    /// `declared`.
    pub open spec fn spec_check_features(&self, package: Seq<char>, declared: Seq<Seq<char>>) -> Seq<
        Seq<char>,
    > {
        spec_check_all(self.spec_features(), package, declared)
    }

    /// Checks a package that was built with the capabilities `features`
    /// against the capabilities that the build needs, and returns a warning
    /// for each one that the package has to declare and does not.
    pub fn check_features(&self, package: &str, features: &Vec<String>) -> (r: Vec<String>)
        ensures
            r.deep_view() == self.spec_check_features(package@, features.deep_view()),
    {
        let needed = self.features();
        let mut warnings: Vec<String> = Vec::new();
        let mut i: usize = 0;
        assert(needed@.take(0) =~= Seq::<Feature>::empty());
        assert(warnings.deep_view() =~= Seq::<Seq<char>>::empty());
        while i < needed.len()
            invariant
                i <= needed.len(),
                warnings.deep_view() == spec_check_all(
                    needed@.take(i as int),
                    package@,
                    features.deep_view(),
                ),
            decreases needed.len() - i,
        {
            let f = needed[i];
            let ghost before = warnings.deep_view();
            proof {
                assert(needed@.take(i + 1).drop_last() =~= needed@.take(i as int));
                assert(needed@.take(i + 1).last() == f);
            }
            if contains_text(&f.packages(), package) && !contains_text(features, f.name()) {
                push_text(&mut warnings, f.warning(package).as_str());
            }
            assert(warnings.deep_view() =~= before + f.spec_check(package@, features.deep_view()));
            i += 1;
        }
        assert(needed@.take(i as int) =~= needed@);
        warnings
    }
}

/// Resolving the target is a total function of the choice and of the float
/// mode: equal choices give the same platform and the same target
/// identifier, and the identifier is one of the five known ones.
pub proof fn lemma_target_is_a_function(first: ArceOSOptions, second: ArceOSOptions)
    requires
        first.arch_or_platform == second.arch_or_platform,
        first.soft_float == second.soft_float,
    ensures
        first.spec_platform() == second.spec_platform(),
        first.spec_target() == second.spec_target(),
        first.spec_target() == "aarch64-unknown-none"@ || first.spec_target()
            == "aarch64-unknown-none-softfloat"@ || first.spec_target()
            == "loongarch64-unknown-none"@ || first.spec_target() == "riscv64gc-unknown-none-elf"@
            || first.spec_target() == "x86_64-unknown-none"@,
{
}

/// For every architecture and float mode, a build for the architecture is a
/// build for a real platform, and its last environment variable holds
/// exactly the three link arguments, each made from the directory of the
/// binary and the platform's name. The same holds of every build for a
/// platform other than the dummy one.
pub proof fn lemma_link_flags_are_complete(
    options: ArceOSOptions,
    binary_dir: Seq<char>,
    config_path: Seq<char>,
    profile: Seq<char>,
)
    requires
        options.arch_or_platform.arch is Some || (options.arch_or_platform.platform is Some
            && options.arch_or_platform.platform != Some(Platform::Dummy)),
    ensures
        options.spec_platform() != Platform::Dummy,
        options.spec_env(binary_dir, config_path, profile).last() == (
            "RUSTFLAGS"@,
            spec_link_flags(binary_dir, options.spec_platform()),
        ),
        spec_link_flags(binary_dir, options.spec_platform()) == "-C link-arg=-T"@ + binary_dir
            + "/linker_"@ + options.spec_platform().spec_name() + ".lds"@ + " "@
            + "-C link-arg=-no-pie"@ + " "@ + "-C link-arg=-znostart-stop-gc"@,
{
    let platform = options.spec_platform();
    let args = spec_link_args(binary_dir, platform);
    assert(args.drop_last().drop_last() =~= seq![args[0]]);
    assert(args.drop_last() =~= seq![args[0], args[1]]);
    reveal_with_fuel(joined, 3);
    assert(joined(args.drop_last().drop_last(), " "@) == args[0]);
    assert(joined(args.drop_last(), " "@) == args[0] + " "@ + args[1]);
    assert(joined(args, " "@) =~= args[0] + " "@ + args[1] + " "@ + args[2]);
}

/// A build for the dummy platform sets no compiler flags.
pub proof fn lemma_dummy_has_no_link_flags(
    options: ArceOSOptions,
    binary_dir: Seq<char>,
    config_path: Seq<char>,
    profile: Seq<char>,
)
    requires
        options.spec_platform() == Platform::Dummy,
    ensures
        options.spec_env(binary_dir, config_path, profile) == options.spec_common_env(
            config_path,
            profile,
        ),
{
    assert(options.spec_env(binary_dir, config_path, profile) =~= options.spec_common_env(
        config_path,
        profile,
    ));
}

/// With more than one processor, a package that has to support several
/// processors gets exactly one warning about it where it does not declare
/// that, first of all warnings, and none about it where it does. Where
/// floating point is not needed, that is all.
pub proof fn lemma_multi_core_check(
    options: ArceOSOptions,
    package: Seq<char>,
    declared: Seq<Seq<char>>,
)
    requires
        options.cpus > 1,
        Feature::Smp.spec_packages().contains(package),
    ensures
        options.spec_check_features(package, declared) == Feature::Smp.spec_check(package, declared)
            + (if options.spec_needs(Feature::FpSimd) {
            Feature::FpSimd.spec_check(package, declared)
        } else {
            Seq::empty()
        }),
        !declared.contains("smp"@) ==> Feature::Smp.spec_check(package, declared) == seq![
            Feature::Smp.spec_warning(package),
        ],
        declared.contains("smp"@) ==> Feature::Smp.spec_check(package, declared)
            == Seq::<Seq<char>>::empty(),
        declared.len() == 0 && !options.spec_needs(Feature::FpSimd)
            ==> options.spec_check_features(package, declared) == seq![
            Feature::Smp.spec_warning(package),
        ],
{
    lemma_check_features_unfolds(options, package, declared);
    if declared.len() == 0 {
        assert(!declared.contains("smp"@));
    }
    if !options.spec_needs(Feature::FpSimd) {
        assert(options.spec_check_features(package, declared) =~= Feature::Smp.spec_check(
            package,
            declared,
        ));
    }
}

/// The warnings of a build are those about several processors, where they
/// are needed, followed by those about floating point, where it is needed.
pub proof fn lemma_check_features_unfolds(
    options: ArceOSOptions,
    package: Seq<char>,
    declared: Seq<Seq<char>>,
)
    ensures
        options.spec_check_features(package, declared) == (if options.spec_needs(Feature::Smp) {
            Feature::Smp.spec_check(package, declared)
        } else {
            Seq::empty()
        }) + (if options.spec_needs(Feature::FpSimd) {
            Feature::FpSimd.spec_check(package, declared)
        } else {
            Seq::empty()
        }),
{
    let needed = options.spec_features();
    let empty = Seq::<Seq<char>>::empty();
    reveal_with_fuel(spec_check_all, 3);
    let smp = options.spec_needs(Feature::Smp);
    let fp = options.spec_needs(Feature::FpSimd);
    if smp && fp {
        assert(needed =~= seq![Feature::Smp, Feature::FpSimd]);
        assert(needed.drop_last() =~= seq![Feature::Smp]);
        assert(needed.drop_last().drop_last() =~= Seq::<Feature>::empty());
        assert(spec_check_all(needed.drop_last(), package, declared) =~= Feature::Smp.spec_check(
            package,
            declared,
        ));
    } else if smp {
        assert(needed =~= seq![Feature::Smp]);
        assert(needed.drop_last() =~= Seq::<Feature>::empty());
        assert(spec_check_all(needed, package, declared) =~= Feature::Smp.spec_check(
            package,
            declared,
        ) + empty);
    } else if fp {
        assert(needed =~= seq![Feature::FpSimd]);
        assert(needed.drop_last() =~= Seq::<Feature>::empty());
        assert(spec_check_all(needed, package, declared) =~= empty + Feature::FpSimd.spec_check(
            package,
            declared,
        ));
    } else {
        assert(needed =~= Seq::<Feature>::empty());
        assert(spec_check_all(needed, package, declared) =~= empty + empty);
    }
}

/// The processor count that the build tool is told in its environment and
/// the one in the merged configuration are the same number: the value in
/// the configuration is what the variable's text is read as.
pub proof fn lemma_cpu_count_agrees(
    options: ArceOSOptions,
    defaults: Seq<char>,
    fragment: Seq<char>,
    texts: Seq<Seq<char>>,
    config_path: Seq<char>,
    profile: Seq<char>,
)
    ensures
        options.spec_common_env(config_path, profile)[3].0 == "AX_SMP"@,
        spec_merge(defaults, fragment, texts, options.cpus as nat) matches Ok(doc) ==> toml_value(
            options.spec_common_env(config_path, profile)[3].1,
        ) == Some(doc.0[cpu_key()].0),
{
}

} // verus!
