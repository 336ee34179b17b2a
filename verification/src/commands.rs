//! The subcommands as far as they decide anything.

use vstd::prelude::*;
use crate::qemu::{Host, Launch, QEMUOptions, RunError};
use crate::platforms::Platform;
use crate::text::{concat3, join_texts, joined};

verus! {

/// The hidden subcommand under which the build tool calls this tool back to
/// run the binary it has produced.
#[derive(Debug, Clone)]
pub struct Runner {
    /// The options of the virtual machine.
    pub qemu: QEMUOptions,
    /// The path of the produced binary.
    pub binary: String,
}

impl Runner {
    /// Decides what has to be executed to run the binary, given the platform
    /// name and the processor count that the build recorded.
    pub fn execute(self, platform_name: &str, recorded_smp: &str, host: Host) -> (r: Result<
        Launch,
        RunError,
    >)
        ensures
            match r {
                Ok(l) => self.qemu.spec_execute_error(platform_name@) is None && exists|
                    raw: Seq<char>,
                |
                    l@ == self.qemu.spec_launch(
                        Platform::spec_parse(platform_name@).unwrap(),
                        self.binary@,
                        raw,
                        recorded_smp@,
                        host,
                    ),
                Err(e) => self.qemu.spec_execute_error(platform_name@) == Some(e),
            },
    {
        let Runner { qemu, binary } = self;
        qemu.execute(binary.as_str(), platform_name, recorded_smp, host)
    }
}

/// The name of the build profile: `release` if a release build is asked for,
/// else the profile named, else `debug`.
pub open spec fn spec_profile(release: bool, profile: Option<Seq<char>>) -> Seq<char> {
    if release {
        "release"@
    } else {
        match profile {
            Some(p) => p,
            None => "debug"@,
        }
    }
}

/// The name of the build profile.
pub fn profile<'a>(release: bool, named: Option<&'a str>) -> (r: &'a str)
    ensures
        r@ == spec_profile(
            release,
            match named {
                Some(p) => Some(p@),
                None => None,
            },
        ),
{
    if release {
        "release"
    } else if let Some(p) = named {
        p
    } else {
        "debug"
    }
}

/// The exit code of this tool after a child process ended: the child's own
/// code, or 101 where it has none.
pub fn exit_code(code: Option<i32>) -> (r: i32)
    ensures
        r == match code {
            Some(c) => c,
            None => 101i32,
        },
{
    match code {
        Some(c) => c,
        None => 101,
    }
}

/// Discards the targets that were given through the build tool's own
/// option: the target is chosen here and nowhere else. Returns the warning
/// to print, if anything was discarded.
pub fn discard_targets(targets: &mut Vec<String>) -> (warning: Option<String>)
    ensures
        final(targets)@.len() == 0,
        match warning {
            Some(w) => old(targets)@.len() > 0 && w@ == "`--target` option is ignored"@,
            None => old(targets)@.len() == 0,
        },
{
    if targets.len() > 0 {
        targets.clear();
        Some("`--target` option is ignored".to_owned())
    } else {
        None
    }
}

/// Discards the extra arguments of a subcommand that takes none. Returns
/// the warning to print, which names them, if anything was discarded.
pub fn discard_args(args: &mut Vec<String>) -> (warning: Option<String>)
    ensures
        final(args)@.len() == 0,
        match warning {
            Some(w) => old(args)@.len() > 0 && w@ == "extra args `"@ + joined(
                old(args).deep_view(),
                " "@,
            ) + "` is ignored"@,
            None => old(args)@.len() == 0,
        },
{
    if args.len() > 0 {
        let listed = join_texts(args, " ");
        args.clear();
        Some(concat3("extra args `", listed.as_str(), "` is ignored"))
    } else {
        None
    }
}

/// The argument that makes the build tool report its events in a form that
/// can be read back, where the caller has asked for no message format of
/// their own; its output is then to be piped.
pub fn event_stream_arg(message_formats: &Vec<String>) -> (r: Option<&'static str>)
    ensures
        match r {
            Some(arg) => message_formats@.len() == 0 && arg@
                == "--message-format=json-render-diagnostics"@,
            None => message_formats@.len() > 0,
        },
{
    if message_formats.len() == 0 {
        Some("--message-format=json-render-diagnostics")
    } else {
        None
    }
}

} // verus!
