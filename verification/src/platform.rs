//! Platform profile: the host operating system and architecture, and the
//! platform-dependent constants (OS name keys, separators) that the rule
//! evaluator, the runtime provisioner and the launch builder consult.

use vstd::prelude::*;

verus! {

/// The operating systems the launcher targets.
#[derive(Clone, Copy, PartialEq, Eq, Structural, Debug)]
pub enum Os {
    Windows,
    MacOs,
    Linux,
}

/// The processor word widths the launcher distinguishes.
#[derive(Clone, Copy, PartialEq, Eq, Structural, Debug)]
pub enum Arch {
    X64,
    X86,
}

/// The OS name key used by the version metadata's rule objects and
/// native-classifier maps.
pub open spec fn os_name_spec(os: Os) -> Seq<char> {
    match os {
        Os::Windows => "windows"@,
        Os::MacOs => "osx"@,
        Os::Linux => "linux"@,
    }
}

/// Returns the OS name key for `os`.
pub fn get_os_name(os: Os) -> (r: &'static str)
    ensures
        r@ == os_name_spec(os),
{
    match os {
        Os::Windows => "windows",
        Os::MacOs => "osx",
        Os::Linux => "linux",
    }
}

/// The architecture bit-width string substituted into native classifier
/// keys.
pub open spec fn arch_bits_spec(arch: Arch) -> Seq<char> {
    match arch {
        Arch::X64 => "64"@,
        Arch::X86 => "32"@,
    }
}

/// Returns the bit-width string for `arch`.
pub fn get_arch(arch: Arch) -> (r: &'static str)
    ensures
        r@ == arch_bits_spec(arch),
{
    match arch {
        Arch::X64 => "64",
        Arch::X86 => "32",
    }
}

/// The separator that joins classpath entries on `os`.
pub open spec fn classpath_sep_spec(os: Os) -> Seq<char> {
    match os {
        Os::Windows => ";"@,
        _ => ":"@,
    }
}

/// Returns the classpath separator for `os`.
pub fn get_classpath_separator(os: Os) -> (r: &'static str)
    ensures
        r@ == classpath_sep_spec(os),
{
    match os {
        Os::Windows => ";",
        _ => ":",
    }
}

/// The character that separates path components on `os`.
pub open spec fn path_sep_char(os: Os) -> char {
    match os {
        Os::Windows => '\\',
        _ => '/',
    }
}

/// Returns the path separator character for `os`.
pub fn path_separator(os: Os) -> (c: char)
    ensures
        c == path_sep_char(os),
{
    match os {
        Os::Windows => '\\',
        _ => '/',
    }
}

/// The default total-memory figure, in megabytes, reported when the host
/// is not probed.
pub fn get_total_ram() -> (r: u64)
    ensures
        r == 4096,
{
    4096
}

} // verus!
