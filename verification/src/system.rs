//! Host facts reported to the UI: operating system, architecture, the
//! runtime's version banner, and the stock game's path.

use vstd::prelude::*;

verus! {

/// What the host looks like to the UI.
#[derive(Clone, Debug)]
pub struct SystemInfo {
    pub os: String,
    pub arch: String,
    pub java_version: Option<String>,
    pub ram_total: u64,
}

/// The stock game's path and whether it exists.
#[derive(Clone, Debug)]
pub struct MinecraftPath {
    pub path: String,
    pub exists: bool,
}

/// A first newline stands at index `i` of `s`.
pub open spec fn line_break_at(s: Seq<char>, i: int) -> bool {
    0 <= i < s.len() && s[i] == '\n' && (forall|j: int| 0 <= j < i ==> s[j] != '\n')
}

/// The segment with a trailing carriage return removed.
pub open spec fn strip_cr(s: Seq<char>) -> Seq<char> {
    if s.len() > 0 && s.last() == '\r' {
        s.drop_last()
    } else {
        s
    }
}

/// The first line of `s`: up to the first newline, with a carriage
/// return before it removed; all of `s` when it has no newline.
pub open spec fn first_line_spec(s: Seq<char>) -> Seq<char> {
    if exists|i: int| line_break_at(s, i) {
        strip_cr(s.subrange(0, choose|i: int| line_break_at(s, i)))
    } else {
        s
    }
}

/// The line reported as the runtime's version: the banner's first line,
/// or a placeholder when the banner is empty.
pub open spec fn version_line_spec(s: Seq<char>) -> Seq<char> {
    if s.len() == 0 {
        "Unknown"@
    } else {
        first_line_spec(s)
    }
}

/// Extracts the version line from a version-query banner.
pub fn version_line(s: &str) -> (r: String)
    ensures
        r@ == version_line_spec(s@),
{
    let len = s.unicode_len();
    if len == 0 {
        return "Unknown".to_owned();
    }
    let mut nl: usize = 0;
    let mut found = false;
    let mut i: usize = 0;
    while i < len && !found
        invariant
            i <= len,
            len == s@.len(),
            !found ==> nl == 0 && (forall|j: int| 0 <= j < i ==> s@[j] != '\n'),
            found ==> line_break_at(s@, nl as int) && nl < len,
        decreases len - i + (if found {
            0int
        } else {
            1int
        }),
    {
        if s.get_char(i) == '\n' {
            nl = i;
            found = true;
        } else {
            i += 1;
        }
    }
    if found {
        proof {
            let c = choose|k: int| line_break_at(s@, k);
            assert(line_break_at(s@, c));
            assert(c == nl as int);
        }
        let end: usize = if nl > 0 && s.get_char(nl - 1) == '\r' {
            nl - 1
        } else {
            nl
        };
        let line = s.substring_char(0, end);
        proof {
            assert(line@ =~= strip_cr(s@.subrange(0, nl as int)));
        }
        line.to_owned()
    } else {
        proof {
            if exists|k: int| line_break_at(s@, k) {
                let k = choose|k: int| line_break_at(s@, k);
                assert(s@[k] != '\n');
            }
        }
        s.to_owned()
    }
}

/// Assembles the system report from the probed facts; the version line
/// is taken from the runtime's banner when one was captured.
pub fn make_system_info(os: String, arch: String, banner: &Option<String>) -> (r: SystemInfo)
    ensures
        r.os@ == os@,
        r.arch@ == arch@,
        match *banner {
            Some(ref b) => r.java_version matches Some(v) && v@ == version_line_spec(b@),
            None => r.java_version is None,
        },
        r.ram_total == 4096,
{
    let java_version = match banner {
        Some(b) => Some(version_line(b.as_str())),
        None => None,
    };
    SystemInfo { os, arch, java_version, ram_total: crate::platform::get_total_ram() }
}

/// Assembles the stock game's path report.
pub fn make_minecraft_path(path: String, exists: bool) -> (r: MinecraftPath)
    ensures
        r.path@ == path@,
        r.exists == exists,
{
    MinecraftPath { path, exists }
}

} // verus!
