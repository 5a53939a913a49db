//! Assembling the system description shown to the user: the pure
//! decision and parsing logic over what the platform probes reported.
//! Reading the registry, running the probing commands and asking the
//! machine-id store happen outside this crate; their raw results come in
//! as plain optional strings.

use vstd::prelude::*;
use vstd::string::StrSliceExecFns;
use vstd::string::StringExecFns;

verus! {

/// The system description: hardware identifier, platform family,
/// version, and device model.
#[derive(Debug, Clone)]
pub struct SystemInfo {
    pub hwid: String,
    pub os_type: String,
    pub os_ver: String,
    pub device_model: String,
}

/// What the platform probes reported, as plain values. A `None` means
/// the probe failed (a registry key missing, a command that could not
/// run).
#[derive(Debug)]
pub enum OsProbe {
    Windows {
        display_version: Option<String>,
        release_id: Option<String>,
        current_build: Option<String>,
        product_name: Option<String>,
    },
    MacOs {
        product_version: Option<String>,
        fallback_version: String,
        sysctl_model: Option<String>,
        profiler_output: Option<String>,
    },
    Linux { version: String, distro_name: String },
}

/// Whitespace for trimming.
pub open spec fn spec_is_space(c: char) -> bool {
    c == ' ' || c == '\t' || c == '\n' || c == '\r'
}

/// The string without trailing whitespace.
pub open spec fn spec_trim_end(s: Seq<char>) -> Seq<char>
    decreases s,
{
    if s.len() == 0 {
        s
    } else if spec_is_space(s.last()) {
        spec_trim_end(s.drop_last())
    } else {
        s
    }
}

/// The string without leading whitespace.
pub open spec fn spec_trim_start(s: Seq<char>) -> Seq<char>
    decreases s,
{
    if s.len() == 0 {
        s
    } else if spec_is_space(s[0]) {
        spec_trim_start(s.skip(1))
    } else {
        s
    }
}

/// The string without leading and trailing whitespace.
pub open spec fn spec_trim(s: Seq<char>) -> Seq<char> {
    spec_trim_start(spec_trim_end(s))
}

/// Whether `pat` occurs in `s` at position `i`.
pub open spec fn spec_match_at(s: Seq<char>, pat: Seq<char>, i: int) -> bool {
    0 <= i && i + pat.len() <= s.len() && s.subrange(i, i + pat.len()) == pat
}

/// The first position where `pat` occurs in `s`.
pub open spec fn spec_find_pat(s: Seq<char>, pat: Seq<char>) -> Option<int>
    decreases s,
{
    if pat.len() > s.len() {
        None
    } else if spec_match_at(s, pat, 0) {
        Some(0)
    } else if s.len() == 0 {
        None
    } else {
        match spec_find_pat(s.skip(1), pat) {
            Some(i) => Some(i + 1),
            None => None,
        }
    }
}

/// The end of the line that position `from` lies on: the next newline,
/// or the end of the string.
pub open spec fn spec_line_end(s: Seq<char>, from: int) -> int
    recommends
        0 <= from,
    decreases s.len() - from,
{
    if from >= s.len() {
        s.len() as int
    } else if s[from] == '\n' {
        from
    } else {
        spec_line_end(s, from + 1)
    }
}

/// The trimmed rest of the line after the first occurrence of `pat`.
pub open spec fn spec_extract_after(s: Seq<char>, pat: Seq<char>) -> Option<Seq<char>> {
    match spec_find_pat(s, pat) {
        Some(i) => Some(
            spec_trim(s.subrange(i + pat.len(), spec_line_end(s, i + pat.len()))),
        ),
        None => None,
    }
}

/// An occurrence in the tail is an occurrence one position later.
proof fn lemma_match_shift(s: Seq<char>, pat: Seq<char>, j: int)
    requires
        s.len() > 0,
        0 <= j,
    ensures
        spec_match_at(s.skip(1), pat, j) == spec_match_at(s, pat, j + 1),
{
    if j + pat.len() + 1 <= s.len() {
        assert(s.skip(1).subrange(j, j + pat.len()) =~= s.subrange(j + 1, j + 1 + pat.len()));
    }
}

/// `spec_find_pat` names the first occurrence: it matches, nothing
/// before it does, and `None` means nothing matches anywhere.
pub proof fn lemma_find_pat_first(s: Seq<char>, pat: Seq<char>)
    ensures
        match spec_find_pat(s, pat) {
            Some(i) => spec_match_at(s, pat, i) && forall|j: int|
                0 <= j < i ==> !spec_match_at(s, pat, j),
            None => forall|j: int| !spec_match_at(s, pat, j),
        },
    decreases s,
{
    if pat.len() > s.len() {
    } else if spec_match_at(s, pat, 0) {
    } else if s.len() == 0 {
        assert forall|j: int| !spec_match_at(s, pat, j) by {}
    } else {
        lemma_find_pat_first(s.skip(1), pat);
        match spec_find_pat(s.skip(1), pat) {
            Some(i) => {
                lemma_match_shift(s, pat, i);
                assert forall|j: int| 0 <= j < i + 1 implies !spec_match_at(s, pat, j) by {
                    if j > 0 {
                        lemma_match_shift(s, pat, j - 1);
                    }
                }
            },
            None => {
                assert forall|j: int| !spec_match_at(s, pat, j) by {
                    if j > 0 {
                        lemma_match_shift(s, pat, j - 1);
                    }
                }
            },
        }
    }
}

/// The string without leading and trailing whitespace.
#[verifier::loop_isolation(false)]
pub fn trim_str(s: &str) -> (r: String)
    ensures
        r@ == spec_trim(s@),
{
    let n = s.unicode_len();
    proof {
        assert(s@.take(n as int) =~= s@);
    }
    let mut end: usize = n;
    while end > 0
        invariant
            end <= n,
            n == s@.len(),
            spec_trim_end(s@) == spec_trim_end(s@.take(end as int)),
        decreases end,
    {
        let c = s.get_char(end - 1);
        if !(c == ' ' || c == '\t' || c == '\n' || c == '\r') {
            break ;
        }
        proof {
            assert(s@.take(end as int).last() == s@[end - 1]);
            assert(s@.take(end as int).drop_last() =~= s@.take(end - 1));
        }
        end = end - 1;
    }
    proof {
        if end > 0 {
            assert(s@.take(end as int).last() == s@[end - 1]);
            assert(!spec_is_space(s@.take(end as int).last()));
            assert(spec_trim_end(s@.take(end as int)) == s@.take(end as int));
        } else {
            assert(s@.take(0) =~= Seq::<char>::empty());
        }
    }
    let mut start: usize = 0;
    while start < end
        invariant
            start <= end,
            end <= n,
            n == s@.len(),
            spec_trim_end(s@) == s@.take(end as int),
            spec_trim_start(s@.take(end as int)) == spec_trim_start(
                s@.subrange(start as int, end as int),
            ),
        decreases end - start,
    {
        let c = s.get_char(start);
        if !(c == ' ' || c == '\t' || c == '\n' || c == '\r') {
            break ;
        }
        proof {
            assert(s@.subrange(start as int, end as int)[0] == s@[start as int]);
            assert(s@.subrange(start as int, end as int).skip(1) =~= s@.subrange(
                start + 1 as int,
                end as int,
            ));
        }
        start = start + 1;
    }
    proof {
        assert(s@.take(end as int) =~= s@.subrange(0, end as int));
        if start < end {
            assert(s@.subrange(start as int, end as int)[0] == s@[start as int]);
            assert(!spec_is_space(s@.subrange(start as int, end as int)[0]));
        } else {
            assert(s@.subrange(start as int, end as int) =~= Seq::<char>::empty());
        }
    }
    let piece = s.substring_char(start, end);
    String::from_str(piece)
}

/// Whether `pat` occurs in `text` at position `i`.
#[verifier::loop_isolation(false)]
fn match_at(text: &str, pat: &str, i: usize) -> (r: bool)
    requires
        i + pat@.len() <= text@.len(),
    ensures
        r == spec_match_at(text@, pat@, i as int),
{
    let m = pat.unicode_len();
    let total = text.unicode_len();
    let mut j: usize = 0;
    while j < m
        invariant
            j <= m,
            m == pat@.len(),
            total == text@.len(),
            i + m <= total,
            forall|l: int| 0 <= l < j ==> text@[i + l] == pat@[l],
        decreases m - j,
    {
        if text.get_char(i + j) != pat.get_char(j) {
            proof {
                assert(text@.subrange(i as int, i + m as int)[j as int] != pat@[j as int]);
            }
            return false;
        }
        j = j + 1;
    }
    proof {
        assert(text@.subrange(i as int, i + m as int) =~= pat@);
    }
    true
}

/// The first position where `pat` occurs in `text`.
#[verifier::loop_isolation(false)]
pub fn find_pattern(text: &str, pat: &str) -> (r: Option<usize>)
    ensures
        match r {
            Some(i) => spec_find_pat(text@, pat@) == Some(i as int),
            None => spec_find_pat(text@, pat@) is None,
        },
{
    proof {
        lemma_find_pat_first(text@, pat@);
    }
    let n = text.unicode_len();
    let m = pat.unicode_len();
    if m > n {
        return None;
    }
    if m == 0 {
        proof {
            assert(text@.subrange(0, 0) =~= pat@);
            assert(spec_match_at(text@, pat@, 0));
        }
        return Some(0);
    }
    let mut i: usize = 0;
    while i < n
        invariant
            0 < m <= n,
            n == text@.len(),
            m == pat@.len(),
            i <= n,
            forall|j: int| 0 <= j < i ==> !spec_match_at(text@, pat@, j),
        decreases n - i,
    {
        if m <= n - i && match_at(text, pat, i) {
            proof {
                match spec_find_pat(text@, pat@) {
                    Some(k) => {
                        if k < i {
                            assert(false);
                        }
                        if k > i {
                            assert(!spec_match_at(text@, pat@, i as int));
                            assert(false);
                        }
                    },
                    None => {
                        assert(!spec_match_at(text@, pat@, i as int));
                        assert(false);
                    },
                }
            }
            return Some(i);
        }
        i = i + 1;
    }
    proof {
        assert forall|j: int| !spec_match_at(text@, pat@, j) by {
            if 0 <= j && j + pat@.len() <= text@.len() {
                assert(j < n);
            }
        }
        match spec_find_pat(text@, pat@) {
            Some(k) => {
                assert(spec_match_at(text@, pat@, k));
                assert(false);
            },
            None => {},
        }
    }
    None
}

/// The trimmed rest of the line after the first occurrence of `pat` in
/// `text`, if `pat` occurs at all.
#[verifier::loop_isolation(false)]
pub fn extract_after(text: &str, pat: &str) -> (r: Option<String>)
    ensures
        match r {
            Some(v) => spec_extract_after(text@, pat@) == Some(v@),
            None => spec_extract_after(text@, pat@) is None,
        },
{
    let n = text.unicode_len();
    let m = pat.unicode_len();
    let found = match find_pattern(text, pat) {
        Some(i) => i,
        None => {
            return None;
        },
    };
    proof {
        lemma_find_pat_first(text@, pat@);
    }
    let start = found + m;
    let mut k: usize = start;
    while k < n
        invariant
            start <= k <= n,
            n == text@.len(),
            spec_line_end(text@, start as int) == spec_line_end(text@, k as int),
            forall|l: int| start <= l < k ==> text@[l] != '\n',
        decreases n - k,
    {
        if text.get_char(k) == '\n' {
            break ;
        }
        k = k + 1;
    }
    proof {
        if k < n {
            assert(spec_line_end(text@, k as int) == k);
        } else {
            assert(spec_line_end(text@, k as int) == n);
        }
    }
    let piece = text.substring_char(start, k);
    Some(trim_str(piece))
}

/// The version shown for a Windows system: the display version where
/// the registry has one, else the release identifier, else the build
/// number prefixed `Build `, else `Unknown`.
pub open spec fn spec_windows_build(
    display_version: Option<Seq<char>>,
    release_id: Option<Seq<char>>,
    current_build: Option<Seq<char>>,
) -> Seq<char> {
    match display_version {
        Some(v) => v,
        None => match release_id {
            Some(r) => r,
            None => match current_build {
                Some(b) => "Build "@ + b,
                None => "Unknown"@,
            },
        },
    }
}

/// The device model shown for a macOS system: the trimmed model
/// identifier where the probe returned a non-empty one, else the
/// `Model Name:` line of the hardware profile, else `Mac`.
pub open spec fn spec_mac_model(
    sysctl_model: Option<Seq<char>>,
    profiler_output: Option<Seq<char>>,
) -> Seq<char> {
    let from_profile = match profiler_output {
        Some(t) => match spec_extract_after(t, "Model Name:"@) {
            Some(v) => v,
            None => "Mac"@,
        },
        None => "Mac"@,
    };
    match sysctl_model {
        Some(mst) => if spec_trim(mst).len() > 0 {
            spec_trim(mst)
        } else {
            from_profile
        },
        None => from_profile,
    }
}

/// The version shown for a Linux system: the distribution's version
/// string unless it is empty or the literal `Unknown`.
pub open spec fn spec_linux_version(version: Seq<char>) -> Seq<char> {
    if version != "Unknown"@ && version.len() > 0 {
        version
    } else {
        "Unknown"@
    }
}

/// Assemble the system description from the hardware identifier and the
/// platform probe's raw results.
pub fn get_system_info(hwid: Option<String>, probe: OsProbe) -> (r: SystemInfo)
    ensures
        r.hwid@ == (match hwid {
            Some(h) => h@,
            None => "unknown_hwid"@,
        }),
        match probe {
            OsProbe::Windows { display_version, release_id, current_build, product_name } => {
                &&& r.os_type@ == "Windows"@
                &&& r.os_ver@ == spec_windows_build(
                    match display_version {
                        Some(v) => Some(v@),
                        None => None,
                    },
                    match release_id {
                        Some(v) => Some(v@),
                        None => None,
                    },
                    match current_build {
                        Some(v) => Some(v@),
                        None => None,
                    },
                )
                &&& r.device_model@ == (match product_name {
                    Some(p) => p@,
                    None => "Windows"@,
                })
            },
            OsProbe::MacOs { product_version, fallback_version, sysctl_model, profiler_output } => {
                &&& r.os_type@ == "macOS"@
                &&& r.os_ver@ == (match product_version {
                    Some(p) => spec_trim(p@),
                    None => fallback_version@,
                })
                &&& r.device_model@ == spec_mac_model(
                    match sysctl_model {
                        Some(v) => Some(v@),
                        None => None,
                    },
                    match profiler_output {
                        Some(v) => Some(v@),
                        None => None,
                    },
                )
            },
            OsProbe::Linux { version, distro_name } => {
                &&& r.os_type@ == "Linux"@
                &&& r.os_ver@ == spec_linux_version(version@)
                &&& r.device_model@ == distro_name@
            },
        },
{
    let hwid = match hwid {
        Some(h) => h,
        None => String::from_str("unknown_hwid"),
    };
    match probe {
        OsProbe::Windows { display_version, release_id, current_build, product_name } => {
            let os_ver = match display_version {
                Some(v) => v,
                None => match release_id {
                    Some(rl) => rl,
                    None => match current_build {
                        Some(b) => String::from_str("Build ").concat(b.as_str()),
                        None => String::from_str("Unknown"),
                    },
                },
            };
            let device_model = match product_name {
                Some(p) => p,
                None => String::from_str("Windows"),
            };
            SystemInfo { hwid, os_type: String::from_str("Windows"), os_ver, device_model }
        },
        OsProbe::MacOs { product_version, fallback_version, sysctl_model, profiler_output } => {
            let os_ver = match &product_version {
                Some(p) => trim_str(p.as_str()),
                None => fallback_version,
            };
            let from_profile = match &profiler_output {
                Some(t) => match extract_after(t.as_str(), "Model Name:") {
                    Some(v) => v,
                    None => String::from_str("Mac"),
                },
                None => String::from_str("Mac"),
            };
            let device_model = match &sysctl_model {
                Some(mst) => {
                    let t = trim_str(mst.as_str());
                    if t.as_str().unicode_len() > 0 {
                        t
                    } else {
                        from_profile
                    }
                },
                None => from_profile,
            };
            SystemInfo { hwid, os_type: String::from_str("macOS"), os_ver, device_model }
        },
        OsProbe::Linux { version, distro_name } => {
            let unknown = String::from_str("Unknown");
            let os_ver = if !(version == unknown) && version.as_str().unicode_len() > 0 {
                version
            } else {
                unknown
            };
            SystemInfo { hwid, os_type: String::from_str("Linux"), os_ver, device_model: distro_name }
        },
    }
}

} // verus!
