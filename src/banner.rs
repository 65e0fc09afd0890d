//! Heuristic recognition of the kernel version, distribution and release in a
//! kernel boot banner (`Linux version ...`).
//!
//! The distribution families are consulted in one order, once, and the
//! resulting family drives both the kernel version patterns and the release
//! resolution.

use vstd::prelude::*;
use crate::distros::Distro;
use crate::text::{
    contains, has_prefix, has_substring, lower_of, matches_at, occurs_at, opt_chars, owned,
    starts_with, to_lower,
};

verus! {

/// What the `regex` crate captures in the first group of the leftmost-first
/// match of `pattern` in `text`; `None` where the pattern does not compile,
/// does not match, or its first group takes no part in the match.
pub uninterp spec fn regex_group1(pattern: Seq<char>, text: Seq<char>) -> Option<Seq<char>>;

/// Relies on `regex::Regex::new` and `regex::Regex::captures`: compiles
/// `pattern` and returns what the first match in `text` captures in group 1,
/// which is a slice of `text` (`Match::as_str`).
#[verifier::external_body]
fn capture_group1(pattern: &str, text: &str) -> (r: Option<String>)
    ensures
        opt_chars(r) == regex_group1(pattern@, text@),
        r matches Some(c) ==> has_substring(text@, c@),
{
    let re = regex::Regex::new(pattern).ok()?;
    let caps = re.captures(text)?;
    caps.get(1).map(|m| m.as_str().to_string())
}

// Kernel version patterns, each capturing the version in group 1. The
// `Linux version` forms anchor on the banner's own wording; the bare forms
// find the version anywhere in the text.

pub const DEBIAN_BANNER_KERNEL: &'static str = r"Linux version (\d+\.\d+\.\d+-\d+-amd64)";
pub const DEBIAN_KERNEL: &'static str = r"(\d+\.\d+\.\d+-\d+-amd64)";
pub const UBUNTU_BANNER_KERNEL: &'static str = r"Linux version (\d+\.\d+\.\d+-\d+-[a-z]+)";
pub const UBUNTU_KERNEL: &'static str = r"(\d+\.\d+\.\d+-\d+-generic)";
pub const FEDORA_BANNER_KERNEL: &'static str = r"Linux version (\d+\.\d+\.\d+-\d+\.fc\d+\.[a-z0-9_]+)";
pub const FEDORA_KERNEL: &'static str = r"(\d+\.\d+\.\d+-\d+\.fc\d+\.[a-z0-9_]+)";
pub const EL_BANNER_KERNEL: &'static str = r"Linux version (\d+\.\d+\.\d+-[\d.]+\.el\d+[a-z0-9_.]*)";
pub const EL_KERNEL: &'static str = r"(\d+\.\d+\.\d+-[\d.]+\.el\d+[a-z0-9_.]*)";
pub const UEK_KERNEL: &'static str = r"(\d+\.\d+\.\d+-[\d.]+\.el\d+uek[a-z0-9_.]*)";
pub const GENERIC_BANNER_KERNEL: &'static str = r"Linux version (\d+\.\d+\.\d+[^\s]*)";
pub const GENERIC_KERNEL: &'static str = r"(\d+\.\d+\.\d+-\d+-[a-z]+)";

// Release tags inside RPM kernel versions (`.fc39.`, `.el8`), capturing the
// release number in group 1.

pub const FEDORA_RELEASE_TAG: &'static str = r"\.fc(\d+)\.";
pub const EL_RELEASE_TAG: &'static str = r"\.el(\d+)";

/// The distribution family that a lowercased banner names. Families are
/// consulted in this order: Ubuntu, Debian, Fedora, CentOS, Rocky, Alma,
/// Oracle, and RHEL last, so that a derivative wins over the generic
/// `.el` marker.
pub open spec fn family_of(lower: Seq<char>) -> Option<Distro> {
    if has_substring(lower, "ubuntu"@) {
        Some(Distro::Ubuntu)
    } else if has_substring(lower, "debian"@) {
        Some(Distro::Debian)
    } else if has_substring(lower, "fedora"@) || has_substring(lower, ".fc"@) {
        Some(Distro::Fedora)
    } else if has_substring(lower, "centos"@) {
        Some(Distro::CentOS)
    } else if has_substring(lower, "rocky"@) {
        Some(Distro::Rocky)
    } else if has_substring(lower, "alma"@) {
        Some(Distro::Alma)
    } else if has_substring(lower, "oracle"@) || has_substring(lower, ".ol"@) {
        Some(Distro::Oracle)
    } else if has_substring(lower, "red hat"@) || has_substring(lower, ".el"@) {
        Some(Distro::RHEL)
    } else {
        None
    }
}

/// The text announces a kernel in the banner's own wording.
pub open spec fn announces_version(banner: Seq<char>) -> bool {
    has_substring(banner, "Linux version"@)
}

/// The kernel version patterns tried for a family, most specific first,
/// followed by the two generic ones.
pub open spec fn kernel_patterns(family: Option<Distro>) -> Seq<Seq<char>> {
    let generic = seq![GENERIC_BANNER_KERNEL@, GENERIC_KERNEL@];
    match family {
        Some(Distro::Debian) => seq![DEBIAN_BANNER_KERNEL@, DEBIAN_KERNEL@] + generic,
        Some(Distro::Ubuntu) => seq![UBUNTU_BANNER_KERNEL@, UBUNTU_KERNEL@] + generic,
        Some(Distro::Fedora) => seq![FEDORA_BANNER_KERNEL@, FEDORA_KERNEL@] + generic,
        Some(_) => seq![EL_BANNER_KERNEL@, EL_KERNEL@, UEK_KERNEL@] + generic,
        None => generic,
    }
}

/// What the first pattern of `patterns` that matches `text` captures.
pub open spec fn first_capture(patterns: Seq<Seq<char>>, text: Seq<char>) -> Option<Seq<char>>
    decreases patterns.len(),
{
    if patterns.len() == 0 {
        None
    } else if regex_group1(patterns[0], text) is Some {
        regex_group1(patterns[0], text)
    } else {
        first_capture(patterns.drop_first(), text)
    }
}

/// A character that continues a release number (`10` in `10.2.1`).
pub open spec fn continues_release(c: char) -> bool {
    ('0' <= c && c <= '9') || c == '.'
}

/// `p` occurs in `s` at `i` and is not continued by a digit or a dot.
pub open spec fn release_marker_at(s: Seq<char>, p: Seq<char>, i: int) -> bool {
    occurs_at(s, p, i) && (i + p.len() == s.len() || !continues_release(s[i + p.len()]))
}

/// `p` occurs in `s` as a whole release marker: `debian 10` in
/// `debian 10 (buster)`, but not in `debian 10.2.1-6`, a compiler version.
pub open spec fn has_release_marker(s: Seq<char>, p: Seq<char>) -> bool {
    exists|i: int| release_marker_at(s, p, i)
}

/// The Ubuntu release that the banner names, or else the one its kernel
/// series ships with.
pub open spec fn ubuntu_release(banner: Seq<char>, lower: Seq<char>, kernel: Seq<char>) -> Option<
    Seq<char>,
> {
    if has_substring(banner, "~24.04"@) || has_substring(lower, "noble"@) {
        Some("24.04"@)
    } else if has_substring(banner, "~22.04"@) || has_substring(lower, "jammy"@) {
        Some("22.04"@)
    } else if has_substring(banner, "~20.04"@) || has_substring(lower, "focal"@) {
        Some("20.04"@)
    } else if has_prefix(kernel, "5.4."@) {
        Some("20.04"@)
    } else if has_prefix(kernel, "5.15."@) || has_prefix(kernel, "5.19."@) {
        Some("22.04"@)
    } else if has_prefix(kernel, "6."@) {
        Some("24.04"@)
    } else {
        None
    }
}

/// The Debian release that the banner names, or else the one its kernel
/// series ships with.
pub open spec fn debian_release(lower: Seq<char>, kernel: Seq<char>) -> Option<Seq<char>> {
    if has_substring(lower, "buster"@) || has_release_marker(lower, "debian 10"@) {
        Some("10"@)
    } else if has_substring(lower, "bullseye"@) || has_release_marker(lower, "debian 11"@) {
        Some("11"@)
    } else if has_substring(lower, "bookworm"@) || has_release_marker(lower, "debian 12"@) {
        Some("12"@)
    } else if has_prefix(kernel, "4.19."@) {
        Some("10"@)
    } else if has_prefix(kernel, "5.10."@) {
        Some("11"@)
    } else if has_prefix(kernel, "6.1."@) {
        Some("12"@)
    } else {
        None
    }
}

/// The pattern whose capture in the kernel version is the release of an
/// RPM-based family.
pub open spec fn release_tag_pattern(family: Distro) -> Seq<char> {
    if family == Distro::Fedora {
        FEDORA_RELEASE_TAG@
    } else {
        EL_RELEASE_TAG@
    }
}

/// Whether the release of a family is read from a tag in its kernel version.
pub open spec fn release_from_tag(family: Distro) -> bool {
    family != Distro::Ubuntu && family != Distro::Debian
}

/// The release of `family`, given the tag captured from the kernel version
/// (used by the RPM-based families only).
pub open spec fn release_given_tag(
    family: Distro,
    banner: Seq<char>,
    lower: Seq<char>,
    kernel: Seq<char>,
    tag: Option<Seq<char>>,
) -> Option<Seq<char>> {
    match family {
        Distro::Ubuntu => ubuntu_release(banner, lower, kernel),
        Distro::Debian => debian_release(lower, kernel),
        _ => tag,
    }
}

/// The release of `family` that a banner and its kernel version indicate.
pub open spec fn release_of(family: Distro, banner: Seq<char>, lower: Seq<char>, kernel: Seq<char>) -> Option<
    Seq<char>,
> {
    release_given_tag(
        family,
        banner,
        lower,
        kernel,
        if release_from_tag(family) {
            regex_group1(release_tag_pattern(family), kernel)
        } else {
            None
        },
    )
}

/// The command line that reproduces a generation from a parsed banner.
pub open spec fn command_text(kernel: Seq<char>, family: Distro, release: Seq<char>) -> Seq<char> {
    "symgen generate -k "@ + kernel + " -d "@ + family.spec_cli_name() + " -V "@ + release
}

/// The mathematical value of a `BannerParseResult`.
pub struct BannerView {
    pub kernel_version: Seq<char>,
    pub distro: Option<Seq<char>>,
    pub distro_version: Option<Seq<char>>,
    pub suggested_command: Option<Seq<char>>,
}

/// The result for a kernel version, a family and a release.
pub open spec fn banner_result(kernel: Seq<char>, family: Option<Distro>, release: Option<Seq<char>>) -> BannerView {
    match family {
        None => BannerView {
            kernel_version: kernel,
            distro: None,
            distro_version: None,
            suggested_command: None,
        },
        Some(d) => BannerView {
            kernel_version: kernel,
            distro: Some(d.spec_tag()),
            distro_version: release,
            suggested_command: match release {
                Some(v) => Some(command_text(kernel, d, v)),
                None => None,
            },
        },
    }
}

/// Text that names no distribution and does not announce a Linux version
/// yields no parse result.
pub proof fn lemma_unannounced_text_is_rejected(banner: Seq<char>)
    requires
        family_of(lower_of(banner)) is None,
        !announces_version(banner),
    ensures
        parse_banner_spec(banner) is None,
{
}

/// A parse result suggests a command exactly when it names both a
/// distribution and a release.
pub proof fn lemma_command_needs_distro_and_release(
    kernel: Seq<char>,
    family: Option<Distro>,
    release: Option<Seq<char>>,
)
    ensures
        banner_result(kernel, family, release).suggested_command is Some <==> (banner_result(
            kernel,
            family,
            release,
        ).distro is Some && banner_result(kernel, family, release).distro_version is Some),
{
}

/// What parsing a banner yields.
pub open spec fn parse_banner_spec(banner: Seq<char>) -> Option<BannerView> {
    if banner.len() == 0 {
        None
    } else if family_of(lower_of(banner)) is None && !announces_version(banner) {
        None
    } else {
        let lower = lower_of(banner);
        let family = family_of(lower);
        match first_capture(kernel_patterns(family), banner) {
            None => None,
            Some(kernel) => Some(
                banner_result(
                    kernel,
                    family,
                    match family {
                        Some(d) => release_of(d, banner, lower, kernel),
                        None => None,
                    },
                ),
            ),
        }
    }
}

/// Result of parsing a kernel banner.
#[derive(Debug)]
pub struct BannerParseResult {
    pub kernel_version: String,
    pub distro: Option<String>,
    pub distro_version: Option<String>,
    /// The command line that generates the symbol file for this banner.
    pub suggested_command: Option<String>,
}

impl View for BannerParseResult {
    type V = BannerView;

    open spec fn view(&self) -> BannerView {
        BannerView {
            kernel_version: self.kernel_version@,
            distro: opt_chars(self.distro),
            distro_version: opt_chars(self.distro_version),
            suggested_command: opt_chars(self.suggested_command),
        }
    }
}

/// The view of an optional parse result.
pub open spec fn opt_banner(r: Option<BannerParseResult>) -> Option<BannerView> {
    match r {
        Some(b) => Some(b@),
        None => None,
    }
}

/// The distribution family that a lowercased banner names.
pub fn detect_family(lower: &str) -> (r: Option<Distro>)
    ensures
        r == family_of(lower@),
{
    if contains(lower, "ubuntu") {
        Some(Distro::Ubuntu)
    } else if contains(lower, "debian") {
        Some(Distro::Debian)
    } else if contains(lower, "fedora") || contains(lower, ".fc") {
        Some(Distro::Fedora)
    } else if contains(lower, "centos") {
        Some(Distro::CentOS)
    } else if contains(lower, "rocky") {
        Some(Distro::Rocky)
    } else if contains(lower, "alma") {
        Some(Distro::Alma)
    } else if contains(lower, "oracle") || contains(lower, ".ol") {
        Some(Distro::Oracle)
    } else if contains(lower, "red hat") || contains(lower, ".el") {
        Some(Distro::RHEL)
    } else {
        None
    }
}

/// Whether `p` occurs in `s` as a whole release marker.
pub fn contains_release_marker(s: &str, p: &str) -> (r: bool)
    ensures
        r == has_release_marker(s@, p@),
{
    let n = s.unicode_len();
    let m = p.unicode_len();
    let mut i: usize = 0;
    loop
        invariant
            n == s@.len(),
            m == p@.len(),
            i <= n,
            forall|k: int| 0 <= k < i ==> !release_marker_at(s@, p@, k),
        ensures
            !has_release_marker(s@, p@),
        decreases n - i,
    {
        if matches_at(s, p, i) {
            if i + m == n {
                assert(release_marker_at(s@, p@, i as int));
                return true;
            }
            let c = s.get_char(i + m);
            if !(('0' <= c && c <= '9') || c == '.') {
                assert(release_marker_at(s@, p@, i as int));
                return true;
            }
        }
        if i == n {
            assert forall|k: int| !release_marker_at(s@, p@, k) by {
                if 0 <= k && k < i {
                    assert(!release_marker_at(s@, p@, k));
                }
            }
            break;
        }
        i = i + 1;
    }
    false
}

/// The kernel version patterns for a family, in the order they are tried.
fn kernel_pattern_list(family: Option<Distro>) -> (r: Vec<&'static str>)
    ensures
        r@.map_values(|p: &'static str| p@) == kernel_patterns(family),
{
    let mut r = match family {
        Some(Distro::Debian) => vec![DEBIAN_BANNER_KERNEL, DEBIAN_KERNEL],
        Some(Distro::Ubuntu) => vec![UBUNTU_BANNER_KERNEL, UBUNTU_KERNEL],
        Some(Distro::Fedora) => vec![FEDORA_BANNER_KERNEL, FEDORA_KERNEL],
        Some(_) => vec![EL_BANNER_KERNEL, EL_KERNEL, UEK_KERNEL],
        None => Vec::new(),
    };
    r.push(GENERIC_BANNER_KERNEL);
    r.push(GENERIC_KERNEL);
    assert(r@.map_values(|p: &'static str| p@) =~= kernel_patterns(family));
    r
}

/// The kernel version in a banner: what the first of the family's patterns
/// that matches captures, the generic patterns last. The version found
/// occurs in the banner.
pub fn extract_kernel_version(banner: &str, family: Option<Distro>) -> (r: Option<String>)
    ensures
        opt_chars(r) == first_capture(kernel_patterns(family), banner@),
        r matches Some(k) ==> has_substring(banner@, k@),
{
    let patterns = kernel_pattern_list(family);
    let ghost all = kernel_patterns(family);
    let mut i: usize = 0;
    assert(all.skip(0) =~= all);
    while i < patterns.len()
        invariant
            all == kernel_patterns(family),
            patterns@.map_values(|p: &'static str| p@) == all,
            i <= patterns@.len(),
            first_capture(all, banner@) == first_capture(all.skip(i as int), banner@),
        decreases patterns@.len() - i,
    {
        assert(all.skip(i as int).drop_first() =~= all.skip(i + 1));
        assert(all.skip(i as int)[0] == all[i as int]);
        assert(all[i as int] == patterns@[i as int]@);
        let found = capture_group1(patterns[i], banner);
        if found.is_some() {
            return found;
        }
        i = i + 1;
    }
    None
}

/// The release of `family`, given the banner, its lowercase form, the kernel
/// version and, for the RPM-based families, the release tag captured from the
/// kernel version.
pub fn resolve_release(
    family: Distro,
    banner: &str,
    lower: &str,
    kernel: &str,
    tag: Option<String>,
) -> (r: Option<String>)
    ensures
        opt_chars(r) == release_given_tag(family, banner@, lower@, kernel@, opt_chars(tag)),
{
    match family {
        Distro::Ubuntu => {
            if contains(banner, "~24.04") || contains(lower, "noble") {
                Some(owned("24.04"))
            } else if contains(banner, "~22.04") || contains(lower, "jammy") {
                Some(owned("22.04"))
            } else if contains(banner, "~20.04") || contains(lower, "focal") {
                Some(owned("20.04"))
            } else if starts_with(kernel, "5.4.") {
                Some(owned("20.04"))
            } else if starts_with(kernel, "5.15.") || starts_with(kernel, "5.19.") {
                Some(owned("22.04"))
            } else if starts_with(kernel, "6.") {
                Some(owned("24.04"))
            } else {
                None
            }
        },
        Distro::Debian => {
            if contains(lower, "buster") || contains_release_marker(lower, "debian 10") {
                Some(owned("10"))
            } else if contains(lower, "bullseye") || contains_release_marker(lower, "debian 11") {
                Some(owned("11"))
            } else if contains(lower, "bookworm") || contains_release_marker(lower, "debian 12") {
                Some(owned("12"))
            } else if starts_with(kernel, "4.19.") {
                Some(owned("10"))
            } else if starts_with(kernel, "5.10.") {
                Some(owned("11"))
            } else if starts_with(kernel, "6.1.") {
                Some(owned("12"))
            } else {
                None
            }
        },
        _ => tag,
    }
}

/// The command line that reproduces a generation from a parsed banner.
pub fn suggested_command(kernel: &str, family: Distro, release: &str) -> (r: String)
    ensures
        r@ == command_text(kernel@, family, release@),
{
    let mut r = owned("symgen generate -k ");
    r.append(kernel);
    r.append(" -d ");
    r.append(family.cli_name());
    r.append(" -V ");
    r.append(release);
    r
}

impl BannerParseResult {
    /// The parse result for a kernel version, a family and a release.
    pub fn assemble(kernel_version: String, family: Option<Distro>, release: Option<String>) -> (r:
        BannerParseResult)
        ensures
            r@ == banner_result(kernel_version@, family, opt_chars(release)),
    {
        match family {
            None => BannerParseResult {
                kernel_version,
                distro: None,
                distro_version: None,
                suggested_command: None,
            },
            Some(d) => {
                let suggested = match &release {
                    Some(v) => Some(suggested_command(kernel_version.as_str(), d, v.as_str())),
                    None => None,
                };
                BannerParseResult {
                    kernel_version,
                    distro: Some(owned(d.tag())),
                    distro_version: release,
                    suggested_command: suggested,
                }
            },
        }
    }
}

/// Parses a kernel banner into its kernel version and, where recognised, its
/// distribution and release. Returns `None` for an empty banner, for text
/// that names no distribution and does not announce a Linux version, and
/// where no kernel version pattern matches.
pub fn parse_banner(banner: &str) -> (r: Option<BannerParseResult>)
    ensures
        opt_banner(r) == parse_banner_spec(banner@),
        banner@.len() == 0 ==> r is None,
        family_of(lower_of(banner@)) is None && !announces_version(banner@) ==> r is None,
        r matches Some(b) ==> has_substring(banner@, b.kernel_version@),
{
    if banner.unicode_len() == 0 {
        return None;
    }
    let lower = to_lower(banner);
    let family = detect_family(lower.as_str());
    if family.is_none() && !contains(banner, "Linux version") {
        return None;
    }
    let kernel = match extract_kernel_version(banner, family) {
        Some(k) => k,
        None => return None,
    };
    let release = match family {
        None => None,
        Some(d) => {
            let tag = match d {
                Distro::Ubuntu | Distro::Debian => None,
                Distro::Fedora => capture_group1(FEDORA_RELEASE_TAG, kernel.as_str()),
                _ => capture_group1(EL_RELEASE_TAG, kernel.as_str()),
            };
            resolve_release(d, banner, lower.as_str(), kernel.as_str(), tag)
        },
    };
    Some(BannerParseResult::assemble(kernel, family, release))
}

} // verus!
