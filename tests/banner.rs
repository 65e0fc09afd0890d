use symgen::banner::{
    contains_release_marker, detect_family, extract_kernel_version, parse_banner,
    resolve_release, suggested_command, BannerParseResult,
};
use symgen::distros::Distro;

#[test]
fn ubuntu_banner() {
    let r = parse_banner(
        "Linux version 5.15.0-91-generic (buildd@...) (gcc (Ubuntu 11.4.0-1ubuntu1~22.04) ...)",
    )
    .unwrap();
    assert_eq!(r.kernel_version, "5.15.0-91-generic");
    assert_eq!(r.distro.as_deref(), Some("Ubuntu"));
    assert_eq!(r.distro_version.as_deref(), Some("22.04"));
    assert_eq!(
        r.suggested_command.as_deref(),
        Some("symgen generate -k 5.15.0-91-generic -d ubuntu -V 22.04")
    );
}

#[test]
fn debian_banner_version_from_kernel_series() {
    let r = parse_banner(
        "Linux version 6.1.0-18-amd64 (debian-kernel@...) (gcc-10 (Debian 10.2.1-6) ...) Debian 6.1.76-1 (2024-02-01)",
    )
    .unwrap();
    assert_eq!(r.kernel_version, "6.1.0-18-amd64");
    assert_eq!(r.distro.as_deref(), Some("Debian"));
    assert_eq!(r.distro_version.as_deref(), Some("12"));
}

#[test]
fn rhel_banner_version_from_el_tag() {
    let r = parse_banner("Linux version 4.18.0-513.el8.x86_64 (mockbuild@...) (gcc (GCC) 8.5.0 ...)")
        .unwrap();
    assert_eq!(r.kernel_version, "4.18.0-513.el8.x86_64");
    assert_eq!(r.distro.as_deref(), Some("RHEL"));
    assert_eq!(r.distro_version.as_deref(), Some("8"));
    assert_eq!(
        r.suggested_command.as_deref(),
        Some("symgen generate -k 4.18.0-513.el8.x86_64 -d rhel -V 8")
    );
}

#[test]
fn empty_banner_is_rejected() {
    assert!(parse_banner("").is_none());
}

#[test]
fn text_without_kernel_or_distro_is_rejected() {
    assert!(parse_banner("hello world").is_none());
    assert!(parse_banner("Linux kernel of some sort").is_none());
}

#[test]
fn fedora_banner() {
    let r = parse_banner("Linux version 6.5.6-300.fc39.x86_64 (mockbuild@...) (gcc (GCC) 13.2.1 ...)")
        .unwrap();
    assert_eq!(r.kernel_version, "6.5.6-300.fc39.x86_64");
    assert_eq!(r.distro.as_deref(), Some("Fedora"));
    assert_eq!(r.distro_version.as_deref(), Some("39"));
}

#[test]
fn rocky_banner_wins_over_generic_el_marker() {
    let r = parse_banner(
        "Linux version 5.14.0-362.8.1.el9_3.x86_64 (mockbuild@iad1-prod-build001.bld.equ.rockylinux.org) (gcc (GCC) 11.4.1)",
    )
    .unwrap();
    assert_eq!(r.kernel_version, "5.14.0-362.8.1.el9_3.x86_64");
    assert_eq!(r.distro.as_deref(), Some("Rocky"));
    assert_eq!(r.distro_version.as_deref(), Some("9"));
}

#[test]
fn banner_without_distribution_keeps_kernel_only() {
    let r = parse_banner("Linux version 5.15.0-91-generic #101").unwrap();
    assert_eq!(r.kernel_version, "5.15.0-91-generic");
    assert_eq!(r.distro, None);
    assert_eq!(r.distro_version, None);
    assert_eq!(r.suggested_command, None);
}

#[test]
fn debian_banner_with_unknown_series_has_no_version() {
    let r = parse_banner("Linux version 5.2.0-1-amd64 (debian-kernel@lists.debian.org)").unwrap();
    assert_eq!(r.kernel_version, "5.2.0-1-amd64");
    assert_eq!(r.distro.as_deref(), Some("Debian"));
    assert_eq!(r.distro_version, None);
    assert_eq!(r.suggested_command, None);
}

#[test]
fn debian_codename_marker() {
    let r = parse_banner("Linux version 5.10.0-28-amd64 (debian-kernel@lists.debian.org) bullseye")
        .unwrap();
    assert_eq!(r.distro_version.as_deref(), Some("11"));
}

#[test]
fn ubuntu_version_from_kernel_series() {
    let r = parse_banner("Linux version 6.8.0-31-generic (buildd@lcy02) (ubuntu build)").unwrap();
    assert_eq!(r.distro_version.as_deref(), Some("24.04"));
    let r = parse_banner("Linux version 5.4.0-150-generic (buildd@lcy02) (ubuntu build)").unwrap();
    assert_eq!(r.distro_version.as_deref(), Some("20.04"));
}

#[test]
fn family_detection_order() {
    assert_eq!(detect_family("ubuntu and debian"), Some(Distro::Ubuntu));
    assert_eq!(detect_family("red hat rocky"), Some(Distro::Rocky));
    assert_eq!(detect_family("x.el8 oracle"), Some(Distro::Oracle));
    assert_eq!(detect_family("x.el8"), Some(Distro::RHEL));
    assert_eq!(detect_family("x.fc39"), Some(Distro::Fedora));
    assert_eq!(detect_family("UBUNTU"), None);
    assert_eq!(detect_family("plain"), None);
}

#[test]
fn kernel_extraction_falls_back_to_generic_patterns() {
    assert_eq!(
        extract_kernel_version("Linux version 6.1.0-18-cloud-amd64 x", Some(Distro::Debian)).as_deref(),
        Some("6.1.0-18-cloud-amd64")
    );
    assert_eq!(
        extract_kernel_version("built 6.1.0-18-amd64 here", Some(Distro::Debian)).as_deref(),
        Some("6.1.0-18-amd64")
    );
    assert_eq!(extract_kernel_version("nothing", None), None);
}

#[test]
fn release_markers_are_whole() {
    assert!(!contains_release_marker("gcc-10 (debian 10.2.1-6)", "debian 10"));
    assert!(contains_release_marker("debian 10 (buster)", "debian 10"));
    assert!(contains_release_marker("runs debian 11", "debian 11"));
    assert!(!contains_release_marker("debian 110", "debian 11"));
}

#[test]
fn release_resolution_from_tag() {
    assert_eq!(
        resolve_release(Distro::Fedora, "b", "b", "6.5.6-300.fc39.x86_64", Some("39".to_string())).as_deref(),
        Some("39")
    );
    assert_eq!(resolve_release(Distro::Alma, "b", "b", "k", None), None);
    assert_eq!(
        resolve_release(Distro::Ubuntu, "x ~20.04 y", "jammy", "6.1", Some("9".to_string())).as_deref(),
        Some("22.04")
    );
    assert_eq!(
        resolve_release(Distro::Debian, "B", "debian 12", "4.19.0-1-amd64", None).as_deref(),
        Some("12")
    );
}

#[test]
fn suggested_command_text() {
    assert_eq!(
        suggested_command("6.1.0-18-amd64", Distro::Debian, "12"),
        "symgen generate -k 6.1.0-18-amd64 -d debian -V 12"
    );
    assert_eq!(
        suggested_command("5.14.0-1.el9", Distro::Oracle, "9"),
        "symgen generate -k 5.14.0-1.el9 -d oracle -V 9"
    );
}

#[test]
fn assemble_without_release_has_no_command() {
    let r = BannerParseResult::assemble("4.18.0".to_string(), Some(Distro::CentOS), None);
    assert_eq!(r.distro.as_deref(), Some("CentOS"));
    assert_eq!(r.suggested_command, None);
    let r = BannerParseResult::assemble("4.18.0".to_string(), None, Some("8".to_string()));
    assert_eq!(r.distro_version, None);
}

#[test]
fn bare_kernel_version_without_banner_is_rejected() {
    assert!(parse_banner("5.15.0-91-generic").is_none());
    assert!(parse_banner("built 6.1.0-18-cloud-amd64 yesterday").is_none());
    assert_eq!(
        extract_kernel_version("5.15.0-91-generic", None).as_deref(),
        Some("5.15.0-91-generic")
    );
}

#[test]
fn detected_family_falls_back_to_generic_pattern_without_banner_wording() {
    let r = parse_banner("ubuntu 5.15.0-91-lowlatency").unwrap();
    assert_eq!(r.kernel_version, "5.15.0-91-lowlatency");
    assert_eq!(r.distro.as_deref(), Some("Ubuntu"));
    assert_eq!(r.distro_version.as_deref(), Some("22.04"));
    assert_eq!(
        extract_kernel_version("ubuntu 5.15.0-91-lowlatency", Some(Distro::Ubuntu)).as_deref(),
        Some("5.15.0-91-lowlatency")
    );
}

#[test]
fn kernel_version_occurs_in_banner() {
    let b = "Linux version 6.5.6-300.fc39.x86_64 (mockbuild@...)";
    let r = parse_banner(b).unwrap();
    assert!(b.contains(&r.kernel_version));
}
