use symgen::distros::{find_version, get_versions, Distro};

#[test]
fn from_str_ignores_case_and_accepts_aliases() {
    assert_eq!(Distro::from_str("UBUNTU"), Some(Distro::Ubuntu));
    assert_eq!(Distro::from_str("Debian"), Some(Distro::Debian));
    assert_eq!(Distro::from_str("fedora"), Some(Distro::Fedora));
    assert_eq!(Distro::from_str("CentOS"), Some(Distro::CentOS));
    assert_eq!(Distro::from_str("RedHat"), Some(Distro::RHEL));
    assert_eq!(Distro::from_str("rhel"), Some(Distro::RHEL));
    assert_eq!(Distro::from_str("OL"), Some(Distro::Oracle));
    assert_eq!(Distro::from_str("OracleLinux"), Some(Distro::Oracle));
    assert_eq!(Distro::from_str("rockylinux"), Some(Distro::Rocky));
    assert_eq!(Distro::from_str("AlmaLinux"), Some(Distro::Alma));
}

#[test]
fn from_str_rejects_unknown_names() {
    assert_eq!(Distro::from_str("arch"), None);
    assert_eq!(Distro::from_str(""), None);
    assert_eq!(Distro::from_str("ubuntu "), None);
}

#[test]
fn from_lowercase_is_case_sensitive() {
    assert_eq!(Distro::from_lowercase("alma"), Some(Distro::Alma));
    assert_eq!(Distro::from_lowercase("Alma"), None);
}

#[test]
fn display_names_and_tags() {
    assert_eq!(Distro::Oracle.display_name(), "Oracle Linux");
    assert_eq!(Distro::Rocky.display_name(), "Rocky Linux");
    assert_eq!(Distro::Alma.display_name(), "AlmaLinux");
    assert_eq!(Distro::RHEL.display_name(), "RHEL");
    assert_eq!(Distro::Oracle.tag(), "Oracle");
    assert_eq!(Distro::CentOS.cli_name(), "centos");
}

#[test]
fn all_lists_every_distribution_in_order() {
    let all = Distro::all();
    assert_eq!(
        all.to_vec(),
        vec![
            Distro::Ubuntu,
            Distro::Debian,
            Distro::Fedora,
            Distro::CentOS,
            Distro::RHEL,
            Distro::Oracle,
            Distro::Rocky,
            Distro::Alma
        ]
    );
}

#[test]
fn ubuntu_versions_in_release_order() {
    let v = get_versions(Distro::Ubuntu);
    let versions: Vec<&str> = v.iter().map(|e| e.version.as_str()).collect();
    assert_eq!(versions, vec!["20.04", "22.04", "24.04"]);
    assert_eq!(v[1].codename.as_deref(), Some("jammy"));
    assert_eq!(v[2].docker_image, "ubuntu:24.04");
    assert!(v.iter().all(|e| e.distro == Distro::Ubuntu));
}

#[test]
fn centos_stream_entries() {
    let v = get_versions(Distro::CentOS);
    assert_eq!(v.len(), 3);
    assert!(v.iter().all(|e| e.codename.is_none()));
    assert_eq!(v[1].docker_image, "quay.io/centos/centos:stream8");
    assert_eq!(v[2].docker_image, "quay.io/centos/centos:stream9");
}

#[test]
fn only_apt_families_have_codenames() {
    for &d in Distro::all() {
        let apt = d == Distro::Ubuntu || d == Distro::Debian;
        for e in get_versions(d) {
            assert_eq!(e.distro, d);
            assert_eq!(e.codename.is_some(), apt);
        }
    }
}

#[test]
fn every_catalog_entry_is_found_by_its_version() {
    for &d in Distro::all() {
        for e in get_versions(d) {
            let found = find_version(d, &e.version).expect("catalog entry");
            assert_eq!(found.version, e.version);
            assert_eq!(found.docker_image, e.docker_image);
            assert!(!found.docker_image.is_empty());
        }
    }
}

#[test]
fn absent_versions_are_not_found() {
    assert!(find_version(Distro::Ubuntu, "18.04").is_none());
    assert!(find_version(Distro::Debian, "22.04").is_none());
    assert!(find_version(Distro::RHEL, "7").is_none());
    assert!(find_version(Distro::Fedora, "").is_none());
    assert!(find_version(Distro::Ubuntu, "22.04 ").is_none());
}

#[test]
fn version_labels() {
    let u = find_version(Distro::Debian, "12").unwrap();
    assert_eq!(u.label(), "12 (bookworm)");
    let f = find_version(Distro::Fedora, "40").unwrap();
    assert_eq!(f.label(), "40");
}
