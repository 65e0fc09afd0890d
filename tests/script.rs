use symgen::distros::{find_version, Distro, DistroVersion};
use symgen::script::{generate_script, get_symbol_filename, get_symbol_stem, render_template};

fn entry(d: Distro, v: &str) -> DistroVersion {
    find_version(d, v).unwrap()
}

#[test]
fn ubuntu_script_fills_every_slot() {
    let s = generate_script("5.15.0-91-generic", &entry(Distro::Ubuntu, "22.04"));
    assert!(s.starts_with("#!/bin/bash\nset -e\n"));
    assert!(s.contains("echo \"=== Starting symbol generation for Ubuntu kernel 5.15.0-91-generic ===\""));
    assert!(s.contains("Suites: jammy jammy-updates jammy-proposed"));
    assert!(s.contains("apt-get install -y -qq linux-image-5.15.0-91-generic-dbgsym"));
    assert!(s.contains("SYMBOL_FILE=\"$OUTPUT_DIR/Ubuntu_jammy_5.15.0-91-generic.json\""));
    assert!(s.contains("xz -9 \"$SYMBOL_FILE\""));
    assert!(!s.contains("{K}") && !s.contains("{C}") && !s.contains("{F}"));
}

#[test]
fn debian_script_uses_debug_suite() {
    let s = generate_script("6.1.0-18-amd64", &entry(Distro::Debian, "12"));
    assert!(s.contains("deb http://deb.debian.org/debian-debug bookworm-debug main"));
    assert!(s.contains("linux-image-6.1.0-18-amd64-unsigned-dbg"));
    assert!(s.contains("$OUTPUT_DIR/Debian_bookworm_6.1.0-18-amd64.json\""));
}

#[test]
fn fedora_script_names_release() {
    let s = generate_script("6.5.6-300.fc39.x86_64", &entry(Distro::Fedora, "39"));
    assert!(s.contains("for Fedora 39 kernel 6.5.6-300.fc39.x86_64 ==="));
    assert!(s.contains("dnf -y -q install kernel-debuginfo-6.5.6-300.fc39.x86_64"));
    assert!(s.contains("$OUTPUT_DIR/Fedora_39_6.5.6-300.fc39.x86_64.json\""));
}

#[test]
fn rhel_family_script_names_family() {
    let s = generate_script("5.14.0-362.el9.x86_64", &entry(Distro::Rocky, "9"));
    assert!(s.contains("=== Starting symbol generation for Rocky 9 kernel 5.14.0-362.el9.x86_64 ==="));
    assert!(s.contains("$OUTPUT_DIR/Rocky_9_5.14.0-362.el9.x86_64.json\""));
    let c = generate_script("4.18.0-513.el8.x86_64", &entry(Distro::CentOS, "8"));
    assert!(c.contains("for CentOS 8 kernel"));
    assert!(c.contains("$OUTPUT_DIR/CentOS_8_4.18.0-513.el8.x86_64.json\""));
}

#[test]
fn oracle_script_writes_debuginfo_repo() {
    let s = generate_script("5.15.0-100.96.32.el8uek.x86_64", &entry(Distro::Oracle, "8"));
    assert!(s.contains("name=Oracle Linux 8 Debuginfo\nbaseurl=https://oss.oracle.com/ol8/debuginfo/\n"));
    assert!(s.contains("kernel-uek-debuginfo-5.15.0-100.96.32.el8uek.x86_64"));
    assert!(s.contains("$OUTPUT_DIR/Oracle_8_5.15.0-100.96.32.el8uek.x86_64.json\""));
}

#[test]
fn script_synthesis_is_deterministic() {
    let e = entry(Distro::Debian, "11");
    let a = generate_script("5.10.0-28-amd64", &e);
    let b = generate_script("5.10.0-28-amd64", &e);
    assert_eq!(a, b);
    let c = generate_script("5.10.0-29-amd64", &e);
    assert_ne!(a, c);
}

#[test]
fn symbol_filenames() {
    assert_eq!(
        get_symbol_filename("5.15.0-91-generic", &entry(Distro::Ubuntu, "22.04")),
        "Ubuntu_jammy_5.15.0-91-generic.json.xz"
    );
    assert_eq!(
        get_symbol_filename("4.18.0-513.el8.x86_64", &entry(Distro::CentOS, "8")),
        "CentOS_8_4.18.0-513.el8.x86_64.json.xz"
    );
    assert_eq!(
        get_symbol_filename("5.14.0-1.el9", &entry(Distro::Alma, "9")),
        "Alma_9_5.14.0-1.el9.json.xz"
    );
    assert_eq!(get_symbol_stem("k", &entry(Distro::Oracle, "9")), "Oracle_9_k");
}

#[test]
fn apt_entry_without_codename_falls_back() {
    let e = DistroVersion {
        distro: Distro::Ubuntu,
        version: "22.04".to_string(),
        codename: None,
        docker_image: "ubuntu:22.04".to_string(),
    };
    assert_eq!(get_symbol_filename("k", &e), "Ubuntu_22.04_k.json.xz");
    let s = generate_script("k", &e);
    assert!(s.contains("Suites: jammy-proposed"));
    assert!(s.contains("$OUTPUT_DIR/Ubuntu_22.04_k.json\""));
}

#[test]
fn render_replaces_known_slots_only() {
    assert_eq!(render_template("a{K}b{X}c{F}", "KERN", "C", "V", "N", "STEM"), "aKERNb{X}cSTEM");
    assert_eq!(render_template("{V}{N}{C}", "k", "c", "v", "n", "f"), "vnc");
    assert_eq!(render_template("x{K", "k", "c", "v", "n", "f"), "x{K");
    assert_eq!(render_template("{{K}}", "k", "c", "v", "n", "f"), "{k}");
    assert_eq!(render_template("", "k", "c", "v", "n", "f"), "");
    assert_eq!(render_template("{K}", "{C}", "c", "v", "n", "f"), "{C}");
}
