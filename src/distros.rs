//! The catalog of supported distributions, their releases and the container
//! images that provision them.

use vstd::prelude::*;
use vstd::string::*;
use crate::text::{lower_of, to_lower, same_text, owned, opt_chars};

verus! {

/// A supported Linux distribution.
#[derive(Debug, Clone, Copy, PartialEq, Eq, Structural)]
pub enum Distro {
    Ubuntu,
    Debian,
    Fedora,
    CentOS,
    RHEL,
    Oracle,
    Rocky,
    Alma,
}

/// The distribution that a lowercase name denotes, with its accepted aliases.
pub open spec fn distro_named(s: Seq<char>) -> Option<Distro> {
    if s == "ubuntu"@ {
        Some(Distro::Ubuntu)
    } else if s == "debian"@ {
        Some(Distro::Debian)
    } else if s == "fedora"@ {
        Some(Distro::Fedora)
    } else if s == "centos"@ {
        Some(Distro::CentOS)
    } else if s == "rhel"@ || s == "redhat"@ {
        Some(Distro::RHEL)
    } else if s == "oracle"@ || s == "oraclelinux"@ || s == "ol"@ {
        Some(Distro::Oracle)
    } else if s == "rocky"@ || s == "rockylinux"@ {
        Some(Distro::Rocky)
    } else if s == "alma"@ || s == "almalinux"@ {
        Some(Distro::Alma)
    } else {
        None
    }
}

/// The order in which the catalog lists the distributions.
pub open spec fn all_distros() -> Seq<Distro> {
    seq![
        Distro::Ubuntu,
        Distro::Debian,
        Distro::Fedora,
        Distro::CentOS,
        Distro::RHEL,
        Distro::Oracle,
        Distro::Rocky,
        Distro::Alma,
    ]
}

impl Distro {
    /// The name shown to people.
    pub open spec fn spec_display_name(self) -> Seq<char> {
        match self {
            Distro::Ubuntu => "Ubuntu"@,
            Distro::Debian => "Debian"@,
            Distro::Fedora => "Fedora"@,
            Distro::CentOS => "CentOS"@,
            Distro::RHEL => "RHEL"@,
            Distro::Oracle => "Oracle Linux"@,
            Distro::Rocky => "Rocky Linux"@,
            Distro::Alma => "AlmaLinux"@,
        }
    }

    /// The short tag that names the distribution in banner results and in
    /// symbol file names.
    pub open spec fn spec_tag(self) -> Seq<char> {
        match self {
            Distro::Ubuntu => "Ubuntu"@,
            Distro::Debian => "Debian"@,
            Distro::Fedora => "Fedora"@,
            Distro::CentOS => "CentOS"@,
            Distro::RHEL => "RHEL"@,
            Distro::Oracle => "Oracle"@,
            Distro::Rocky => "Rocky"@,
            Distro::Alma => "Alma"@,
        }
    }

    /// The lowercase name that `from_str` accepts for the distribution.
    pub open spec fn spec_cli_name(self) -> Seq<char> {
        match self {
            Distro::Ubuntu => "ubuntu"@,
            Distro::Debian => "debian"@,
            Distro::Fedora => "fedora"@,
            Distro::CentOS => "centos"@,
            Distro::RHEL => "rhel"@,
            Distro::Oracle => "oracle"@,
            Distro::Rocky => "rocky"@,
            Distro::Alma => "alma"@,
        }
    }

    /// Parses a distribution name, ignoring case.
    pub fn from_str(s: &str) -> (r: Option<Distro>)
        ensures
            r == distro_named(lower_of(s@)),
    {
        let lower = to_lower(s);
        Distro::from_lowercase(lower.as_str())
    }

    /// Parses a distribution name that is already in lowercase.
    pub fn from_lowercase(s: &str) -> (r: Option<Distro>)
        ensures
            r == distro_named(s@),
    {
        if same_text(s, "ubuntu") {
            Some(Distro::Ubuntu)
        } else if same_text(s, "debian") {
            Some(Distro::Debian)
        } else if same_text(s, "fedora") {
            Some(Distro::Fedora)
        } else if same_text(s, "centos") {
            Some(Distro::CentOS)
        } else if same_text(s, "rhel") || same_text(s, "redhat") {
            Some(Distro::RHEL)
        } else if same_text(s, "oracle") || same_text(s, "oraclelinux") || same_text(s, "ol") {
            Some(Distro::Oracle)
        } else if same_text(s, "rocky") || same_text(s, "rockylinux") {
            Some(Distro::Rocky)
        } else if same_text(s, "alma") || same_text(s, "almalinux") {
            Some(Distro::Alma)
        } else {
            None
        }
    }

    /// The name shown to people.
    pub fn display_name(&self) -> (r: &'static str)
        ensures
            r@ == self.spec_display_name(),
    {
        match self {
            Distro::Ubuntu => "Ubuntu",
            Distro::Debian => "Debian",
            Distro::Fedora => "Fedora",
            Distro::CentOS => "CentOS",
            Distro::RHEL => "RHEL",
            Distro::Oracle => "Oracle Linux",
            Distro::Rocky => "Rocky Linux",
            Distro::Alma => "AlmaLinux",
        }
    }

    /// The short tag of the distribution.
    pub fn tag(&self) -> (r: &'static str)
        ensures
            r@ == self.spec_tag(),
    {
        match self {
            Distro::Ubuntu => "Ubuntu",
            Distro::Debian => "Debian",
            Distro::Fedora => "Fedora",
            Distro::CentOS => "CentOS",
            Distro::RHEL => "RHEL",
            Distro::Oracle => "Oracle",
            Distro::Rocky => "Rocky",
            Distro::Alma => "Alma",
        }
    }

    /// The lowercase name of the distribution.
    pub fn cli_name(&self) -> (r: &'static str)
        ensures
            r@ == self.spec_cli_name(),
    {
        match self {
            Distro::Ubuntu => "ubuntu",
            Distro::Debian => "debian",
            Distro::Fedora => "fedora",
            Distro::CentOS => "centos",
            Distro::RHEL => "rhel",
            Distro::Oracle => "oracle",
            Distro::Rocky => "rocky",
            Distro::Alma => "alma",
        }
    }

    /// Every supported distribution, in catalog order.
    pub fn all() -> (r: &'static [Distro])
        ensures
            r@ == all_distros(),
    {
        &[
            Distro::Ubuntu,
            Distro::Debian,
            Distro::Fedora,
            Distro::CentOS,
            Distro::RHEL,
            Distro::Oracle,
            Distro::Rocky,
            Distro::Alma,
        ]
    }
}

/// One release of a distribution, with the container image that provisions it.
#[derive(Debug, Clone)]
pub struct DistroVersion {
    pub distro: Distro,
    pub version: String,
    pub codename: Option<String>,
    pub docker_image: String,
}

/// The mathematical value of a `DistroVersion`.
pub struct DistroVersionView {
    pub distro: Distro,
    pub version: Seq<char>,
    pub codename: Option<Seq<char>>,
    pub docker_image: Seq<char>,
}

impl View for DistroVersion {
    type V = DistroVersionView;

    open spec fn view(&self) -> DistroVersionView {
        DistroVersionView {
            distro: self.distro,
            version: self.version@,
            codename: opt_chars(self.codename),
            docker_image: self.docker_image@,
        }
    }
}

impl DistroVersion {
    /// How the release is listed: its version, with its codename in
    /// parentheses where it has one.
    pub fn label(&self) -> (r: String)
        ensures
            r@ == match self.codename {
                Some(c) => self.version@ + " ("@ + c@ + ")"@,
                None => self.version@,
            },
    {
        let mut r = owned(self.version.as_str());
        if let Some(c) = &self.codename {
            r.append(" (");
            r.append(c.as_str());
            r.append(")");
        }
        r
    }
}

/// The view of an optional catalog entry.
pub open spec fn opt_entry(o: Option<DistroVersion>) -> Option<DistroVersionView> {
    match o {
        Some(v) => Some(v@),
        None => None,
    }
}

/// A catalog entry built from its parts.
pub open spec fn spec_entry(
    distro: Distro,
    version: Seq<char>,
    codename: Option<Seq<char>>,
    docker_image: Seq<char>,
) -> DistroVersionView {
    DistroVersionView { distro, version, codename, docker_image }
}

/// The releases of each distribution, oldest first.
pub open spec fn catalog(d: Distro) -> Seq<DistroVersionView> {
    match d {
        Distro::Ubuntu => seq![
            spec_entry(d, "20.04"@, Some("focal"@), "ubuntu:20.04"@),
            spec_entry(d, "22.04"@, Some("jammy"@), "ubuntu:22.04"@),
            spec_entry(d, "24.04"@, Some("noble"@), "ubuntu:24.04"@),
        ],
        Distro::Debian => seq![
            spec_entry(d, "10"@, Some("buster"@), "debian:10"@),
            spec_entry(d, "11"@, Some("bullseye"@), "debian:11"@),
            spec_entry(d, "12"@, Some("bookworm"@), "debian:12"@),
        ],
        Distro::Fedora => seq![
            spec_entry(d, "38"@, None, "fedora:38"@),
            spec_entry(d, "39"@, None, "fedora:39"@),
            spec_entry(d, "40"@, None, "fedora:40"@),
        ],
        Distro::CentOS => seq![
            spec_entry(d, "7"@, None, "centos:7"@),
            spec_entry(d, "8"@, None, "quay.io/centos/centos:stream8"@),
            spec_entry(d, "9"@, None, "quay.io/centos/centos:stream9"@),
        ],
        Distro::RHEL => seq![
            spec_entry(d, "8"@, None, "redhat/ubi8:latest"@),
            spec_entry(d, "9"@, None, "redhat/ubi9:latest"@),
        ],
        Distro::Oracle => seq![
            spec_entry(d, "8"@, None, "oraclelinux:8"@),
            spec_entry(d, "9"@, None, "oraclelinux:9"@),
        ],
        Distro::Rocky => seq![
            spec_entry(d, "8"@, None, "rockylinux:8"@),
            spec_entry(d, "9"@, None, "rockylinux:9"@),
        ],
        Distro::Alma => seq![
            spec_entry(d, "8"@, None, "almalinux:8"@),
            spec_entry(d, "9"@, None, "almalinux:9"@),
        ],
    }
}

/// The families whose releases carry a codename: the apt-based ones.
pub open spec fn has_codenames(d: Distro) -> bool {
    d == Distro::Ubuntu || d == Distro::Debian
}

/// Every catalog entry belongs to its distribution, and has a codename
/// exactly when its family uses codenames.
pub proof fn lemma_catalog_codenames(d: Distro, i: int)
    requires
        0 <= i < catalog(d).len(),
    ensures
        catalog(d)[i].distro == d,
        catalog(d)[i].codename is Some <==> has_codenames(d),
{
}

/// The first entry of `entries` whose version is `v`.
pub open spec fn first_with_version(entries: Seq<DistroVersionView>, v: Seq<char>) -> Option<
    DistroVersionView,
>
    decreases entries.len(),
{
    if entries.len() == 0 {
        None
    } else if entries[0].version == v {
        Some(entries[0])
    } else {
        first_with_version(entries.drop_first(), v)
    }
}

/// The catalog entry of distribution `d` whose version is exactly `v`.
pub open spec fn lookup(d: Distro, v: Seq<char>) -> Option<DistroVersionView> {
    first_with_version(catalog(d), v)
}

proof fn lemma_first_with_version(entries: Seq<DistroVersionView>, v: Seq<char>)
    ensures
        match first_with_version(entries, v) {
            Some(e) => e.version == v && entries.contains(e),
            None => forall|i: int| 0 <= i < entries.len() ==> #[trigger] entries[i].version != v,
        },
    decreases entries.len(),
{
    if entries.len() > 0 && entries[0].version != v {
        let rest = entries.drop_first();
        lemma_first_with_version(rest, v);
        if let Some(e) = first_with_version(rest, v) {
            let k = choose|k: int| 0 <= k < rest.len() && rest[k] == e;
            assert(entries[k + 1] == e);
        } else {
            assert forall|i: int| 0 <= i < entries.len() implies #[trigger] entries[i].version != v by {
                if i > 0 {
                    assert(entries[i] == rest[i - 1]);
                }
            }
        }
    }
}

proof fn lemma_images_named(d: Distro)
    ensures
        forall|i: int| 0 <= i < catalog(d).len() ==> #[trigger] catalog(d)[i].docker_image.len() > 0,
{
    reveal_strlit("ubuntu:20.04");
    reveal_strlit("ubuntu:22.04");
    reveal_strlit("ubuntu:24.04");
    reveal_strlit("debian:10");
    reveal_strlit("debian:11");
    reveal_strlit("debian:12");
    reveal_strlit("fedora:38");
    reveal_strlit("fedora:39");
    reveal_strlit("fedora:40");
    reveal_strlit("centos:7");
    reveal_strlit("quay.io/centos/centos:stream8");
    reveal_strlit("quay.io/centos/centos:stream9");
    reveal_strlit("redhat/ubi8:latest");
    reveal_strlit("redhat/ubi9:latest");
    reveal_strlit("oraclelinux:8");
    reveal_strlit("oraclelinux:9");
    reveal_strlit("rockylinux:8");
    reveal_strlit("rockylinux:9");
    reveal_strlit("almalinux:8");
    reveal_strlit("almalinux:9");
}

/// Looking up the version of any catalog entry finds an entry with exactly
/// that version, whose container image reference is not empty.
pub proof fn lemma_lookup_finds_entry(d: Distro, i: int)
    requires
        0 <= i < catalog(d).len(),
    ensures
        lookup(d, catalog(d)[i].version) is Some,
        lookup(d, catalog(d)[i].version)->0.version == catalog(d)[i].version,
        lookup(d, catalog(d)[i].version)->0.docker_image.len() > 0,
{
    let v = catalog(d)[i].version;
    lemma_first_with_version(catalog(d), v);
    lemma_images_named(d);
    if let Some(e) = lookup(d, v) {
        let k = choose|k: int| 0 <= k < catalog(d).len() && catalog(d)[k] == e;
        assert(catalog(d)[k].docker_image.len() > 0);
    }
}

/// Looking up a version that no catalog entry of the distribution has finds
/// nothing.
pub proof fn lemma_lookup_absent(d: Distro, v: Seq<char>)
    requires
        forall|i: int| 0 <= i < catalog(d).len() ==> #[trigger] catalog(d)[i].version != v,
    ensures
        lookup(d, v) is None,
{
    lemma_first_with_version(catalog(d), v);
}

fn entry(distro: Distro, version: &str, codename: Option<&str>, docker_image: &str) -> (r:
    DistroVersion)
    ensures
        r@ == spec_entry(
            distro,
            version@,
            match codename {
                Some(c) => Some(c@),
                None => None,
            },
            docker_image@,
        ),
{
    let codename = match codename {
        Some(c) => Some(owned(c)),
        None => None,
    };
    DistroVersion { distro, version: owned(version), codename, docker_image: owned(docker_image) }
}

/// The releases of a distribution that the catalog supports, oldest first.
pub fn get_versions(distro: Distro) -> (r: Vec<DistroVersion>)
    ensures
        r@.len() == catalog(distro).len(),
        forall|i: int| 0 <= i < r@.len() ==> #[trigger] r@[i]@ == catalog(distro)[i],
        forall|i: int|
            0 <= i < r@.len() ==> #[trigger] r@[i].distro == distro && (r@[i].codename is Some
                <==> has_codenames(distro)),
{
    let d = distro;
    let r = match d {
        Distro::Ubuntu => vec![
            entry(d, "20.04", Some("focal"), "ubuntu:20.04"),
            entry(d, "22.04", Some("jammy"), "ubuntu:22.04"),
            entry(d, "24.04", Some("noble"), "ubuntu:24.04"),
        ],
        Distro::Debian => vec![
            entry(d, "10", Some("buster"), "debian:10"),
            entry(d, "11", Some("bullseye"), "debian:11"),
            entry(d, "12", Some("bookworm"), "debian:12"),
        ],
        Distro::Fedora => vec![
            entry(d, "38", None, "fedora:38"),
            entry(d, "39", None, "fedora:39"),
            entry(d, "40", None, "fedora:40"),
        ],
        Distro::CentOS => vec![
            entry(d, "7", None, "centos:7"),
            entry(d, "8", None, "quay.io/centos/centos:stream8"),
            entry(d, "9", None, "quay.io/centos/centos:stream9"),
        ],
        Distro::RHEL => vec![
            entry(d, "8", None, "redhat/ubi8:latest"),
            entry(d, "9", None, "redhat/ubi9:latest"),
        ],
        Distro::Oracle => vec![
            entry(d, "8", None, "oraclelinux:8"),
            entry(d, "9", None, "oraclelinux:9"),
        ],
        Distro::Rocky => vec![
            entry(d, "8", None, "rockylinux:8"),
            entry(d, "9", None, "rockylinux:9"),
        ],
        Distro::Alma => vec![
            entry(d, "8", None, "almalinux:8"),
            entry(d, "9", None, "almalinux:9"),
        ],
    };
    r
}

/// The catalog entry of `distro` whose version string is exactly `version`.
pub fn find_version(distro: Distro, version: &str) -> (r: Option<DistroVersion>)
    ensures
        opt_entry(r) == lookup(distro, version@),
{
    let mut entries = get_versions(distro);
    let ghost cat = catalog(distro);
    let mut i: usize = 0;
    assert(cat.skip(0) =~= cat);
    while i < entries.len()
        invariant
            cat == catalog(distro),
            entries@.len() == cat.len(),
            forall|j: int| 0 <= j < entries@.len() ==> #[trigger] entries@[j]@ == cat[j],
            i <= entries@.len(),
            first_with_version(cat, version@) == first_with_version(cat.skip(i as int), version@),
        decreases entries@.len() - i,
    {
        assert(cat.skip(i as int).drop_first() =~= cat.skip(i + 1));
        assert(cat.skip(i as int)[0] == cat[i as int]);
        assert(entries@[i as int]@ == cat[i as int]);
        if same_text(entries[i].version.as_str(), version) {
            let found = entries.remove(i);
            assert(found@ == cat[i as int]);
            assert(cat.skip(i as int).len() > 0);
            assert(first_with_version(cat.skip(i as int), version@) == Some(cat[i as int]));
            return Some(found);
        }
        i = i + 1;
    }
    None
}

} // verus!
