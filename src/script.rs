//! Synthesis of the provisioning script that runs inside the container.
//!
//! Each distribution family has one script template. A template holds slots
//! written `{X}`, where `X` names a value: `K` the kernel version, `C` the
//! release codename, `V` the release version, `N` the family's tag, and `F`
//! the stem of the symbol file name that the host side expects.

use vstd::prelude::*;
use crate::distros::{Distro, DistroVersion, DistroVersionView};
use crate::text::owned;
use vstd::string::*;

verus! {

/// The apt-based script for Ubuntu, with the ddebs debug symbol archive.
pub const UBUNTU_SCRIPT: &'static str = r#"#!/bin/bash
set -e

echo "=== Starting symbol generation for Ubuntu kernel {K} ==="

# Save output directory (the mounted volume)
OUTPUT_DIR="$PWD"

# Configure apt for non-interactive mode
export DEBIAN_FRONTEND=noninteractive

# Update package lists
echo ">>> Updating package lists..."
apt-get update -qq

# Install required packages
echo ">>> Installing required packages..."
apt-get install -y -qq wget xz-utils ubuntu-dbgsym-keyring

# Add Ubuntu proposed repository for newer kernel packages
echo ">>> Adding proposed repository..."
cat > /etc/apt/sources.list.d/proposed.sources << 'EOF'
Types: deb
URIs: http://archive.ubuntu.com/ubuntu/
Suites: {C}-proposed
Components: main restricted universe multiverse
Signed-by: /usr/share/keyrings/ubuntu-archive-keyring.gpg
EOF

# Add ddebs repository for debug symbols (using official DEB822 format)
echo ">>> Adding ddebs repository..."
cat > /etc/apt/sources.list.d/ddebs.sources << 'EOF'
Types: deb
URIs: http://ddebs.ubuntu.com/
Suites: {C} {C}-updates {C}-proposed
Components: main restricted universe multiverse
Signed-by: /usr/share/keyrings/ubuntu-dbgsym-keyring.gpg
EOF

# Update with new repos
apt-get update -qq

# Install kernel debug symbols package
echo ">>> Installing kernel debug symbols for {K}..."
if ! apt-get install -y -qq linux-image-{K}-dbgsym 2>/dev/null; then
    echo "ERROR: Could not find/install debug symbols for kernel {K}"
    exit 1
fi

# Install linux-modules package to get System.map
echo ">>> Installing linux-modules for System.map..."
apt-get install -y -qq linux-modules-{K} 2>/dev/null || true

# Find vmlinux file from installed location
echo ">>> Looking for vmlinux..."
VMLINUX="/usr/lib/debug/boot/vmlinux-{K}"
if [ ! -f "$VMLINUX" ]; then
    # Try alternative location
    VMLINUX=$(find /usr/lib/debug -name "vmlinux-{K}" -type f 2>/dev/null | head -1)
fi

if [ -z "$VMLINUX" ] || [ ! -f "$VMLINUX" ]; then
    echo "ERROR: vmlinux not found in debug package"
    echo ">>> Searching for any vmlinux files..."
    find /usr/lib/debug -name "vmlinux*" -type f 2>/dev/null || true
    exit 1
fi
echo ">>> Found vmlinux: $VMLINUX"

# Download and setup dwarf2json
echo ">>> Setting up dwarf2json..."
wget -q https://github.com/volatilityfoundation/dwarf2json/releases/download/v0.8.0/dwarf2json-linux-amd64 -O /usr/local/bin/dwarf2json
chmod +x /usr/local/bin/dwarf2json

# Check for System.map (installed with linux-modules package)
SYSTEM_MAP=""
if [ -f "/boot/System.map-{K}" ]; then
    SYSTEM_MAP="/boot/System.map-{K}"
    echo ">>> Found System.map: $SYSTEM_MAP"
else
    echo ">>> No System.map found, continuing without it..."
fi

# Generate symbol file (output to the mounted volume)
echo ">>> Generating Volatility3 symbol file..."
SYMBOL_FILE="$OUTPUT_DIR/{F}.json"

if [ -n "$SYSTEM_MAP" ]; then
    /usr/local/bin/dwarf2json linux --elf "$VMLINUX" --system-map "$SYSTEM_MAP" > "$SYMBOL_FILE"
else
    /usr/local/bin/dwarf2json linux --elf "$VMLINUX" > "$SYMBOL_FILE"
fi

# Compress the symbol file
echo ">>> Compressing symbol file..."
xz -9 "$SYMBOL_FILE"

echo "=== Symbol generation completed successfully ==="
ls -la "$OUTPUT_DIR"
"#;

/// The apt-based script for Debian, with the debian-debug archive.
pub const DEBIAN_SCRIPT: &'static str = r#"#!/bin/bash
set -e

echo "=== Starting symbol generation for Debian kernel {K} ==="

# Save output directory (the mounted volume)
OUTPUT_DIR="$PWD"

# Configure apt for non-interactive mode
export DEBIAN_FRONTEND=noninteractive

# Update package lists
echo ">>> Updating package lists..."
apt-get update -qq

# Install required packages
echo ">>> Installing required packages..."
apt-get install -y -qq wget xz-utils ca-certificates

# Add Debian debug repository
echo ">>> Adding debug repository..."
echo "deb http://deb.debian.org/debian-debug {C}-debug main" > /etc/apt/sources.list.d/debug.list

# Update with new repo
apt-get update -qq

# Install kernel debug symbols package
echo ">>> Installing kernel debug symbols for {K}..."
# Debian uses linux-image-<version>-dbg package naming
if ! apt-get install -y -qq linux-image-{K}-dbg 2>/dev/null; then
    # Try alternative package name
    echo ">>> Trying alternative package name..."
    if ! apt-get install -y -qq linux-image-{K}-unsigned-dbg 2>/dev/null; then
        echo "ERROR: Could not find/install debug symbols for kernel {K}"
        echo ">>> Available debug packages:"
        apt-cache search linux-image | grep dbg || true
        exit 1
    fi
fi

# Install linux-image package to get System.map
echo ">>> Installing linux-image for System.map..."
apt-get install -y -qq linux-image-{K} 2>/dev/null || true

# Find vmlinux file from installed location
echo ">>> Looking for vmlinux..."
VMLINUX="/usr/lib/debug/boot/vmlinux-{K}"
if [ ! -f "$VMLINUX" ]; then
    # Try alternative locations
    VMLINUX=$(find /usr/lib/debug -name "vmlinux-{K}" -type f 2>/dev/null | head -1)
fi

if [ -z "$VMLINUX" ] || [ ! -f "$VMLINUX" ]; then
    echo "ERROR: vmlinux not found in debug package"
    echo ">>> Searching for any vmlinux files..."
    find /usr/lib/debug -name "vmlinux*" -type f 2>/dev/null || true
    exit 1
fi
echo ">>> Found vmlinux: $VMLINUX"

# Download and setup dwarf2json
echo ">>> Setting up dwarf2json..."
wget -q https://github.com/volatilityfoundation/dwarf2json/releases/download/v0.8.0/dwarf2json-linux-amd64 -O /usr/local/bin/dwarf2json
chmod +x /usr/local/bin/dwarf2json

# Check for System.map (installed with linux-image package)
SYSTEM_MAP=""
if [ -f "/boot/System.map-{K}" ]; then
    SYSTEM_MAP="/boot/System.map-{K}"
    echo ">>> Found System.map: $SYSTEM_MAP"
else
    echo ">>> No System.map found, continuing without it..."
fi

# Generate symbol file (output to the mounted volume)
echo ">>> Generating Volatility3 symbol file..."
SYMBOL_FILE="$OUTPUT_DIR/{F}.json"

if [ -n "$SYSTEM_MAP" ]; then
    /usr/local/bin/dwarf2json linux --elf "$VMLINUX" --system-map "$SYSTEM_MAP" > "$SYMBOL_FILE"
else
    /usr/local/bin/dwarf2json linux --elf "$VMLINUX" > "$SYMBOL_FILE"
fi

# Compress the symbol file
echo ">>> Compressing symbol file..."
xz -9 "$SYMBOL_FILE"

echo "=== Symbol generation completed successfully ==="
ls -la "$OUTPUT_DIR"
"#;

/// The dnf-based script for Fedora, with the debuginfo repositories enabled.
pub const FEDORA_SCRIPT: &'static str = r#"#!/bin/bash
set -e

echo "=== Starting symbol generation for Fedora {V} kernel {K} ==="

# Save output directory (the mounted volume)
OUTPUT_DIR="$PWD"

# Update package lists
echo ">>> Updating package lists..."
dnf -y -q update

# Install required packages
echo ">>> Installing required packages..."
dnf -y -q install wget xz findutils

# Enable debuginfo repository
echo ">>> Adding debug repository..."
dnf -y -q install dnf-plugins-core
dnf config-manager --set-enabled fedora-debuginfo updates-debuginfo || true

# Install kernel debug symbols
echo ">>> Installing kernel debug symbols for {K}..."
if ! dnf -y -q install kernel-debuginfo-{K} 2>/dev/null; then
    # Try with common suffix variants
    if ! dnf -y -q install kernel-debuginfo-common-x86_64-{K} kernel-debuginfo-{K} 2>/dev/null; then
        echo "ERROR: Could not find/install debug symbols for kernel {K}"
        echo ">>> Available debug packages:"
        dnf search kernel-debuginfo 2>/dev/null | head -20 || true
        exit 1
    fi
fi

# Find vmlinux file (exclude .py/.pyc files and search in kernel module path)
echo ">>> Looking for vmlinux..."
VMLINUX=$(find /usr/lib/debug -path "*{K}*/vmlinux" -type f 2>/dev/null | head -1)
if [ -z "$VMLINUX" ]; then
    VMLINUX=$(find /usr/lib/debug -name "vmlinux" -type f 2>/dev/null | grep "{K}" | head -1)
fi

if [ -z "$VMLINUX" ] || [ ! -f "$VMLINUX" ]; then
    echo "ERROR: vmlinux not found in debug package"
    echo ">>> Searching for vmlinux files..."
    find /usr/lib/debug -name "vmlinux" -type f 2>/dev/null || true
    exit 1
fi
echo ">>> Found vmlinux: $VMLINUX"

# Download and setup dwarf2json
echo ">>> Setting up dwarf2json..."
wget -q https://github.com/volatilityfoundation/dwarf2json/releases/download/v0.8.0/dwarf2json-linux-amd64 -O /usr/local/bin/dwarf2json
chmod +x /usr/local/bin/dwarf2json

# Check for System.map
SYSTEM_MAP=""
if [ -f "/boot/System.map-{K}" ]; then
    SYSTEM_MAP="/boot/System.map-{K}"
    echo ">>> Found System.map: $SYSTEM_MAP"
else
    echo ">>> No System.map found, continuing without it..."
fi

# Generate symbol file
echo ">>> Generating Volatility3 symbol file..."
SYMBOL_FILE="$OUTPUT_DIR/{F}.json"

if [ -n "$SYSTEM_MAP" ]; then
    /usr/local/bin/dwarf2json linux --elf "$VMLINUX" --system-map "$SYSTEM_MAP" > "$SYMBOL_FILE"
else
    /usr/local/bin/dwarf2json linux --elf "$VMLINUX" > "$SYMBOL_FILE"
fi

# Compress the symbol file
echo ">>> Compressing symbol file..."
xz -9 "$SYMBOL_FILE"

echo "=== Symbol generation completed successfully ==="
ls -la "$OUTPUT_DIR"
"#;

/// The yum/dnf-based script shared by the RHEL-compatible families.
pub const RHEL_SCRIPT: &'static str = r#"#!/bin/bash
set -e

echo "=== Starting symbol generation for {N} {V} kernel {K} ==="

# Save output directory (the mounted volume)
OUTPUT_DIR="$PWD"

# Update package lists
echo ">>> Updating package lists..."
yum -y -q update 2>/dev/null || dnf -y -q update

# Install required packages
echo ">>> Installing required packages..."
yum -y -q install wget xz findutils 2>/dev/null || dnf -y -q install wget xz findutils

# Enable debuginfo repository
echo ">>> Adding debug repository..."
yum -y -q install yum-utils 2>/dev/null || dnf -y -q install dnf-plugins-core
debuginfo-install -y kernel-{K} 2>/dev/null || true

# Alternative: try to install kernel-debuginfo directly
echo ">>> Installing kernel debug symbols for {K}..."
if ! yum -y -q install kernel-debuginfo-{K} 2>/dev/null; then
    if ! dnf -y -q install kernel-debuginfo-{K} 2>/dev/null; then
        # Try common package
        yum -y -q install kernel-debuginfo-common-x86_64-{K} kernel-debuginfo-{K} 2>/dev/null || \
        dnf -y -q install kernel-debuginfo-common-x86_64-{K} kernel-debuginfo-{K} 2>/dev/null || true
    fi
fi

# Find vmlinux file
echo ">>> Looking for vmlinux..."
VMLINUX=$(find /usr/lib/debug -name "vmlinux-{K}*" -type f 2>/dev/null | head -1)
if [ -z "$VMLINUX" ]; then
    VMLINUX=$(find /usr/lib/debug -name "vmlinux*" -path "*{K}*" -type f 2>/dev/null | head -1)
fi

if [ -z "$VMLINUX" ] || [ ! -f "$VMLINUX" ]; then
    echo "ERROR: vmlinux not found in debug package"
    echo ">>> Searching for any vmlinux files..."
    find /usr/lib/debug -name "vmlinux*" -type f 2>/dev/null || true
    exit 1
fi
echo ">>> Found vmlinux: $VMLINUX"

# Download and setup dwarf2json
echo ">>> Setting up dwarf2json..."
wget -q https://github.com/volatilityfoundation/dwarf2json/releases/download/v0.8.0/dwarf2json-linux-amd64 -O /usr/local/bin/dwarf2json
chmod +x /usr/local/bin/dwarf2json

# Check for System.map
SYSTEM_MAP=""
if [ -f "/boot/System.map-{K}" ]; then
    SYSTEM_MAP="/boot/System.map-{K}"
    echo ">>> Found System.map: $SYSTEM_MAP"
else
    echo ">>> No System.map found, continuing without it..."
fi

# Generate symbol file
echo ">>> Generating Volatility3 symbol file..."
SYMBOL_FILE="$OUTPUT_DIR/{F}.json"

if [ -n "$SYSTEM_MAP" ]; then
    /usr/local/bin/dwarf2json linux --elf "$VMLINUX" --system-map "$SYSTEM_MAP" > "$SYMBOL_FILE"
else
    /usr/local/bin/dwarf2json linux --elf "$VMLINUX" > "$SYMBOL_FILE"
fi

# Compress the symbol file
echo ">>> Compressing symbol file..."
xz -9 "$SYMBOL_FILE"

echo "=== Symbol generation completed successfully ==="
ls -la "$OUTPUT_DIR"
"#;

/// The dnf-based script for Oracle Linux, with its debuginfo repository written out.
pub const ORACLE_SCRIPT: &'static str = r#"#!/bin/bash
set -e

echo "=== Starting symbol generation for Oracle Linux {V} kernel {K} ==="

# Save output directory (the mounted volume)
OUTPUT_DIR="$PWD"

# Update package lists
echo ">>> Updating package lists..."
dnf -y -q makecache

# Install required packages
echo ">>> Installing required packages..."
dnf -y -q install wget xz findutils dnf-plugins-core

# Add Oracle Linux debuginfo repository from oss.oracle.com (correct location)
echo ">>> Adding Oracle Linux debuginfo repository..."
cat > /etc/yum.repos.d/ol_debuginfo.repo << 'REPOEOF'
[ol_debuginfo]
name=Oracle Linux {V} Debuginfo
baseurl=https://oss.oracle.com/ol{V}/debuginfo/
gpgkey=file:///etc/pki/rpm-gpg/RPM-GPG-KEY-oracle
gpgcheck=1
enabled=1
REPOEOF

# Refresh metadata with new repos
echo ">>> Refreshing repository metadata..."
dnf -y makecache 2>&1 | tail -5

# List available debuginfo repos
echo ">>> Available debuginfo repos:"
dnf repolist | grep -i debug || true

# Try to install kernel debug symbols
echo ">>> Installing kernel debug symbols for {K}..."

# Detect kernel type and install appropriate debuginfo
if echo "{K}" | grep -q "uek"; then
    echo ">>> Detected UEK kernel..."
    dnf -y install kernel-uek-debuginfo-{K} 2>&1 | tail -10 || true
else
    echo ">>> Detected RHCK kernel..."
    dnf -y install kernel-debuginfo-{K} kernel-debuginfo-common-x86_64-{K} 2>&1 | tail -10 || true
fi

# Find vmlinux file
echo ">>> Looking for vmlinux..."
VMLINUX=$(find /usr/lib/debug -name "vmlinux-{K}*" -type f 2>/dev/null | head -1)
if [ -z "$VMLINUX" ]; then
    VMLINUX=$(find /usr/lib/debug -name "vmlinux*" -path "*{K}*" -type f 2>/dev/null | head -1)
fi

if [ -z "$VMLINUX" ] || [ ! -f "$VMLINUX" ]; then
    echo "ERROR: vmlinux not found in debug package"
    echo ">>> Searching for any vmlinux files..."
    find /usr/lib/debug -name "vmlinux*" -type f 2>/dev/null || true
    echo ">>> Listing installed debuginfo packages..."
    rpm -qa | grep -i debuginfo || true
    exit 1
fi
echo ">>> Found vmlinux: $VMLINUX"

# Download and setup dwarf2json
echo ">>> Setting up dwarf2json..."
wget -q https://github.com/volatilityfoundation/dwarf2json/releases/download/v0.8.0/dwarf2json-linux-amd64 -O /usr/local/bin/dwarf2json
chmod +x /usr/local/bin/dwarf2json

# Check for System.map
SYSTEM_MAP=""
if [ -f "/boot/System.map-{K}" ]; then
    SYSTEM_MAP="/boot/System.map-{K}"
    echo ">>> Found System.map: $SYSTEM_MAP"
else
    echo ">>> No System.map found, continuing without it..."
fi

# Generate symbol file
echo ">>> Generating Volatility3 symbol file..."
SYMBOL_FILE="$OUTPUT_DIR/{F}.json"

if [ -n "$SYSTEM_MAP" ]; then
    /usr/local/bin/dwarf2json linux --elf "$VMLINUX" --system-map "$SYSTEM_MAP" > "$SYMBOL_FILE"
else
    /usr/local/bin/dwarf2json linux --elf "$VMLINUX" > "$SYMBOL_FILE"
fi

# Compress the symbol file
echo ">>> Compressing symbol file..."
xz -9 "$SYMBOL_FILE"

echo "=== Symbol generation completed successfully ==="
ls -la "$OUTPUT_DIR"
"#;

/// The values that fill a template's slots.
pub struct Slots {
    pub kernel: Seq<char>,
    pub codename: Seq<char>,
    pub version: Seq<char>,
    pub name: Seq<char>,
    pub stem: Seq<char>,
}

/// The value of the slot named `c`, if `c` names one.
pub open spec fn slot_value(c: char, s: Slots) -> Option<Seq<char>> {
    if c == 'K' {
        Some(s.kernel)
    } else if c == 'C' {
        Some(s.codename)
    } else if c == 'V' {
        Some(s.version)
    } else if c == 'N' {
        Some(s.name)
    } else if c == 'F' {
        Some(s.stem)
    } else {
        None
    }
}

/// `t` begins with a slot `{X}` that `s` fills.
pub open spec fn starts_with_slot(t: Seq<char>, s: Slots) -> bool {
    t.len() >= 3 && t[0] == '{' && t[2] == '}' && slot_value(t[1], s) is Some
}

/// The template `t` with each slot replaced by its value, read left to right;
/// the inserted values are not read again.
pub open spec fn render(t: Seq<char>, s: Slots) -> Seq<char>
    decreases t.len(),
{
    if t.len() == 0 {
        Seq::empty()
    } else if starts_with_slot(t, s) {
        slot_value(t[1], s)->0 + render(t.skip(3), s)
    } else {
        seq![t[0]] + render(t.skip(1), s)
    }
}

/// The script template of a distribution's family.
pub open spec fn template_of(d: Distro) -> Seq<char> {
    match d {
        Distro::Ubuntu => UBUNTU_SCRIPT@,
        Distro::Debian => DEBIAN_SCRIPT@,
        Distro::Fedora => FEDORA_SCRIPT@,
        Distro::Oracle => ORACLE_SCRIPT@,
        _ => RHEL_SCRIPT@,
    }
}

/// The release name that qualifies symbol files: the codename for the
/// apt-based families where there is one, the version otherwise.
pub open spec fn release_name(dv: DistroVersionView) -> Seq<char> {
    match dv.distro {
        Distro::Ubuntu | Distro::Debian => match dv.codename {
            Some(c) => c,
            None => dv.version,
        },
        _ => dv.version,
    }
}

/// The symbol file name without its extensions: `Ubuntu_jammy_<kernel>`.
pub open spec fn symbol_stem(kernel: Seq<char>, dv: DistroVersionView) -> Seq<char> {
    dv.distro.spec_tag() + "_"@ + release_name(dv) + "_"@ + kernel
}

/// The name of the compressed symbol file that a generation produces.
pub open spec fn symbol_filename(kernel: Seq<char>, dv: DistroVersionView) -> Seq<char> {
    symbol_stem(kernel, dv) + ".json.xz"@
}

/// The codename that selects the apt suites, with a default for an entry
/// that has none.
pub open spec fn suite_codename(dv: DistroVersionView) -> Seq<char> {
    match dv.codename {
        Some(c) => c,
        None => match dv.distro {
            Distro::Ubuntu => "jammy"@,
            Distro::Debian => "bookworm"@,
            _ => dv.version,
        },
    }
}

/// The slot values of the script for `kernel` on `dv`.
pub open spec fn script_slots(kernel: Seq<char>, dv: DistroVersionView) -> Slots {
    Slots {
        kernel,
        codename: suite_codename(dv),
        version: dv.version,
        name: dv.distro.spec_tag(),
        stem: symbol_stem(kernel, dv),
    }
}

/// The provisioning script for `kernel` on the release `dv`.
pub open spec fn script_text(kernel: Seq<char>, dv: DistroVersionView) -> Seq<char> {
    render(template_of(dv.distro), script_slots(kernel, dv))
}

fn slot_of<'a>(
    c: char,
    kernel: &'a str,
    codename: &'a str,
    version: &'a str,
    name: &'a str,
    stem: &'a str,
) -> (r: Option<&'a str>)
    ensures
        match r {
            Some(v) => slot_value(c, Slots { kernel: kernel@, codename: codename@, version: version@, name: name@, stem: stem@ }) == Some(v@),
            None => slot_value(c, Slots { kernel: kernel@, codename: codename@, version: version@, name: name@, stem: stem@ }) is None,
        },
{
    if c == 'K' {
        Some(kernel)
    } else if c == 'C' {
        Some(codename)
    } else if c == 'V' {
        Some(version)
    } else if c == 'N' {
        Some(name)
    } else if c == 'F' {
        Some(stem)
    } else {
        None
    }
}

/// Fills the slots of `template`.
pub fn render_template(
    template: &str,
    kernel: &str,
    codename: &str,
    version: &str,
    name: &str,
    stem: &str,
) -> (r: String)
    ensures
        r@ == render(
            template@,
            Slots {
                kernel: kernel@,
                codename: codename@,
                version: version@,
                name: name@,
                stem: stem@,
            },
        ),
{
    let ghost s = Slots {
        kernel: kernel@,
        codename: codename@,
        version: version@,
        name: name@,
        stem: stem@,
    };
    let ghost t = template@;
    let n = template.unicode_len();
    let mut out = String::new();
    let mut start: usize = 0;
    let mut i: usize = 0;
    assert(t.skip(0) =~= t);
    while i < n
        invariant
            n == t.len(),
            t == template@,
            s == (Slots { kernel: kernel@, codename: codename@, version: version@, name: name@, stem: stem@ }),
            start <= i <= n,
            out@ + t.subrange(start as int, i as int) + render(t.skip(i as int), s) == render(t, s),
        decreases n - i,
    {
        let ghost rest = t.skip(i as int);
        let c = template.get_char(i);
        let mut filled = false;
        if c == '{' && n - i >= 3 && template.get_char(i + 2) == '}' {
            let slot = slot_of(template.get_char(i + 1), kernel, codename, version, name, stem);
            if let Some(v) = slot {
                assert(starts_with_slot(rest, s));
                assert(rest.skip(3) =~= t.skip(i + 3));
                let ghost before = out@ + t.subrange(start as int, i as int);
                out.append(template.substring_char(start, i));
                out.append(v);
                assert(out@ + t.subrange(i + 3, i + 3) + render(t.skip(i + 3), s) =~= before + (v@
                    + render(t.skip(i + 3), s)));
                i = i + 3;
                start = i;
                filled = true;
            }
        }
        if !filled {
            assert(!starts_with_slot(rest, s));
            assert(rest.skip(1) =~= t.skip(i + 1));
            assert(t.subrange(start as int, i + 1) =~= t.subrange(start as int, i as int) + seq![
                t[i as int],
            ]);
            assert(out@ + t.subrange(start as int, i + 1) + render(t.skip(i + 1), s) =~= out@
                + t.subrange(start as int, i as int) + (seq![rest[0]] + render(rest.skip(1), s)));
            i = i + 1;
        }
    }
    out.append(template.substring_char(start, n));
    assert(t.skip(n as int) =~= Seq::<char>::empty());
    assert(out@ =~= render(t, s));
    out
}

fn release_name_of(dv: &DistroVersion) -> (r: &str)
    ensures
        r@ == release_name(dv@),
{
    match dv.distro {
        Distro::Ubuntu | Distro::Debian => match &dv.codename {
            Some(c) => c.as_str(),
            None => dv.version.as_str(),
        },
        _ => dv.version.as_str(),
    }
}

fn suite_codename_of(dv: &DistroVersion) -> (r: &str)
    ensures
        r@ == suite_codename(dv@),
{
    match &dv.codename {
        Some(c) => c.as_str(),
        None => match dv.distro {
            Distro::Ubuntu => "jammy",
            Distro::Debian => "bookworm",
            _ => dv.version.as_str(),
        },
    }
}

/// The symbol file name without its extensions.
pub fn get_symbol_stem(kernel: &str, dv: &DistroVersion) -> (r: String)
    ensures
        r@ == symbol_stem(kernel@, dv@),
{
    let mut r = owned(dv.distro.tag());
    r.append("_");
    r.append(release_name_of(dv));
    r.append("_");
    r.append(kernel);
    r
}

/// The name of the compressed symbol file that generating `kernel` on `dv`
/// produces: `<Tag>_<release>_<kernel>.json.xz`.
pub fn get_symbol_filename(kernel: &str, dv: &DistroVersion) -> (r: String)
    ensures
        r@ == symbol_filename(kernel@, dv@),
{
    let mut r = get_symbol_stem(kernel, dv);
    r.append(".json.xz");
    r
}

/// The script template of a distribution's family.
pub fn template_for(d: Distro) -> (r: &'static str)
    ensures
        r@ == template_of(d),
{
    match d {
        Distro::Ubuntu => UBUNTU_SCRIPT,
        Distro::Debian => DEBIAN_SCRIPT,
        Distro::Fedora => FEDORA_SCRIPT,
        Distro::Oracle => ORACLE_SCRIPT,
        _ => RHEL_SCRIPT,
    }
}

/// The provisioning script for `kernel` on the release `dv`. The script
/// leaves `<stem>.json.xz` in its working directory, the name that
/// `get_symbol_filename` gives.
pub fn generate_script(kernel: &str, dv: &DistroVersion) -> (r: String)
    ensures
        r@ == script_text(kernel@, dv@),
{
    let stem = get_symbol_stem(kernel, dv);
    render_template(
        template_for(dv.distro),
        kernel,
        suite_codename_of(dv),
        dv.version.as_str(),
        dv.distro.tag(),
        stem.as_str(),
    )
}

/// Script synthesis depends on its inputs alone: the same kernel and release
/// give the same script text, character for character.
pub proof fn lemma_script_deterministic(
    kernel1: Seq<char>,
    dv1: DistroVersionView,
    kernel2: Seq<char>,
    dv2: DistroVersionView,
)
    requires
        kernel1 == kernel2,
        dv1 == dv2,
    ensures
        script_text(kernel1, dv1) == script_text(kernel2, dv2),
{
}

} // verus!
