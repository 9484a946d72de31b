//! The host-information query surface: `{key, value}` pairs for OS,
//! processor, host name and toolchain version.
//!
//! What only the host can answer (its OS name, its CPU brand) comes through
//! small trusted wrappers; everything done with those answers — defaulting,
//! joining, rendering a count in decimal — is verified here.

use vstd::prelude::*;

verus! {

/// The decimal digit character for a value below ten.
pub open spec fn digit_char(d: nat) -> char {
    if d == 0 {
        '0'
    } else if d == 1 {
        '1'
    } else if d == 2 {
        '2'
    } else if d == 3 {
        '3'
    } else if d == 4 {
        '4'
    } else if d == 5 {
        '5'
    } else if d == 6 {
        '6'
    } else if d == 7 {
        '7'
    } else if d == 8 {
        '8'
    } else {
        '9'
    }
}

/// The usual decimal rendering of a number: most significant digit first,
/// no leading zeroes (`0` itself is the single digit `0`).
pub open spec fn dec_rep(n: nat) -> Seq<char>
    decreases n,
{
    if n < 10 {
        seq![digit_char(n)]
    } else {
        dec_rep(n / 10).push(digit_char(n % 10))
    }
}

/// Append one decimal digit character.
fn push_digit(s: &mut String, d: u64)
    requires
        d < 10,
    ensures
        final(s)@ == old(s)@ + seq![digit_char(d as nat)],
{
    proof {
        reveal_strlit("0");
        reveal_strlit("1");
        reveal_strlit("2");
        reveal_strlit("3");
        reveal_strlit("4");
        reveal_strlit("5");
        reveal_strlit("6");
        reveal_strlit("7");
        reveal_strlit("8");
        reveal_strlit("9");
    }
    match d {
        0 => s.append("0"),
        1 => s.append("1"),
        2 => s.append("2"),
        3 => s.append("3"),
        4 => s.append("4"),
        5 => s.append("5"),
        6 => s.append("6"),
        7 => s.append("7"),
        8 => s.append("8"),
        _ => s.append("9"),
    }
    proof {
        assert(s@ =~= old(s)@ + seq![digit_char(d as nat)]);
    }
}

/// Append the decimal rendering of a number.
pub fn push_decimal(s: &mut String, n: u64)
    ensures
        final(s)@ == old(s)@ + dec_rep(n as nat),
    decreases n,
{
    if n >= 10 {
        push_decimal(s, n / 10);
        push_digit(s, n % 10);
        proof {
            assert(s@ =~= old(s)@ + dec_rep(n as nat));
        }
    } else {
        push_digit(s, n);
    }
}

/// The decimal rendering of a number as a fresh string.
pub fn u64_to_decimal(n: u64) -> (r: String)
    ensures
        r@ == dec_rep(n as nat),
{
    let mut s = String::new();
    push_decimal(&mut s, n);
    proof {
        assert(s@ =~= dec_rep(n as nat));
    }
    s
}

/// Join an OS name and an OS version with a single space.
pub fn format_os_value(name: &str, version: &str) -> (r: String)
    ensures
        r@ == name@ + " "@ + version@,
{
    let mut s = name.to_owned();
    s.append(" ");
    s.append(version);
    s
}

/// Render a CPU brand and a logical-CPU count as `<brand> (<count> cores)`.
pub fn format_cpu_value(brand: &str, count: u64) -> (r: String)
    ensures
        r@ == brand@ + " ("@ + dec_rep(count as nat) + " cores)"@,
{
    let mut s = brand.to_owned();
    s.append(" (");
    push_decimal(&mut s, count);
    s.append(" cores)");
    proof {
        assert(s@ =~= brand@ + " ("@ + dec_rep(count as nat) + " cores)"@);
    }
    s
}

/// A fallback for an answer the host did not give.
pub fn value_or_default(answer: Option<String>, fallback: &str) -> (r: String)
    ensures
        match answer {
            Some(v) => r@ == v@,
            None => r@ == fallback@,
        },
{
    match answer {
        Some(v) => v,
        None => fallback.to_owned(),
    }
}

/// One host-information provider: a fixed key and a queried value.
pub trait InfoProvider {
    fn key(&self) -> &'static str;

    fn value(&self) -> String;
}

/// Relies on sysinfo::System::name: the host's OS name, if it reports one.
#[verifier::external_body]
fn os_name_of_host() -> (r: Option<String>) {
    sysinfo::System::name()
}

/// Relies on sysinfo::System::os_version: the host's OS version, if it
/// reports one.
#[verifier::external_body]
fn os_version_of_host() -> (r: Option<String>) {
    sysinfo::System::os_version()
}

/// Relies on sysinfo::System::host_name: the host's name, if it reports
/// one.
#[verifier::external_body]
fn host_name_of_host() -> (r: Option<String>) {
    sysinfo::System::host_name()
}

/// Relies on sysinfo::System::new, System::refresh_cpu_all, System::cpus
/// and Cpu::brand: the brand of the first logical CPU and the number of
/// logical CPUs, if the host reports any.
#[verifier::external_body]
fn cpu_brand_and_count() -> (r: Option<(String, u64)>) {
    let mut system = sysinfo::System::new();
    system.refresh_cpu_all();
    match system.cpus().first() {
        Some(cpu) => Some((cpu.brand().to_string(), system.cpus().len() as u64)),
        None => None,
    }
}

/// Relies on rustc_version_runtime::version: the toolchain version the
/// running program was built with, rendered as text.
#[verifier::external_body]
fn toolchain_version_text() -> (r: String) {
    format!("{}", rustc_version_runtime::version())
}

/// The OS provider: name and version joined by a space, with fallbacks.
pub struct OsInfo;

impl InfoProvider for OsInfo {
    fn key(&self) -> (r: &'static str)
        ensures
            r@ == "OS"@,
    {
        "OS"
    }

    fn value(&self) -> String {
        let name = value_or_default(os_name_of_host(), "Unknown");
        let version = value_or_default(os_version_of_host(), "N/A");
        format_os_value(name.as_str(), version.as_str())
    }
}

/// The toolchain provider.
pub struct RustInfo;

impl InfoProvider for RustInfo {
    fn key(&self) -> (r: &'static str)
        ensures
            r@ == "Rust"@,
    {
        "Rust"
    }

    fn value(&self) -> String {
        toolchain_version_text()
    }
}

/// The host name provider.
pub struct HostnameInfo;

impl InfoProvider for HostnameInfo {
    fn key(&self) -> (r: &'static str)
        ensures
            r@ == "Hostname"@,
    {
        "Hostname"
    }

    fn value(&self) -> String {
        value_or_default(host_name_of_host(), "Unknown")
    }
}

/// The processor provider: brand and logical-CPU count.
pub struct CpuInfo;

impl InfoProvider for CpuInfo {
    fn key(&self) -> (r: &'static str)
        ensures
            r@ == "CPU"@,
    {
        "CPU"
    }

    fn value(&self) -> String {
        match cpu_brand_and_count() {
            Some((brand, count)) => format_cpu_value(brand.as_str(), count),
            None => "Unknown CPU".to_owned(),
        }
    }
}

} // verus!
