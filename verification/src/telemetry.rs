//! The telemetry snapshot and the tokens that stand for its values.

use vstd::prelude::*;
use vstd::string::*;
use crate::text::same_text;

verus! {

/// What the host measured in one cycle, already formatted for display.
#[derive(Clone, Debug)]
pub struct Telemetry {
    /// Name of the physical network interface.
    pub interface_phys: String,
    /// The VLAN-qualified end of the interface name.
    pub interface_numvlan: String,
    /// The primary IP address, in dotted form.
    pub ip_address: String,
    /// The four octets of the primary IP address.
    pub ip_octets: [u8; 4],
    /// CPU load in percent, with one decimal.
    pub cpu_usage: String,
    /// CPU temperature, with one decimal.
    pub cpu_temp: String,
    /// Memory in use in percent, with one decimal.
    pub ram_usage: String,
    /// Disk space in use in percent.
    pub disk_usage: String,
}

/// A snapshot as contracts see it.
pub struct TelemetryModel {
    pub interface_phys: Seq<char>,
    pub interface_numvlan: Seq<char>,
    pub ip_address: Seq<char>,
    pub ip_octets: Seq<u8>,
    pub cpu_usage: Seq<char>,
    pub cpu_temp: Seq<char>,
    pub ram_usage: Seq<char>,
    pub disk_usage: Seq<char>,
}

impl View for Telemetry {
    type V = TelemetryModel;

    open spec fn view(&self) -> TelemetryModel {
        TelemetryModel {
            interface_phys: self.interface_phys@,
            interface_numvlan: self.interface_numvlan@,
            ip_address: self.ip_address@,
            ip_octets: self.ip_octets@,
            cpu_usage: self.cpu_usage@,
            cpu_temp: self.cpu_temp@,
            ram_usage: self.ram_usage@,
            disk_usage: self.disk_usage@,
        }
    }
}

/// The character of a decimal digit.
pub open spec fn digit_char(d: int) -> char {
    if d == 0 {
        '0'
    } else if d == 1 {
        '1'
    } else if d == 2 {
        '2'
    } else if d == 3 {
        '3'
    } else if d == 4 {
        '4'
    } else if d == 5 {
        '5'
    } else if d == 6 {
        '6'
    } else if d == 7 {
        '7'
    } else if d == 8 {
        '8'
    } else {
        '9'
    }
}

/// A natural number in decimal, without leading zeros.
pub open spec fn decimal(n: nat) -> Seq<char>
    decreases n,
{
    if n < 10 {
        seq![digit_char(n as int)]
    } else {
        decimal(n / 10).push(digit_char((n % 10) as int))
    }
}

/// What a token of a configuration stands for under a snapshot. A token is
/// matched exactly; any other text stands for itself.
pub open spec fn resolved(token: Seq<char>, t: TelemetryModel) -> Seq<char> {
    if token == "interface_phys"@ {
        t.interface_phys
    } else if token == "interface_numvlan"@ {
        t.interface_numvlan
    } else if token == "ip_info.0"@ {
        t.ip_address
    } else if token == "ip_octets(0)"@ {
        decimal(t.ip_octets[0] as nat)
    } else if token == "ip_octets(1)"@ {
        decimal(t.ip_octets[1] as nat)
    } else if token == "ip_octets(2)"@ {
        decimal(t.ip_octets[2] as nat)
    } else if token == "ip_octets(3)"@ {
        decimal(t.ip_octets[3] as nat)
    } else if token == "cpu_usage"@ {
        t.cpu_usage
    } else if token == "cpu_temp"@ {
        t.cpu_temp
    } else if token == "ram_usage"@ {
        t.ram_usage
    } else if token == "disk_usage"@ {
        t.disk_usage
    } else {
        token
    }
}

fn digit_text(d: u8) -> (s: &'static str)
    requires
        d < 10,
    ensures
        s@ == seq![digit_char(d as int)],
{
    proof {
        reveal_strlit("0");
        reveal_strlit("1");
        reveal_strlit("2");
        reveal_strlit("3");
        reveal_strlit("4");
        reveal_strlit("5");
        reveal_strlit("6");
        reveal_strlit("7");
        reveal_strlit("8");
        reveal_strlit("9");
    }
    let s = if d == 0 {
        "0"
    } else if d == 1 {
        "1"
    } else if d == 2 {
        "2"
    } else if d == 3 {
        "3"
    } else if d == 4 {
        "4"
    } else if d == 5 {
        "5"
    } else if d == 6 {
        "6"
    } else if d == 7 {
        "7"
    } else if d == 8 {
        "8"
    } else {
        "9"
    };
    assert(s@ =~= seq![digit_char(d as int)]);
    s
}

/// An octet in decimal, without leading zeros.
pub fn octet_text(n: u8) -> (s: String)
    ensures
        s@ == decimal(n as nat),
{
    let mut s = String::new();
    if n >= 100 {
        s.append(digit_text(n / 100));
    }
    if n >= 10 {
        s.append(digit_text((n / 10) % 10));
    }
    s.append(digit_text(n % 10));
    proof {
        reveal_with_fuel(decimal, 3);
        assert(s@ =~= decimal(n as nat));
    }
    s
}

/// The text that `token` stands for under `telemetry`: the value of the
/// snapshot that the token names, or the token itself where it names none.
pub fn resolve(token: &str, telemetry: &Telemetry) -> (text: String)
    ensures
        text@ == resolved(token@, telemetry@),
{
    if same_text(token, "interface_phys") {
        telemetry.interface_phys.clone()
    } else if same_text(token, "interface_numvlan") {
        telemetry.interface_numvlan.clone()
    } else if same_text(token, "ip_info.0") {
        telemetry.ip_address.clone()
    } else if same_text(token, "ip_octets(0)") {
        octet_text(telemetry.ip_octets[0])
    } else if same_text(token, "ip_octets(1)") {
        octet_text(telemetry.ip_octets[1])
    } else if same_text(token, "ip_octets(2)") {
        octet_text(telemetry.ip_octets[2])
    } else if same_text(token, "ip_octets(3)") {
        octet_text(telemetry.ip_octets[3])
    } else if same_text(token, "cpu_usage") {
        telemetry.cpu_usage.clone()
    } else if same_text(token, "cpu_temp") {
        telemetry.cpu_temp.clone()
    } else if same_text(token, "ram_usage") {
        telemetry.ram_usage.clone()
    } else if same_text(token, "disk_usage") {
        telemetry.disk_usage.clone()
    } else {
        String::from_str(token)
    }
}

} // verus!
