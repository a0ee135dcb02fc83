//! The network address of a service: a host and a port.
use crate::json::{json_as_array, json_as_str, json_as_u64, json_member, json_of, Json};
use vstd::prelude::*;
use vstd::string::StringExecFns;

verus! {

/// A host and a port, as read from the `addr` member of a service's section.
#[derive(Debug)]
pub struct Address {
    ip: String,
    port: u16,
}

impl View for Address {
    type V = (Seq<char>, u16);

    closed spec fn view(&self) -> (Seq<char>, u16) {
        (self.ip@, self.port)
    }
}

/// The host used where none is configured.
pub open spec fn default_ip() -> Seq<char> {
    "127.0.0.1"@
}

/// The port used where none is configured.
pub open spec fn default_port() -> u16 {
    8080
}

pub open spec fn default_address() -> (Seq<char>, u16) {
    (default_ip(), default_port())
}

/// The host of an address field: the text of a JSON string.
pub open spec fn ip_of(j: Json) -> Option<Seq<char>> {
    match j {
        Json::Str(s) => Some(s),
        _ => None,
    }
}

/// The port of an address field: a JSON integer in the range of `u16`.
pub open spec fn port_of(j: Json) -> Option<u16> {
    match j {
        Json::Int(i) => if 0 <= i <= u16::MAX {
            Some(i as u16)
        } else {
            None
        },
        _ => None,
    }
}

/// The address that a JSON value describes, taken as a whole or not at all:
/// an object with an `ip` string and a `port` integer in the range of `u16`
/// (other members are ignored), or an array of exactly those two values in
/// that order.
pub open spec fn address_of(j: Json) -> Option<(Seq<char>, u16)> {
    match j {
        Json::Object(m) => if m.contains_key("ip"@) && m.contains_key("port"@) && ip_of(
            m["ip"@],
        ) is Some && port_of(m["port"@]) is Some {
            Some((ip_of(m["ip"@])->0, port_of(m["port"@])->0))
        } else {
            None
        },
        Json::Array(s) => if s.len() == 2 && ip_of(s[0]) is Some && port_of(s[1]) is Some {
            Some((ip_of(s[0])->0, port_of(s[1])->0))
        } else {
            None
        },
        _ => None,
    }
}

/// The character of a decimal digit.
pub open spec fn digit_char(d: nat) -> char {
    seq!['0', '1', '2', '3', '4', '5', '6', '7', '8', '9'][d as int]
}

/// The decimal digits of a number, without leading zeros.
pub open spec fn decimal_of(n: nat) -> Seq<char>
    decreases n,
{
    if n < 10 {
        seq![digit_char(n)]
    } else {
        decimal_of(n / 10) + seq![digit_char(n % 10)]
    }
}

/// The URL of an address: `<ip>:<port>`.
pub open spec fn host_url_of(a: (Seq<char>, u16)) -> Seq<char> {
    a.0 + ":"@ + decimal_of(a.1 as nat)
}

fn digit_str(d: u16) -> (r: &'static str)
    requires
        d < 10,
    ensures
        r@ == seq![digit_char(d as nat)],
{
    proof {
        reveal_strlit("0");
        reveal_strlit("1");
        reveal_strlit("2");
        reveal_strlit("3");
        reveal_strlit("4");
        reveal_strlit("5");
        reveal_strlit("6");
        reveal_strlit("7");
        reveal_strlit("8");
        reveal_strlit("9");
    }
    match d {
        0 => "0",
        1 => "1",
        2 => "2",
        3 => "3",
        4 => "4",
        5 => "5",
        6 => "6",
        7 => "7",
        8 => "8",
        _ => "9",
    }
}

/// Appends the decimal digits of `n` to `s`.
fn push_decimal(s: &mut String, n: u16)
    ensures
        final(s)@ == old(s)@ + decimal_of(n as nat),
    decreases n,
{
    if n < 10 {
        s.append(digit_str(n));
    } else {
        push_decimal(s, n / 10);
        s.append(digit_str(n % 10));
        assert(final(s)@ == old(s)@ + decimal_of(n as nat));
    }
}

impl Default for Address {
    fn default() -> (r: Address)
        ensures
            r@ == default_address(),
    {
        Address { ip: String::from_str("127.0.0.1"), port: 8080 }
    }
}

impl Address {
    /// Reads an address from a JSON value; `None` where the value does not
    /// describe one whole address.
    pub fn from_json(v: &serde_json::Value) -> (r: Option<Address>)
        ensures
            match r {
                Some(a) => address_of(json_of(*v)) == Some(a@),
                None => address_of(json_of(*v)) is None,
            },
    {
        match json_as_array(v) {
            Some(items) => {
                if items.len() != 2 {
                    return None;
                }
                match (json_as_str(&items[0]), port_from_json(&items[1])) {
                    (Some(ip), Some(port)) => Some(Address { ip, port }),
                    _ => None,
                }
            },
            None => {
                let ip = match json_member(v, "ip") {
                    Some(x) => json_as_str(&x),
                    None => None,
                };
                let port = match json_member(v, "port") {
                    Some(x) => port_from_json(&x),
                    None => None,
                };
                match (ip, port) {
                    (Some(ip), Some(port)) => Some(Address { ip, port }),
                    _ => None,
                }
            },
        }
    }

    /// Formats the address as `<ip>:<port>`.
    pub fn hosturl(&self) -> (r: String)
        ensures
            r@ == host_url_of(self@),
    {
        let mut s = self.ip.clone();
        s.append(":");
        push_decimal(&mut s, self.port);
        s
    }
}

/// Reads a port from a JSON value: an integer in the range of `u16`.
fn port_from_json(v: &serde_json::Value) -> (r: Option<u16>)
    ensures
        r == port_of(json_of(*v)),
{
    match json_as_u64(v) {
        Some(n) => if n <= 65535 {
            Some(n as u16)
        } else {
            None
        },
        None => None,
    }
}

} // verus!
