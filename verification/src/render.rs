use vstd::prelude::*;
use vstd::string::StringExecFns;
use crate::config::{Config, IpAddress, SocketAddress};

verus! {

/// The character for one decimal digit.
pub open spec fn spec_dec_digit(d: int) -> char {
    if d == 0 {
        '0'
    } else if d == 1 {
        '1'
    } else if d == 2 {
        '2'
    } else if d == 3 {
        '3'
    } else if d == 4 {
        '4'
    } else if d == 5 {
        '5'
    } else if d == 6 {
        '6'
    } else if d == 7 {
        '7'
    } else if d == 8 {
        '8'
    } else {
        '9'
    }
}

/// The character for one hexadecimal digit, lower case.
pub open spec fn spec_hex_digit(d: int) -> char {
    if d < 10 {
        spec_dec_digit(d)
    } else if d == 10 {
        'a'
    } else if d == 11 {
        'b'
    } else if d == 12 {
        'c'
    } else if d == 13 {
        'd'
    } else if d == 14 {
        'e'
    } else {
        'f'
    }
}

/// The decimal writing of a number: most significant digit first, no
/// leading zeroes, a lone zero for zero.
pub open spec fn spec_decimal(n: nat) -> Seq<char>
    decreases n,
{
    if n < 10 {
        seq![spec_dec_digit(n as int)]
    } else {
        spec_decimal(n / 10).push(spec_dec_digit((n % 10) as int))
    }
}

/// The hexadecimal writing of a number: most significant digit first, no
/// leading zeroes, a lone zero for zero, lower case.
pub open spec fn spec_hexadecimal(n: nat) -> Seq<char>
    decreases n,
{
    if n < 16 {
        seq![spec_hex_digit(n as int)]
    } else {
        spec_hexadecimal(n / 16).push(spec_hex_digit((n % 16) as int))
    }
}

/// One decimal digit as text.
fn dec_digit_str(d: u64) -> (r: &'static str)
    requires
        d < 10,
    ensures
        r@ == seq![spec_dec_digit(d as int)],
{
    let r: &'static str = match d {
        0 => "0",
        1 => "1",
        2 => "2",
        3 => "3",
        4 => "4",
        5 => "5",
        6 => "6",
        7 => "7",
        8 => "8",
        _ => "9",
    };
    proof {
        reveal_strlit("0");
        reveal_strlit("1");
        reveal_strlit("2");
        reveal_strlit("3");
        reveal_strlit("4");
        reveal_strlit("5");
        reveal_strlit("6");
        reveal_strlit("7");
        reveal_strlit("8");
        reveal_strlit("9");
        assert(r@ =~= seq![spec_dec_digit(d as int)]);
    }
    r
}

/// One hexadecimal digit as text, lower case.
fn hex_digit_str(d: u64) -> (r: &'static str)
    requires
        d < 16,
    ensures
        r@ == seq![spec_hex_digit(d as int)],
{
    if d < 10 {
        dec_digit_str(d)
    } else {
        let r: &'static str = match d {
            10 => "a",
            11 => "b",
            12 => "c",
            13 => "d",
            14 => "e",
            _ => "f",
        };
        proof {
            reveal_strlit("a");
            reveal_strlit("b");
            reveal_strlit("c");
            reveal_strlit("d");
            reveal_strlit("e");
            reveal_strlit("f");
            assert(r@ =~= seq![spec_hex_digit(d as int)]);
        }
        r
    }
}

/// Writes a number in decimal.
pub fn decimal_u64(n: u64) -> (r: String)
    ensures
        r@ == spec_decimal(n as nat),
    decreases n,
{
    if n < 10 {
        String::from_str(dec_digit_str(n))
    } else {
        let mut s = decimal_u64(n / 10);
        s.append(dec_digit_str(n % 10));
        proof {
            assert(s@ =~= spec_decimal(n as nat));
        }
        s
    }
}

/// Writes a number in hexadecimal, lower case.
pub fn hexadecimal_u16(n: u16) -> (r: String)
    ensures
        r@ == spec_hexadecimal(n as nat),
    decreases n,
{
    if n < 16 {
        String::from_str(hex_digit_str(n as u64))
    } else {
        let mut s = hexadecimal_u16(n / 16);
        s.append(hex_digit_str((n % 16) as u64));
        proof {
            assert(s@ =~= spec_hexadecimal(n as nat));
        }
        s
    }
}

/// The writing of an IP address: dotted decimal octets for version 4,
/// colon-separated hexadecimal groups, none elided, for version 6.
pub open spec fn spec_render_ip(ip: IpAddress) -> Seq<char> {
    match ip {
        IpAddress::V4(a, b, c, d) => spec_decimal(a as nat) + "."@ + spec_decimal(b as nat) + "."@
            + spec_decimal(c as nat) + "."@ + spec_decimal(d as nat),
        IpAddress::V6(g0, g1, g2, g3, g4, g5, g6, g7) => spec_hexadecimal(g0 as nat) + ":"@
            + spec_hexadecimal(g1 as nat) + ":"@ + spec_hexadecimal(g2 as nat) + ":"@
            + spec_hexadecimal(g3 as nat) + ":"@ + spec_hexadecimal(g4 as nat) + ":"@
            + spec_hexadecimal(g5 as nat) + ":"@ + spec_hexadecimal(g6 as nat) + ":"@
            + spec_hexadecimal(g7 as nat),
    }
}

/// Writes an IP address.
pub fn render_ip(ip: &IpAddress) -> (r: String)
    ensures
        r@ == spec_render_ip(*ip),
{
    match ip {
        IpAddress::V4(a, b, c, d) => {
            let mut s = decimal_u64(*a as u64);
            s.append(".");
            s.append(decimal_u64(*b as u64).as_str());
            s.append(".");
            s.append(decimal_u64(*c as u64).as_str());
            s.append(".");
            s.append(decimal_u64(*d as u64).as_str());
            s
        },
        IpAddress::V6(g0, g1, g2, g3, g4, g5, g6, g7) => {
            let mut s = hexadecimal_u16(*g0);
            s.append(":");
            s.append(hexadecimal_u16(*g1).as_str());
            s.append(":");
            s.append(hexadecimal_u16(*g2).as_str());
            s.append(":");
            s.append(hexadecimal_u16(*g3).as_str());
            s.append(":");
            s.append(hexadecimal_u16(*g4).as_str());
            s.append(":");
            s.append(hexadecimal_u16(*g5).as_str());
            s.append(":");
            s.append(hexadecimal_u16(*g6).as_str());
            s.append(":");
            s.append(hexadecimal_u16(*g7).as_str());
            s
        },
    }
}

/// The writing of a socket address: `ip:port`, with a version 6 address in
/// brackets.
pub open spec fn spec_render_socket_address(a: SocketAddress) -> Seq<char> {
    match a.ip {
        IpAddress::V4(_, _, _, _) => spec_render_ip(a.ip) + ":"@ + spec_decimal(a.port as nat),
        IpAddress::V6(_, _, _, _, _, _, _, _) => "["@ + spec_render_ip(a.ip) + "]:"@ + spec_decimal(
            a.port as nat,
        ),
    }
}

/// Writes a socket address.
pub fn render_socket_address(a: &SocketAddress) -> (r: String)
    ensures
        r@ == spec_render_socket_address(*a),
{
    match a.ip {
        IpAddress::V4(_, _, _, _) => {
            let mut s = render_ip(&a.ip);
            s.append(":");
            s.append(decimal_u64(a.port as u64).as_str());
            s
        },
        IpAddress::V6(_, _, _, _, _, _, _, _) => {
            let mut s = String::from_str("[");
            s.append(render_ip(&a.ip).as_str());
            s.append("]:");
            s.append(decimal_u64(a.port as u64).as_str());
            s
        },
    }
}

/// The startup line: the effective configuration in one log line.
pub open spec fn spec_starting_line(cfg: Config) -> Seq<char> {
    "Starting: "@ + spec_render_socket_address(cfg.source) + " -> "@ + spec_render_socket_address(
        cfg.dest,
    ) + ", nodelay="@ + (if cfg.nodelay {
        "true"@
    } else {
        "false"@
    }) + ", keepalive="@ + spec_decimal(cfg.keepalive_secs as nat) + "s"@
}

/// Builds the startup log line showing the effective configuration.
pub fn starting_line(cfg: &Config) -> (r: String)
    ensures
        r@ == spec_starting_line(*cfg),
{
    let mut s = String::from_str("Starting: ");
    s.append(render_socket_address(&cfg.source).as_str());
    s.append(" -> ");
    s.append(render_socket_address(&cfg.dest).as_str());
    s.append(", nodelay=");
    if cfg.nodelay {
        s.append("true");
    } else {
        s.append("false");
    }
    s.append(", keepalive=");
    s.append(decimal_u64(cfg.keepalive_secs).as_str());
    s.append("s");
    s
}

} // verus!
