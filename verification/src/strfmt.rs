//! Verified construction of the strings the engine hands out: decimal
//! port and counter rendering, `host:port` registry keys, and the
//! `scheme://host:port` connection URIs.

use vstd::prelude::*;
use vstd::string::StringExecFns;

verus! {

/// The character for one decimal digit.
pub open spec fn digit_char(d: nat) -> char {
    if d == 0 {
        '0'
    } else if d == 1 {
        '1'
    } else if d == 2 {
        '2'
    } else if d == 3 {
        '3'
    } else if d == 4 {
        '4'
    } else if d == 5 {
        '5'
    } else if d == 6 {
        '6'
    } else if d == 7 {
        '7'
    } else if d == 8 {
        '8'
    } else {
        '9'
    }
}

/// Decimal representation of `n`: most significant digit first, no sign,
/// no leading zeros (`0` itself is the single character `'0'`).
pub open spec fn dec_str(n: nat) -> Seq<char>
    decreases n,
{
    if n < 10 {
        seq![digit_char(n)]
    } else {
        dec_str(n / 10).push(digit_char(n % 10))
    }
}

fn digit_to_str(d: u64) -> (r: &'static str)
    requires
        d < 10,
    ensures
        r@ == seq![digit_char(d as nat)],
{
    if d == 0 {
        proof {
            reveal_strlit("0");
        }
        assert("0"@ =~= seq![digit_char(0)]);
        "0"
    } else if d == 1 {
        proof {
            reveal_strlit("1");
        }
        assert("1"@ =~= seq![digit_char(1)]);
        "1"
    } else if d == 2 {
        proof {
            reveal_strlit("2");
        }
        assert("2"@ =~= seq![digit_char(2)]);
        "2"
    } else if d == 3 {
        proof {
            reveal_strlit("3");
        }
        assert("3"@ =~= seq![digit_char(3)]);
        "3"
    } else if d == 4 {
        proof {
            reveal_strlit("4");
        }
        assert("4"@ =~= seq![digit_char(4)]);
        "4"
    } else if d == 5 {
        proof {
            reveal_strlit("5");
        }
        assert("5"@ =~= seq![digit_char(5)]);
        "5"
    } else if d == 6 {
        proof {
            reveal_strlit("6");
        }
        assert("6"@ =~= seq![digit_char(6)]);
        "6"
    } else if d == 7 {
        proof {
            reveal_strlit("7");
        }
        assert("7"@ =~= seq![digit_char(7)]);
        "7"
    } else if d == 8 {
        proof {
            reveal_strlit("8");
        }
        assert("8"@ =~= seq![digit_char(8)]);
        "8"
    } else {
        proof {
            reveal_strlit("9");
        }
        assert("9"@ =~= seq![digit_char(9)]);
        "9"
    }
}

/// Renders `n` in decimal.
pub fn u64_to_string(n: u64) -> (r: String)
    ensures
        r@ == dec_str(n as nat),
    decreases n,
{
    if n < 10 {
        String::from_str(digit_to_str(n))
    } else {
        let prefix = u64_to_string(n / 10);
        let r = prefix.concat(digit_to_str(n % 10));
        assert(r@ =~= dec_str((n / 10) as nat).push(digit_char((n % 10) as nat)));
        r
    }
}

/// The registry and pool key of an endpoint: `host:port`.
pub open spec fn endpoint_key(host: Seq<char>, port: u16) -> Seq<char> {
    host + ":"@ + dec_str(port as nat)
}

/// Builds the `host:port` key of an endpoint.
pub fn endpoint_key_string(host: &str, port: u16) -> (r: String)
    ensures
        r@ == endpoint_key(host@, port),
{
    let ps = u64_to_string(port as u64);
    let r = String::from_str(host).concat(":").concat(ps.as_str());
    assert(r@ =~= endpoint_key(host@, port));
    r
}

/// The transport URI of an endpoint: `https://host:port` when TLS is
/// requested, `http://host:port` otherwise.
pub open spec fn endpoint_uri(host: Seq<char>, port: u16, use_tls: bool) -> Seq<char> {
    (if use_tls {
        "https://"@
    } else {
        "http://"@
    }) + host + ":"@ + dec_str(port as nat)
}

/// Builds the transport URI of an endpoint.
pub fn endpoint_uri_string(host: &str, port: u16, use_tls: bool) -> (r: String)
    ensures
        r@ == endpoint_uri(host@, port, use_tls),
{
    let scheme: &str = if use_tls {
        "https://"
    } else {
        "http://"
    };
    let ps = u64_to_string(port as u64);
    let r = String::from_str(scheme).concat(host).concat(":").concat(ps.as_str());
    assert(r@ =~= endpoint_uri(host@, port, use_tls));
    r
}

} // verus!
