use vstd::prelude::*;

verus! {

/// The body of the JSON-RPC request that asks a node for its `get_info`.
pub const RPC_GET_INFO_BODY: &'static str = r#"{"jsonrpc":"2.0","id":"0","method":"get_info"}"#;

/// The decimal digit `d` (`0 <= d < 10`) as a character.
pub open spec fn digit_char(d: nat) -> char {
    if d == 0 { '0' } else if d == 1 { '1' } else if d == 2 { '2' } else if d == 3 { '3' }
    else if d == 4 { '4' } else if d == 5 { '5' } else if d == 6 { '6' } else if d == 7 { '7' }
    else if d == 8 { '8' } else { '9' }
}

/// The decimal text of `n`, without leading zeros.
pub open spec fn decimal(n: nat) -> Seq<char>
    decreases n,
{
    if n < 10 {
        seq![digit_char(n)]
    } else {
        decimal(n / 10).push(digit_char(n % 10))
    }
}

fn digit_text(d: u16) -> (r: &'static str)
    requires
        d < 10,
    ensures
        r@ == seq![digit_char(d as nat)],
{
    if d == 0 { proof { reveal_strlit("0"); } "0" }
    else if d == 1 { proof { reveal_strlit("1"); } "1" }
    else if d == 2 { proof { reveal_strlit("2"); } "2" }
    else if d == 3 { proof { reveal_strlit("3"); } "3" }
    else if d == 4 { proof { reveal_strlit("4"); } "4" }
    else if d == 5 { proof { reveal_strlit("5"); } "5" }
    else if d == 6 { proof { reveal_strlit("6"); } "6" }
    else if d == 7 { proof { reveal_strlit("7"); } "7" }
    else if d == 8 { proof { reveal_strlit("8"); } "8" }
    else { proof { reveal_strlit("9"); } "9" }
}

/// Appends the decimal text of `n` to `s`.
fn append_decimal(s: &mut String, n: u16)
    ensures
        final(s)@ == old(s)@ + decimal(n as nat),
    decreases n,
{
    if n >= 10 {
        append_decimal(s, n / 10);
    }
    let d: u16 = n % 10;
    s.append(digit_text(d));
    proof {
        if n >= 10 {
            assert(decimal(n as nat) == decimal((n / 10) as nat).push(digit_char((n % 10) as nat)));
        }
    }
    assert(s@ =~= old(s)@ + decimal(n as nat));
}

/// The host part of a URL for an IP address written as `ip`: an IPv6 address
/// is enclosed in brackets.
pub open spec fn url_host(ip: Seq<char>, ipv6: bool) -> Seq<char> {
    if ipv6 { "["@ + ip + "]"@ } else { ip }
}

/// The URL of the JSON-RPC interface of a node whose IP address is written
/// `ip` (an IPv6 address if `ipv6`), listening on `port`.
pub open spec fn rpc_url_spec(ip: Seq<char>, ipv6: bool, port: u16) -> Seq<char> {
    "http://"@ + url_host(ip, ipv6) + ":"@ + decimal(port as nat) + "/json_rpc"@
}

/// The URL of the JSON-RPC interface of a node whose IP address is written
/// `ip` (an IPv6 address if `ipv6`), listening on `port`.
pub fn rpc_request_url(ip: &str, ipv6: bool, port: u16) -> (r: String)
    ensures
        r@ == rpc_url_spec(ip@, ipv6, port),
{
    let mut url = String::from_str("http://");
    if ipv6 {
        url.append("[");
        url.append(ip);
        url.append("]");
    } else {
        url.append(ip);
    }
    url.append(":");
    append_decimal(&mut url, port);
    url.append("/json_rpc");
    assert(url@ =~= rpc_url_spec(ip@, ipv6, port));
    url
}

/// Whether an HTTP status code tells of success: the codes 200 to 299.
pub fn is_rpc_success(status: u16) -> (r: bool)
    ensures
        r == (200 <= status && status < 300),
{
    200 <= status && status < 300
}

} // verus!
