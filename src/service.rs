//! Settings and addresses that the service derives from its configuration.

use vstd::prelude::*;

verus! {

/// The address of the key-value store: `redis://host:port`, with
/// `:password@` before the host when a password is set.
pub open spec fn redis_address(host: Seq<char>, port: Seq<char>, password: Seq<char>) -> Seq<char> {
    if password.len() == 0 {
        "redis://"@ + host + ":"@ + port
    } else {
        "redis://:"@ + password + "@"@ + host + ":"@ + port
    }
}

pub fn redis_url(host: &str, port: &str, password: &str) -> (r: String)
    ensures
        r@ == redis_address(host@, port@, password@),
{
    let mut r;
    if password.is_empty() {
        r = String::from_str("redis://");
    } else {
        r = String::from_str("redis://:");
        r.append(password);
        r.append("@");
    }
    r.append(host);
    r.append(":");
    r.append(port);
    r
}

/// Whether `c` has the Unicode `White_Space` property, as
/// `char::is_whitespace` decides it.
pub open spec fn white_space(c: char) -> bool {
    let n = c as u32;
    (9 <= n <= 13) || n == 32 || n == 0x85 || n == 0xA0 || n == 0x1680 || (0x2000 <= n <= 0x200A)
        || n == 0x2028 || n == 0x2029 || n == 0x202F || n == 0x205F || n == 0x3000
}

/// `s` without its leading white space.
pub open spec fn trim_start(s: Seq<char>) -> Seq<char>
    decreases s.len(),
{
    if s.len() > 0 && white_space(s[0]) {
        trim_start(s.subrange(1, s.len() as int))
    } else {
        s
    }
}

/// `s` without its trailing white space.
pub open spec fn trim_end(s: Seq<char>) -> Seq<char>
    decreases s.len(),
{
    if s.len() > 0 && white_space(s.last()) {
        trim_end(s.drop_last())
    } else {
        s
    }
}

/// `s` without its leading and trailing white space.
pub open spec fn trimmed(s: Seq<char>) -> Seq<char> {
    trim_end(trim_start(s))
}

/// Relies on str::trim, which drops the leading and trailing characters that
/// have the Unicode `White_Space` property.
#[verifier::external_body]
fn trim(s: &str) -> (r: &str)
    ensures
        r@ == trimmed(s@),
{
    s.trim()
}

/// The host handed to a redeemer: the configured public host name, trimmed,
/// when one is set and not blank; else the address of the server.
pub open spec fn public_host_spec(server: Seq<char>, hostname: Option<Seq<char>>) -> Seq<char> {
    match hostname {
        Some(h) => if trimmed(h).len() > 0 {
            trimmed(h)
        } else {
            server
        },
        None => server,
    }
}

pub fn public_host(server: &str, hostname: Option<&str>) -> (r: String)
    ensures
        r@ == public_host_spec(
            server@,
            match hostname {
                Some(h) => Some(h@),
                None => None,
            },
        ),
{
    match hostname {
        Some(h) => {
            let t = trim(h);
            if !t.is_empty() {
                String::from_str(t)
            } else {
                String::from_str(server)
            }
        },
        None => String::from_str(server),
    }
}

/// Whether a byte stands for itself in a percent-encoded string: an ASCII
/// letter or digit, or one of `-`, `.`, `_`, `~`.
pub open spec fn unreserved(b: u8) -> bool {
    (48 <= b <= 57) || (65 <= b <= 90) || (97 <= b <= 122) || b == 45 || b == 46 || b == 95
        || b == 126
}

/// The upper-case hexadecimal digit for `d`, below 16.
pub open spec fn hex_digit(d: u8) -> char {
    seq!['0', '1', '2', '3', '4', '5', '6', '7', '8', '9', 'A', 'B', 'C', 'D', 'E', 'F'][d as int]
}

/// Each byte in turn: itself when unreserved, else `%` and its two
/// upper-case hexadecimal digits.
pub open spec fn percent_encoded(bytes: Seq<u8>) -> Seq<char>
    decreases bytes.len(),
{
    if bytes.len() == 0 {
        Seq::empty()
    } else {
        let b = bytes[0];
        let head = if unreserved(b) {
            seq![b as char]
        } else {
            seq!['%', hex_digit(b / 16), hex_digit(b % 16)]
        };
        head + percent_encoded(bytes.subrange(1, bytes.len() as int))
    }
}

/// Relies on urlencoding::encode, which percent-encodes the UTF-8 bytes of
/// `s`, keeping ASCII letters, digits, `-`, `.`, `_` and `~`.
#[verifier::external_body]
fn url_encode(s: &str) -> (r: String)
    ensures
        r@ == percent_encoded(vstd::utf8::encode_utf8(s@)),
{
    urlencoding::encode(s).into_owned()
}

/// Where an unknown path is sent: the application's root, told in its query
/// which path was asked for.
pub fn redirect_target(path: &str) -> (r: String)
    ensures
        r@ == "/?redirect="@ + percent_encoded(vstd::utf8::encode_utf8(path@)),
{
    let mut r = String::from_str("/?redirect=");
    let encoded = url_encode(path);
    r.append(encoded.as_str());
    r
}

} // verus!
