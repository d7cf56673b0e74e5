//! Pieces of the AWS console federation flow: URL encoding, the console and
//! federation URLs, the session payload and the audit-log issuer.

use vstd::prelude::*;
use vstd::utf8::encode_utf8;

use crate::text::{chars_of, push_chars, push_str, string_from_chars, trim, trim_chars};

verus! {

/// RFC 3986 unreserved characters: ASCII letters, digits, `-`, `_`, `.`, `~`.
pub open spec fn is_unreserved(b: u8) -> bool {
    (65 <= b && b <= 90) || (97 <= b && b <= 122) || (48 <= b && b <= 57) || b == 45 || b
        == 95 || b == 46 || b == 126
}

/// Upper-case hexadecimal digit of `n` (for `n < 16`).
pub open spec fn hex_digit(n: u8) -> char {
    if n < 10 {
        ((48 + n) as u8) as char
    } else {
        ((55 + n) as u8) as char
    }
}

/// Encoding of one byte: itself if unreserved, else `%` and two upper-case hex digits.
pub open spec fn encode_byte(b: u8) -> Seq<char> {
    if is_unreserved(b) {
        seq![b as char]
    } else {
        seq!['%', hex_digit(b / 16), hex_digit(b % 16)]
    }
}

/// Percent-encoding of a byte sequence, byte by byte.
pub open spec fn percent_encode(bytes: Seq<u8>) -> Seq<char>
    decreases bytes.len(),
{
    if bytes.len() == 0 {
        Seq::empty()
    } else {
        percent_encode(bytes.drop_last()) + encode_byte(bytes.last())
    }
}

/// Value of an upper-case hexadecimal digit.
pub open spec fn hex_value(c: char) -> int {
    if '0' <= c && c <= '9' {
        c as int - 48
    } else {
        c as int - 55
    }
}

/// Reads a percent-encoded text back into bytes, from the left: `%` and two
/// hexadecimal digits give one byte, any other character gives its own code.
pub open spec fn percent_decode(s: Seq<char>) -> Seq<u8>
    decreases s.len(),
{
    if s.len() == 0 {
        Seq::empty()
    } else if s[0] == '%' && s.len() >= 3 {
        seq![(hex_value(s[1]) * 16 + hex_value(s[2])) as u8] + percent_decode(s.skip(3))
    } else {
        seq![s[0] as u8] + percent_decode(s.drop_first())
    }
}

fn hex_digit_exec(n: u8) -> (c: char)
    requires
        n < 16,
    ensures
        c == hex_digit(n),
{
    if n < 10 {
        (48 + n) as char
    } else {
        (55 + n) as char
    }
}

fn is_unreserved_exec(b: u8) -> (r: bool)
    ensures
        r == is_unreserved(b),
{
    (65 <= b && b <= 90) || (97 <= b && b <= 122) || (48 <= b && b <= 57) || b == 45 || b == 95
        || b == 46 || b == 126
}

/// Minimal RFC 3986 percent-encoding for query-string values: every byte of
/// the UTF-8 encoding of `s` that is not unreserved becomes `%XX`.
pub fn url_encode(s: &str) -> (r: String)
    ensures
        r@ == percent_encode(encode_utf8(s@)),
{
    let bytes = s.as_bytes();
    let mut out: Vec<char> = Vec::new();
    let mut i: usize = 0;
    while i < bytes.len()
        invariant
            0 <= i <= bytes@.len(),
            bytes@ == encode_utf8(s@),
            out@ == percent_encode(bytes@.take(i as int)),
        decreases bytes@.len() - i,
    {
        let b = bytes[i];
        let ghost before = out@;
        if is_unreserved_exec(b) {
            out.push(b as char);
        } else {
            out.push('%');
            out.push(hex_digit_exec(b / 16));
            out.push(hex_digit_exec(b % 16));
        }
        assert(out@ =~= before + encode_byte(b));
        assert(bytes@.take(i + 1).drop_last() =~= bytes@.take(i as int));
        i = i + 1;
    }
    assert(bytes@.take(bytes@.len() as int) =~= bytes@);
    string_from_chars(out.as_slice())
}

/// The console URL that lands in `region`; the global one for an empty region.
pub open spec fn console_url_spec(region: Seq<char>) -> Seq<char> {
    if region.len() == 0 {
        "https://console.aws.amazon.com/"@
    } else {
        "https://"@ + region + ".console.aws.amazon.com/"@
    }
}

/// Pick the regional console URL. The federation endpoint itself is global,
/// but the destination URL determines which region the console lands on.
/// The region is not validated.
pub fn console_url_for_region(region: &str) -> (r: String)
    ensures
        r@ == console_url_spec(region@),
{
    if region.is_empty() {
        "https://console.aws.amazon.com/".to_owned()
    } else {
        let mut out = chars_of("https://");
        push_str(&mut out, region);
        push_str(&mut out, ".console.aws.amazon.com/");
        string_from_chars(out.as_slice())
    }
}

/// The JSON session payload sent to the federation endpoint (fields are
/// inserted as given, without JSON escaping).
pub open spec fn session_json_spec(access_key_id: Seq<char>, secret_access_key: Seq<char>, session_token: Seq<char>) -> Seq<char> {
    "{\"sessionId\":\""@ + access_key_id + "\",\"sessionKey\":\""@ + secret_access_key
        + "\",\"sessionToken\":\""@ + session_token + "\"}"@
}

/// Builds the federation session payload from temporary credentials.
pub fn federation_session_json(access_key_id: &str, secret_access_key: &str, session_token: &str) -> (r: String)
    ensures
        r@ == session_json_spec(access_key_id@, secret_access_key@, session_token@),
{
    let mut out = chars_of("{\"sessionId\":\"");
    push_str(&mut out, access_key_id);
    push_str(&mut out, "\",\"sessionKey\":\"");
    push_str(&mut out, secret_access_key);
    push_str(&mut out, "\",\"sessionToken\":\"");
    push_str(&mut out, session_token);
    push_str(&mut out, "\"}");
    string_from_chars(out.as_slice())
}

/// The federation request that exchanges a session payload for a sign-in token.
pub open spec fn signin_request_spec(session_json: Seq<char>) -> Seq<char> {
    "https://signin.aws.amazon.com/federation?Action=getSigninToken&Session="@ + percent_encode(
        encode_utf8(session_json),
    )
}

/// The federation URL that signs the browser in to the console.
pub open spec fn login_url_spec(issuer: Seq<char>, console_url: Seq<char>, signin_token: Seq<char>) -> Seq<char> {
    "https://signin.aws.amazon.com/federation?Action=login&Issuer="@ + percent_encode(
        encode_utf8(issuer),
    ) + "&Destination="@ + percent_encode(encode_utf8(console_url)) + "&SigninToken="@
        + percent_encode(encode_utf8(signin_token))
}

/// URL that exchanges a session payload for a sign-in token.
pub fn signin_token_request_url(session_json: &str) -> (r: String)
    ensures
        r@ == signin_request_spec(session_json@),
{
    let mut out = chars_of("https://signin.aws.amazon.com/federation?Action=getSigninToken&Session=");
    let enc = url_encode(session_json);
    push_str(&mut out, enc.as_str());
    string_from_chars(out.as_slice())
}

/// URL that signs the browser in to the console with a sign-in token.
pub fn federation_login_url(issuer: &str, console_url: &str, signin_token: &str) -> (r: String)
    ensures
        r@ == login_url_spec(issuer@, console_url@, signin_token@),
{
    let mut out = chars_of("https://signin.aws.amazon.com/federation?Action=login&Issuer=");
    let a = url_encode(issuer);
    push_str(&mut out, a.as_str());
    push_str(&mut out, "&Destination=");
    let b = url_encode(console_url);
    push_str(&mut out, b.as_str());
    push_str(&mut out, "&SigninToken=");
    let c = url_encode(signin_token);
    push_str(&mut out, c.as_str());
    string_from_chars(out.as_slice())
}

/// Console federation needs temporary credentials: the session token is
/// usable only when present and non-empty.
pub fn usable_session_token(session_token: Option<String>) -> (r: Option<String>)
    ensures
        match session_token {
            Some(t) => if t@.len() > 0 {
                r == Some(t)
            } else {
                r is None
            },
            None => r is None,
        },
{
    match session_token {
        Some(t) => if t.as_str().is_empty() {
            None
        } else {
            Some(t)
        },
        None => None,
    }
}

/// The issuer AWS shows in the federation audit log:
/// `{host}/{user}/kee`, where the host name is trimmed and falls back to
/// `unknown-host` when missing or blank, and the user name is used as it is,
/// falling back to `unknown-user` when missing or empty.
pub open spec fn issuer_spec(host: Option<Seq<char>>, user: Option<Seq<char>>) -> Seq<char> {
    let h = match host {
        Some(h) if trim(h).len() > 0 => trim(h),
        _ => "unknown-host"@,
    };
    let u = match user {
        Some(u) if u.len() > 0 => u,
        _ => "unknown-user"@,
    };
    h + "/"@ + u + "/kee"@
}

/// The characters of an optional string.
pub open spec fn str_opt_view(o: Option<&str>) -> Option<Seq<char>> {
    match o {
        Some(s) => Some(s@),
        None => None,
    }
}

/// Builds the federation issuer from a host name and a user name.
pub fn issuer_from(host: Option<&str>, user: Option<&str>) -> (r: String)
    ensures
        r@ == issuer_spec(str_opt_view(host), str_opt_view(user)),
{
    let mut out: Vec<char> = Vec::new();
    let mut host_ok = false;
    if let Some(h) = host {
        let t = trim_chars(&chars_of(h));
        if t.len() > 0 {
            push_chars(&mut out, &t);
            host_ok = true;
        }
    }
    if !host_ok {
        push_str(&mut out, "unknown-host");
    }
    push_str(&mut out, "/");
    match user {
        Some(u) if !u.is_empty() => push_str(&mut out, u),
        _ => push_str(&mut out, "unknown-user"),
    }
    push_str(&mut out, "/kee");
    string_from_chars(out.as_slice())
}

/// Reads the machine's host name with `hostname::get`, as UTF-8 text.
///
/// Claims nothing of the result: it is the machine's name, or `None` when the
/// call fails or the name is not UTF-8.
#[verifier::external_body]
fn host_name() -> (r: Option<String>) {
    hostname::get().ok().and_then(|h| h.into_string().ok())
}

/// Builds the issuer AWS shows in the federation audit log from this machine's
/// host name and the user name `user` (`None` when it is unknown).
pub fn build_issuer(user: Option<&str>) -> (r: String)
    ensures
        exists|host: Option<Seq<char>>| #[trigger] issuer_spec(host, str_opt_view(user)) == r@,
{
    let host = host_name();
    let r = match &host {
        Some(h) => issuer_from(Some(h.as_str()), user),
        None => issuer_from(None, user),
    };
    proof {
        let hv: Option<Seq<char>> = match host {
            Some(h) => Some(h@),
            None => None,
        };
        assert(issuer_spec(hv, str_opt_view(user)) == r@);
    }
    r
}

/// The operating systems that open URLs differently.
#[derive(Clone, Copy, Debug, PartialEq, Eq, Structural)]
pub enum Platform {
    MacOs,
    Windows,
    Other,
}

/// The program and arguments that open `url` in the default browser:
/// `open` on macOS, `cmd /C start "" URL` on Windows, `xdg-open` elsewhere.
pub open spec fn browser_command_spec(platform: Platform, url: Seq<char>) -> (Seq<char>, Seq<Seq<char>>) {
    match platform {
        Platform::MacOs => ("open"@, seq![url]),
        Platform::Windows => ("cmd"@, seq!["/C"@, "start"@, Seq::empty(), url]),
        Platform::Other => ("xdg-open"@, seq![url]),
    }
}

/// Builds the command that opens `url` in the default browser.
pub fn browser_command(platform: Platform, url: &str) -> (r: (String, Vec<String>))
    ensures
        (r.0@, r.1@.map_values(|a: String| a@)) == browser_command_spec(platform, url@),
{
    match platform {
        Platform::MacOs => {
            let mut args: Vec<String> = Vec::new();
            args.push(url.to_owned());
            assert(args@.map_values(|a: String| a@) =~= seq![url@]);
            ("open".to_owned(), args)
        },
        Platform::Windows => {
            let mut args: Vec<String> = Vec::new();
            args.push("/C".to_owned());
            args.push("start".to_owned());
            args.push(String::new());
            args.push(url.to_owned());
            assert(args@.map_values(|a: String| a@) =~= seq!["/C"@, "start"@, Seq::empty(), url@]);
            ("cmd".to_owned(), args)
        },
        Platform::Other => {
            let mut args: Vec<String> = Vec::new();
            args.push(url.to_owned());
            assert(args@.map_values(|a: String| a@) =~= seq![url@]);
            ("xdg-open".to_owned(), args)
        },
    }
}

} // verus!
