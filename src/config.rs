//! The forward session's configuration and its textual forms.

use vstd::prelude::*;
use vstd::string::*;

verus! {

/// The character of a decimal digit.
pub open spec fn digit_char(d: nat) -> char {
    if d == 0 { '0' }
    else if d == 1 { '1' }
    else if d == 2 { '2' }
    else if d == 3 { '3' }
    else if d == 4 { '4' }
    else if d == 5 { '5' }
    else if d == 6 { '6' }
    else if d == 7 { '7' }
    else if d == 8 { '8' }
    else { '9' }
}

/// The decimal digits of `n`, most significant first, without leading zeros.
pub open spec fn decimal(n: nat) -> Seq<char>
    decreases n,
{
    if n < 10 {
        seq![digit_char(n)]
    } else {
        decimal(n / 10).push(digit_char(n % 10))
    }
}

/// The loopback URL under which the forwarded service is reached.
pub open spec fn url_of(port: u16) -> Seq<char> {
    "http://localhost:"@ + decimal(port as nat)
}

fn digit_str(d: u16) -> (r: &'static str)
    requires
        d < 10,
    ensures
        r@ == seq![digit_char(d as nat)],
{
    proof {
        reveal_strlit("0");
        reveal_strlit("1");
        reveal_strlit("2");
        reveal_strlit("3");
        reveal_strlit("4");
        reveal_strlit("5");
        reveal_strlit("6");
        reveal_strlit("7");
        reveal_strlit("8");
        reveal_strlit("9");
    }
    if d == 0 { "0" }
    else if d == 1 { "1" }
    else if d == 2 { "2" }
    else if d == 3 { "3" }
    else if d == 4 { "4" }
    else if d == 5 { "5" }
    else if d == 6 { "6" }
    else if d == 7 { "7" }
    else if d == 8 { "8" }
    else { "9" }
}

/// Appends the decimal digits of `n` to `out`.
pub fn push_decimal(out: &mut String, n: u16)
    ensures
        final(out)@ == old(out)@ + decimal(n as nat),
    decreases n,
{
    if n >= 10 {
        push_decimal(out, n / 10);
    }
    out.append(digit_str(n % 10));
    proof {
        if n >= 10 {
            assert(old(out)@ + decimal(n as nat) =~= old(out)@ + decimal((n / 10) as nat) + seq![digit_char((n % 10) as nat)]);
        } else {
            assert(decimal(n as nat) == seq![digit_char(n as nat)]);
        }
    }
}

/// The decimal form of `n`.
pub fn decimal_string(n: u16) -> (r: String)
    ensures
        r@ == decimal(n as nat),
{
    let mut s = String::new();
    push_decimal(&mut s, n);
    proof {
        assert(s@ =~= decimal(n as nat));
    }
    s
}

/// What one forward session connects: a local port to a port of a service
/// in a namespace of the cluster.
#[derive(Debug, Clone)]
pub struct PortForwardConfig {
    pub namespace: String,
    pub service: String,
    pub local_port: u16,
    pub remote_port: u16,
}

impl PortForwardConfig {
    /// The URL through which callers reach the forwarded service.
    pub fn es_url(&self) -> (r: String)
        ensures
            r@ == url_of(self.local_port),
    {
        let mut s = String::from_str("http://localhost:");
        push_decimal(&mut s, self.local_port);
        s
    }
}

/// The local port, and the remote one, when no setting names another.
pub const DEFAULT_PORT: u16 = 9200;

/// The namespace when no setting names another.
pub open spec fn default_namespace() -> Seq<char> {
    "infra"@
}

/// The service when no setting names another.
pub open spec fn default_service() -> Seq<char> {
    "logs-es-http"@
}

impl Default for PortForwardConfig {
    fn default() -> (r: Self)
        ensures
            r.namespace@ == default_namespace(),
            r.service@ == default_service(),
            r.local_port == DEFAULT_PORT,
            r.remote_port == DEFAULT_PORT,
    {
        PortForwardConfig {
            namespace: String::from_str("infra"),
            service: String::from_str("logs-es-http"),
            local_port: DEFAULT_PORT,
            remote_port: DEFAULT_PORT,
        }
    }
}

/// The value of a decimal digit character.
pub open spec fn digit_value(c: char) -> nat {
    (c as u32 - '0' as u32) as nat
}

pub open spec fn is_digit(c: char) -> bool {
    '0' <= c && c <= '9'
}

/// The number that the digits `s` spell.
pub open spec fn digits_value(s: Seq<char>) -> nat
    decreases s.len(),
{
    if s.len() == 0 {
        0
    } else {
        digits_value(s.drop_last()) * 10 + digit_value(s.last())
    }
}

/// `s` without a leading `+`, where it has one.
pub open spec fn unsigned_body(s: Seq<char>) -> Seq<char> {
    if s.len() > 0 && s[0] == '+' { s.drop_first() } else { s }
}

/// The port that the text `s` names: an optional `+` and then one or more
/// decimal digits whose value fits in 16 bits. Any other text names none.
pub open spec fn port_text_value(s: Seq<char>) -> Option<u16> {
    let body = unsigned_body(s);
    if body.len() > 0 && (forall|i: int| 0 <= i < body.len() ==> is_digit(#[trigger] body[i]))
        && digits_value(body) <= u16::MAX {
        Some(digits_value(body) as u16)
    } else {
        None
    }
}

proof fn lemma_digits_value_grows(s: Seq<char>, i: int)
    requires
        0 <= i <= s.len(),
        forall|j: int| 0 <= j < s.len() ==> is_digit(#[trigger] s[j]),
    ensures
        digits_value(s.take(i)) <= digits_value(s),
    decreases s.len() - i,
{
    if i < s.len() {
        lemma_digits_value_grows(s, i + 1);
        assert(s.take(i + 1).drop_last() =~= s.take(i));
        assert(s.take(i + 1).last() == s[i]);
    } else {
        assert(s.take(i) =~= s);
    }
}

/// The port that `text` names, as a setting of a port is read.
pub fn parse_port(text: &str) -> (r: Option<u16>)
    ensures
        r == port_text_value(text@),
{
    let n = text.unicode_len();
    let start: usize = if n > 0 && text.get_char(0) == '+' { 1 } else { 0 };
    let ghost body = unsigned_body(text@);
    assert(body =~= text@.subrange(start as int, n as int));
    if start >= n {
        return None;
    }
    let mut acc: u32 = 0;
    let mut i: usize = start;
    while i < n
        invariant
            n == text@.len(),
            start <= i <= n,
            body =~= text@.subrange(start as int, n as int),
            body == unsigned_body(text@),
            forall|j: int| 0 <= j < i - start ==> is_digit(#[trigger] body[j]),
            acc as nat == digits_value(body.take(i - start)),
            acc <= u16::MAX,
        decreases n - i,
    {
        let c = text.get_char(i);
        assert(body[i - start] == c);
        if c < '0' || c > '9' {
            assert(!is_digit(body[i - start]));
            return None;
        }
        let d: u32 = (c as u32) - ('0' as u32);
        assert(body.take(i - start + 1).drop_last() =~= body.take(i - start));
        assert(body.take(i - start + 1).last() == c);
        if acc * 10 + d > u16::MAX as u32 {
            proof {
                assert(digits_value(body.take(i - start + 1)) == acc * 10 + d);
                if forall|j: int| 0 <= j < body.len() ==> is_digit(#[trigger] body[j]) {
                    lemma_digits_value_grows(body, i - start + 1);
                }
            }
            return None;
        }
        acc = acc * 10 + d;
        i = i + 1;
    }
    assert(body.take(i - start) =~= body);
    Some(acc as u16)
}

/// Whether `a` and `b` hold the same characters.
pub fn same_text(a: &str, b: &str) -> (r: bool)
    ensures
        r == (a@ == b@),
{
    let n = a.unicode_len();
    if n != b.unicode_len() {
        return false;
    }
    let mut i: usize = 0;
    while i < n
        invariant
            n == a@.len(),
            n == b@.len(),
            i <= n,
            forall|j: int| 0 <= j < i ==> a@[j] == b@[j],
        decreases n - i,
    {
        if a.get_char(i) != b.get_char(i) {
            return false;
        }
        i = i + 1;
    }
    assert(a@ =~= b@);
    true
}

/// The port that a setting names, or the default port where there is no
/// setting or its text names no port.
pub open spec fn port_setting_spec(setting: Option<&str>) -> u16 {
    match setting {
        Some(t) => match port_text_value(t@) {
            Some(v) => v,
            None => DEFAULT_PORT,
        },
        None => DEFAULT_PORT,
    }
}

/// The port that a setting names, or the default port where there is no
/// setting or its text names no port.
pub fn port_setting(setting: Option<&str>) -> (r: u16)
    ensures
        r == port_setting_spec(setting),
{
    match setting {
        Some(t) => match parse_port(t) {
            Some(v) => v,
            None => DEFAULT_PORT,
        },
        None => DEFAULT_PORT,
    }
}

/// Whether a forward session is to be started, given the setting of its
/// toggle: only the text `true` turns it on; no setting, `false` or any other
/// text leaves it off.
pub fn should_enable_port_forward(setting: Option<&str>) -> (r: bool)
    ensures
        r == (setting matches Some(t) && t@ == "true"@),
{
    match setting {
        Some(t) => same_text(t, "true"),
        None => false,
    }
}

impl PortForwardConfig {
    /// A configuration from resolved settings. The local port is the one the
    /// port search settled on; a namespace or service that no setting names
    /// takes its default, and so does a remote port whose setting names none.
    pub fn from_settings(
        local_port: u16,
        namespace: Option<String>,
        service: Option<String>,
        remote_port: Option<&str>,
    ) -> (r: Self)
        ensures
            r.local_port == local_port,
            r.namespace@ == (match namespace {
                Some(n) => n@,
                None => default_namespace(),
            }),
            r.service@ == (match service {
                Some(v) => v@,
                None => default_service(),
            }),
            r.remote_port == port_setting_spec(remote_port),
    {
        let namespace = match namespace {
            Some(n) => n,
            None => String::from_str("infra"),
        };
        let service = match service {
            Some(v) => v,
            None => String::from_str("logs-es-http"),
        };
        PortForwardConfig { namespace, service, local_port, remote_port: port_setting(remote_port) }
    }
}

} // verus!
