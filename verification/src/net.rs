//! IP addresses and decimal numbers as text.

use vstd::prelude::*;

verus! {

/// An IP address as its octets.
#[derive(Debug, Clone, Copy, PartialEq, Eq)]
pub enum IpAddress {
    V4([u8; 4]),
    V6([u8; 16]),
}

/// The IPv4 loopback address `127.0.0.1`.
pub fn localhost_v4() -> (r: IpAddress)
    ensures
        r matches IpAddress::V4(o) && o@ == seq![127u8, 0u8, 0u8, 1u8],
{
    let o: [u8; 4] = [127, 0, 0, 1];
    proof {
        assert(o@ =~= seq![127u8, 0u8, 0u8, 1u8]);
    }
    IpAddress::V4(o)
}

/// The character of a decimal digit.
pub open spec fn digit_char(d: nat) -> char {
    if d == 0 {
        '0'
    } else if d == 1 {
        '1'
    } else if d == 2 {
        '2'
    } else if d == 3 {
        '3'
    } else if d == 4 {
        '4'
    } else if d == 5 {
        '5'
    } else if d == 6 {
        '6'
    } else if d == 7 {
        '7'
    } else if d == 8 {
        '8'
    } else {
        '9'
    }
}

/// The value of a decimal digit character, if it is one.
pub open spec fn digit_value(c: char) -> Option<nat> {
    if '0' <= c <= '9' {
        Some((c as u32 - '0' as u32) as nat)
    } else {
        None
    }
}

/// `n` written in decimal without leading zeros, as `Display` writes an
/// unsigned integer.
pub open spec fn decimal(n: nat) -> Seq<char>
    decreases n,
{
    if n < 10 {
        seq![digit_char(n)]
    } else {
        decimal(n / 10).push(digit_char(n % 10))
    }
}

fn digit_of(d: u64) -> (c: char)
    requires
        d < 10,
    ensures
        c == digit_char(d as nat),
{
    if d == 0 {
        '0'
    } else if d == 1 {
        '1'
    } else if d == 2 {
        '2'
    } else if d == 3 {
        '3'
    } else if d == 4 {
        '4'
    } else if d == 5 {
        '5'
    } else if d == 6 {
        '6'
    } else if d == 7 {
        '7'
    } else if d == 8 {
        '8'
    } else {
        '9'
    }
}

/// Appends `n` in decimal.
pub fn push_decimal(out: &mut Vec<char>, n: u64)
    ensures
        final(out)@ == old(out)@ + decimal(n as nat),
    decreases n,
{
    if n >= 10 {
        push_decimal(out, n / 10);
    }
    out.push(digit_of(n % 10));
    proof {
        if n < 10 {
            assert(n % 10 == n);
        }
    }
}

/// The text of an IPv4 address: its four octets in decimal, joined by dots.
pub open spec fn ipv4_text(o: Seq<u8>) -> Seq<char> {
    decimal(o[0] as nat) + seq!['.'] + decimal(o[1] as nat) + seq!['.'] + decimal(o[2] as nat)
        + seq!['.'] + decimal(o[3] as nat)
}

/// The text `Display` gives an IPv6 address with these sixteen octets
/// (RFC 5952 form).
pub uninterp spec fn ipv6_text(octets: Seq<u8>) -> Seq<char>;

/// `Display` of `core::net::Ipv6Addr`. The RFC 5952 rules it follows (the
/// longest run of zero groups shortened to `::`, lower-case hexadecimal,
/// embedded IPv4 for mapped addresses) are not written out: the contract
/// names the text `ipv6_text` of the octets.
#[verifier::external_body]
fn ipv6_display(octets: [u8; 16]) -> (r: Vec<char>)
    ensures
        r@ == ipv6_text(octets@),
{
    format!("{}", core::net::Ipv6Addr::from(octets)).chars().collect()
}

/// The text of an IP address, as `Display` writes it.
pub open spec fn ip_text(a: IpAddress) -> Seq<char> {
    match a {
        IpAddress::V4(o) => ipv4_text(o@),
        IpAddress::V6(o) => ipv6_text(o@),
    }
}

/// Appends the text of an IP address.
pub fn push_ip_text(out: &mut Vec<char>, a: &IpAddress)
    ensures
        final(out)@ == old(out)@ + ip_text(*a),
{
    match a {
        IpAddress::V4(o) => {
            let ghost start = out@;
            push_decimal(out, o[0] as u64);
            out.push('.');
            push_decimal(out, o[1] as u64);
            out.push('.');
            push_decimal(out, o[2] as u64);
            out.push('.');
            push_decimal(out, o[3] as u64);
            proof {
                assert(out@ =~= start + ipv4_text(o@));
            }
        },
        IpAddress::V6(o) => {
            let t = ipv6_display(*o);
            crate::text::extend_chars(out, &t);
        },
    }
}

/// The text of a socket address with this IP and port, as `Display` writes
/// it: `a.b.c.d:port` for IPv4, `[v6]:port` for IPv6.
pub open spec fn socket_text(a: IpAddress, port: u16) -> Seq<char> {
    match a {
        IpAddress::V4(_) => ip_text(a) + seq![':'] + decimal(port as nat),
        IpAddress::V6(_) => seq!['['] + ip_text(a) + seq![']', ':'] + decimal(port as nat),
    }
}

/// Writes a socket address as text.
pub fn socket_addr_text(a: &IpAddress, port: u16) -> (r: String)
    ensures
        r@ == socket_text(*a, port),
{
    let mut out: Vec<char> = Vec::new();
    match a {
        IpAddress::V4(_) => {
            push_ip_text(&mut out, a);
            out.push(':');
            push_decimal(&mut out, port as u64);
        },
        IpAddress::V6(_) => {
            out.push('[');
            push_ip_text(&mut out, a);
            out.push(']');
            out.push(':');
            push_decimal(&mut out, port as u64);
        },
    }
    proof {
        assert(out@ =~= socket_text(*a, port));
    }
    crate::text::string_of(&out)
}

/// Writes an IP address as text.
pub fn ip_addr_text(a: &IpAddress) -> (r: String)
    ensures
        r@ == ip_text(*a),
{
    let mut out: Vec<char> = Vec::new();
    push_ip_text(&mut out, a);
    proof {
        assert(out@ =~= ip_text(*a));
    }
    crate::text::string_of(&out)
}

/// The address that `str::parse::<IpAddr>` reads from `text`, if it accepts it.
pub uninterp spec fn ip_parse(text: Seq<char>) -> Option<IpAddress>;

/// Whether `text` parses as an IP address.
pub open spec fn ip_addr_syntax(text: Seq<char>) -> bool {
    ip_parse(text) is Some
}

/// `str::parse::<core::net::IpAddr>`. The grammar it accepts (dotted-decimal
/// IPv4, the RFC 4291 text forms of IPv6) is not written out: the contract
/// names the outcome `ip_parse` of the text.
#[verifier::external_body]
pub(crate) fn parse_ip_addr(text: &str) -> (r: Option<IpAddress>)
    ensures
        r == ip_parse(text@),
{
    match text.parse::<core::net::IpAddr>() {
        Ok(core::net::IpAddr::V4(a)) => Some(IpAddress::V4(a.octets())),
        Ok(core::net::IpAddr::V6(a)) => Some(IpAddress::V6(a.octets())),
        Err(_) => None,
    }
}

/// Why `str::parse::<u16>` rejects a text (the kinds of `ParseIntError` it
/// can give).
#[derive(Debug, Clone, Copy, PartialEq, Eq, Structural)]
pub enum IntParseError {
    Empty,
    InvalidDigit,
    PosOverflow,
}

pub open spec fn int_parse_error_text(e: IntParseError) -> Seq<char> {
    match e {
        IntParseError::Empty => "cannot parse integer from empty string"@,
        IntParseError::InvalidDigit => "invalid digit found in string"@,
        IntParseError::PosOverflow => "number too large to fit in target type"@,
    }
}

impl IntParseError {
    /// The error's message, as `ParseIntError` displays it.
    pub fn message(&self) -> (r: String)
        ensures
            r@ == int_parse_error_text(*self),
    {
        match self {
            IntParseError::Empty => "cannot parse integer from empty string".to_owned(),
            IntParseError::InvalidDigit => "invalid digit found in string".to_owned(),
            IntParseError::PosOverflow => "number too large to fit in target type".to_owned(),
        }
    }
}

/// Reads digits left to right: the first character that is not a digit is
/// an invalid digit, and the first digit that takes the value past 65535 an
/// overflow; otherwise the value.
pub open spec fn digits_scan(d: Seq<char>) -> Result<nat, IntParseError>
    decreases d.len(),
{
    if d.len() == 0 {
        Ok(0)
    } else {
        match digits_scan(d.drop_last()) {
            Err(e) => Err(e),
            Ok(v) => match digit_value(d.last()) {
                None => Err(IntParseError::InvalidDigit),
                Some(x) => if v * 10 + x > 65535 {
                    Err(IntParseError::PosOverflow)
                } else {
                    Ok(v * 10 + x)
                },
            },
        }
    }
}

/// What `str::parse::<u16>` gives for `s`: an optional `+`, then one or more
/// decimal digits whose value fits in 16 bits.
pub open spec fn u16_parse(s: Seq<char>) -> Result<u16, IntParseError> {
    let d = if s.len() > 0 && s[0] == '+' {
        s.drop_first()
    } else {
        s
    };
    if s.len() == 0 {
        Err(IntParseError::Empty)
    } else if d.len() == 0 {
        Err(IntParseError::InvalidDigit)
    } else {
        match digits_scan(d) {
            Ok(v) => Ok(v as u16),
            Err(e) => Err(e),
        }
    }
}

/// Parses a port number the way `str::parse::<u16>` does.
pub fn parse_u16(s: &str) -> (r: Result<u16, IntParseError>)
    ensures
        r == u16_parse(s@),
{
    let chars = crate::text::chars_of(s);
    let n = chars.len();
    if n == 0 {
        return Err(IntParseError::Empty);
    }
    let mut start: usize = 0;
    if chars[0] == '+' {
        start = 1;
    }
    let ghost d = chars@.subrange(start as int, n as int);
    proof {
        if start == 1 {
            assert(d =~= s@.drop_first());
        } else {
            assert(d =~= s@);
        }
    }
    if start == n {
        return Err(IntParseError::InvalidDigit);
    }
    let mut acc: u32 = 0;
    let mut i: usize = start;
    proof {
        assert(d.take(0) =~= Seq::<char>::empty());
    }
    while i < n
        invariant
            start <= i <= n,
            n == chars@.len(),
            chars@ == s@,
            d == chars@.subrange(start as int, n as int),
            d == (if s@.len() > 0 && s@[0] == '+' {
                s@.drop_first()
            } else {
                s@
            }),
            digits_scan(d.take(i - start)) == Ok::<nat, IntParseError>(acc as nat),
            acc <= 65535,
        decreases n - i,
    {
        let c = chars[i];
        let ghost t = d.take(i + 1 - start);
        proof {
            assert(t.drop_last() =~= d.take(i - start));
            assert(t.last() == c);
        }
        if c < '0' || c > '9' {
            proof {
                assert(digits_scan(t) == Err::<nat, IntParseError>(IntParseError::InvalidDigit));
                lemma_digits_scan_stops(d, i + 1 - start);
            }
            return Err(IntParseError::InvalidDigit);
        }
        let v = (c as u32) - ('0' as u32);
        acc = acc * 10 + v;
        if acc > 65535 {
            proof {
                assert(digits_scan(t) == Err::<nat, IntParseError>(IntParseError::PosOverflow));
                lemma_digits_scan_stops(d, i + 1 - start);
            }
            return Err(IntParseError::PosOverflow);
        }
        i = i + 1;
    }
    proof {
        assert(d.take(n - start) =~= d);
    }
    Ok(acc as u16)
}

/// Once a prefix fails, the whole text fails the same way.
proof fn lemma_digits_scan_stops(d: Seq<char>, j: int)
    requires
        0 <= j <= d.len(),
        digits_scan(d.take(j)) is Err,
    ensures
        digits_scan(d) == digits_scan(d.take(j)),
    decreases d.len() - j,
{
    if j < d.len() {
        let t = d.take(j + 1);
        assert(t.drop_last() =~= d.take(j));
        lemma_digits_scan_stops(d, j + 1);
    } else {
        assert(d.take(j) =~= d);
    }
}

proof fn lemma_digit_roundtrip(d: nat)
    requires
        d < 10,
    ensures
        digit_value(digit_char(d)) == Some(d),
{
}

proof fn lemma_decimal_shape(n: nat)
    ensures
        decimal(n).len() > 0,
        digit_value(decimal(n)[0]) is Some,
    decreases n,
{
    if n < 10 {
        lemma_digit_roundtrip(n);
    } else {
        lemma_decimal_shape(n / 10);
        assert(decimal(n)[0] == decimal(n / 10)[0]);
    }
}

proof fn lemma_digits_scan_decimal(n: nat)
    ensures
        digits_scan(decimal(n)) == (if n <= 65535 {
            Ok::<nat, IntParseError>(n)
        } else {
            Err::<nat, IntParseError>(IntParseError::PosOverflow)
        }),
    decreases n,
{
    let d = decimal(n);
    if n < 10 {
        lemma_digit_roundtrip(n);
        assert(d.drop_last() =~= Seq::<char>::empty());
        assert(d.last() == digit_char(n));
        assert(digits_scan(d.drop_last()) == Ok::<nat, IntParseError>(0));
        assert(0 * 10 + n == n);
    } else {
        lemma_digits_scan_decimal(n / 10);
        lemma_digit_roundtrip(n % 10);
        assert(d.drop_last() =~= decimal(n / 10));
        assert(d.last() == digit_char(n % 10));
        assert((n / 10) * 10 + n % 10 == n) by (nonlinear_arith);
        if n / 10 > 65535 {
            assert(n > 65535) by (nonlinear_arith)
                requires n / 10 > 65535, (n / 10) * 10 + n % 10 == n;
        }
    }
}

/// A port written in decimal reads back as itself, with or without a
/// leading `+`; a decimal number past 65535 is an overflow; an empty text
/// is empty, a lone `+` has no digit, and a text that starts with neither
/// `+` nor a digit holds an invalid digit.
pub proof fn law_port_text_roundtrip(n: nat, s: Seq<char>)
    ensures
        n <= 65535 ==> u16_parse(decimal(n)) == Ok::<u16, IntParseError>(n as u16),
        n <= 65535 ==> u16_parse(seq!['+'] + decimal(n)) == Ok::<u16, IntParseError>(n as u16),
        n > 65535 ==> u16_parse(decimal(n)) == Err::<u16, IntParseError>(IntParseError::PosOverflow),
        u16_parse(Seq::<char>::empty()) == Err::<u16, IntParseError>(IntParseError::Empty),
        u16_parse(seq!['+']) == Err::<u16, IntParseError>(IntParseError::InvalidDigit),
        s.len() > 0 && s[0] != '+' && !('0' <= s[0] <= '9') ==> u16_parse(s) == Err::<
            u16,
            IntParseError,
        >(IntParseError::InvalidDigit),
{
    lemma_decimal_shape(n);
    lemma_digits_scan_decimal(n);
    let d = decimal(n);
    assert(d[0] != '+');
    assert((seq!['+'] + d).drop_first() =~= d);
    assert(seq!['+'].drop_first() =~= Seq::<char>::empty());
    if s.len() > 0 && s[0] != '+' && !('0' <= s[0] <= '9') {
        let t = s.take(1);
        assert(t.drop_last() =~= Seq::<char>::empty());
        assert(t.last() == s[0]);
        assert(digits_scan(t) == Err::<nat, IntParseError>(IntParseError::InvalidDigit));
        lemma_digits_scan_stops(s, 1);
    }
}

} // verus!
