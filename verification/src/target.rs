//! Reading a `host:port` target.
//!
//! A target is split at its last colon. What stands before it is the host,
//! a numeric literal or a name, and is not looked at here. What stands after
//! it is the port, a decimal number that fits in 16 bits.
use vstd::prelude::*;

verus! {

/// The text is not of the form `host:port` with a 16-bit decimal port.
#[derive(Debug, Copy, Clone, PartialEq, Eq, Structural)]
pub struct InvalidTarget;

/// Whether a character is one of `0` to `9`.
pub open spec fn is_digit(c: char) -> bool {
    '0' <= c && c <= '9'
}

/// What a decimal digit counts for.
pub open spec fn digit_value(c: char) -> nat {
    (c as u32 - '0' as u32) as nat
}

/// Whether a text holds decimal digits and nothing else.
pub open spec fn all_digits(text: Seq<char>) -> bool {
    forall|i: int| 0 <= i < text.len() ==> is_digit(#[trigger] text[i])
}

/// The number that a run of decimal digits denotes, most significant digit
/// first. The empty run denotes zero.
pub open spec fn decimal(digits: Seq<char>) -> nat
    decreases digits.len(),
{
    if digits.len() == 0 {
        0
    } else {
        decimal(digits.drop_last()) * 10 + digit_value(digits.last())
    }
}

/// The digits of a port text: the text itself, without the `+` that may
/// stand in front of it.
pub open spec fn port_digits(text: Seq<char>) -> Seq<char> {
    if text.len() > 0 && text[0] == '+' {
        text.skip(1)
    } else {
        text
    }
}

/// The port that a text denotes: an optional `+`, then at least one decimal
/// digit, the whole no greater than 65535. Leading zeros are read over. Any
/// other text denotes no port.
pub open spec fn port_of(text: Seq<char>) -> Option<u16> {
    let digits = port_digits(text);
    if digits.len() > 0 && all_digits(digits) && decimal(digits) <= u16::MAX {
        Some(decimal(digits) as u16)
    } else {
        None
    }
}

/// Where the last colon of a text stands, if the text has one.
pub open spec fn last_colon(text: Seq<char>) -> Option<int>
    decreases text.len(),
{
    if text.len() == 0 {
        None
    } else if text.last() == ':' {
        Some(text.len() - 1)
    } else {
        last_colon(text.drop_last())
    }
}

/// The host and the port that a target denotes: the text before its last
/// colon, and the port that the text after it denotes. A text without a
/// colon, or with no port after the last one, denotes nothing.
pub open spec fn target_of(text: Seq<char>) -> Option<(Seq<char>, u16)> {
    match last_colon(text) {
        Some(at) => match port_of(text.skip(at + 1)) {
            Some(port) => Some((text.take(at), port)),
            None => None,
        },
        None => None,
    }
}

/// One more digit at the end multiplies by ten and adds the digit.
proof fn lemma_decimal_push(digits: Seq<char>, c: char)
    ensures
        decimal(digits.push(c)) == decimal(digits) * 10 + digit_value(c),
{
    assert(digits.push(c).drop_last() =~= digits);
}

/// A run of digits denotes no less than any of its beginnings.
proof fn lemma_decimal_grows(digits: Seq<char>, k: int)
    requires
        0 <= k <= digits.len(),
    ensures
        decimal(digits.take(k)) <= decimal(digits),
    decreases digits.len() - k,
{
    if k == digits.len() {
        assert(digits.take(k) =~= digits);
    } else {
        lemma_decimal_grows(digits.drop_last(), k);
        assert(digits.drop_last().take(k) =~= digits.take(k));
    }
}

/// Reads a port: an optional `+`, then decimal digits that denote a number
/// up to 65535.
pub fn parse_port(text: &str) -> (port: Option<u16>)
    ensures
        port == port_of(text@),
{
    let len = text.unicode_len();
    if len == 0 {
        return None;
    }
    let ghost digits = port_digits(text@);
    let ghost sign: int = text@.len() - digits.len();
    let mut value: u32 = 0;
    let mut seen: usize = 0;
    let mut read: usize = 0;
    for c in it: text.chars()
        invariant
            it.seq() == text@,
            len == text@.len(),
            seen == it.index(),
            digits == port_digits(text@),
            sign == text@.len() - digits.len(),
            seen == 0 ==> read == 0,
            seen > 0 ==> read == seen - sign,
            read <= digits.len(),
            all_digits(digits.take(read as int)),
            value == decimal(digits.take(read as int)),
            value <= u16::MAX,
    {
        if seen > 0 || c != '+' {
            assert(digits[read as int] == c);
            if '0' <= c && c <= '9' {
                proof {
                    assert(digits.take(read + 1) =~= digits.take(read as int).push(c));
                    lemma_decimal_push(digits.take(read as int), c);
                    lemma_decimal_grows(digits, read + 1);
                }
                value = value * 10 + (c as u32 - '0' as u32);
                if value > 65535 {
                    return None;
                }
                read = read + 1;
            } else {
                return None;
            }
        }
        seen = seen + 1;
    }
    assert(digits.take(read as int) =~= digits);
    if read == 0 {
        None
    } else {
        Some(value as u16)
    }
}

/// The last colon found so far, as [`last_colon`] has it.
spec fn found(at: Option<usize>, text: Seq<char>) -> bool {
    match at {
        Some(at) => last_colon(text) == Some(at as int),
        None => last_colon(text) is None,
    }
}

/// The last colon of a text stands inside the text.
proof fn lemma_last_colon_in_range(text: Seq<char>)
    ensures
        last_colon(text) matches Some(at) ==> 0 <= at < text.len() && text[at] == ':',
    decreases text.len(),
{
    if text.len() > 0 && text.last() != ':' {
        lemma_last_colon_in_range(text.drop_last());
    }
}

/// Splits a target at its last colon and reads the port after it.
///
/// The host comes back as it stands in the target, be it a numeric literal
/// or a name. A target without a colon, or without a port after its last
/// colon, is refused.
pub fn parse_target(target: &str) -> (parsed: Result<(&str, u16), InvalidTarget>)
    ensures
        match target_of(target@) {
            Some((host, port)) => parsed matches Ok((h, p)) && h@ == host && p == port,
            None => parsed is Err,
        },
{
    let len = target.unicode_len();
    let mut colon: Option<usize> = None;
    let mut seen: usize = 0;
    for c in it: target.chars()
        invariant
            it.seq() == target@,
            len == target@.len(),
            seen == it.index(),
            found(colon, target@.take(seen as int)),
    {
        proof {
            assert(target@.take(seen + 1).drop_last() =~= target@.take(seen as int));
        }
        if c == ':' {
            colon = Some(seen);
        }
        seen = seen + 1;
    }
    proof {
        assert(target@.take(seen as int) =~= target@);
        lemma_last_colon_in_range(target@);
    }
    match colon {
        None => Err(InvalidTarget),
        Some(at) => {
            let host = target.substring_char(0, at);
            let port_text = target.substring_char(at + 1, len);
            match parse_port(port_text) {
                Some(port) => Ok((host, port)),
                None => Err(InvalidTarget),
            }
        },
    }
}

/// A colon with no colon after it is the last colon.
proof fn lemma_last_colon_at(text: Seq<char>, at: int)
    requires
        0 <= at < text.len(),
        text[at] == ':',
        forall|j: int| at < j < text.len() ==> text[j] != ':',
    ensures
        last_colon(text) == Some(at),
    decreases text.len(),
{
    if at < text.len() - 1 {
        lemma_last_colon_at(text.drop_last(), at);
    }
}

/// A text that denotes a port holds no colon.
proof fn lemma_port_without_colon(port_text: Seq<char>)
    requires
        port_of(port_text) is Some,
    ensures
        forall|j: int| 0 <= j < port_text.len() ==> port_text[j] != ':',
{
    let digits = port_digits(port_text);
    assert forall|j: int| 0 <= j < port_text.len() implies port_text[j] != ':' by {
        if digits.len() == port_text.len() {
            assert(is_digit(digits[j]));
        } else if j > 0 {
            assert(is_digit(digits[j - 1]));
        }
    }
}

/// A text without a colon is no target: where the port is absent, reading
/// the target fails.
pub proof fn lemma_target_needs_colon(text: Seq<char>)
    requires
        forall|i: int| 0 <= i < text.len() ==> text[i] != ':',
    ensures
        target_of(text) is None,
{
    lemma_last_colon_in_range(text);
}

/// Digits that denote more than 65535 denote no port, with or without a
/// `+` in front.
pub proof fn lemma_port_out_of_range(digits: Seq<char>)
    requires
        all_digits(digits),
        decimal(digits) > u16::MAX,
    ensures
        port_of(digits) is None,
        port_of(seq!['+'] + digits) is None,
{
    assert(digits.len() > 0 ==> is_digit(digits[0]));
    assert((seq!['+'] + digits).skip(1) =~= digits);
}

/// A host, a colon and a text that denotes no port make no target: where
/// the port is not a decimal number up to 65535, reading the target fails.
pub proof fn lemma_target_needs_port(host: Seq<char>, port_text: Seq<char>)
    requires
        forall|j: int| 0 <= j < port_text.len() ==> port_text[j] != ':',
        port_of(port_text) is None,
    ensures
        target_of(host + seq![':'] + port_text) is None,
{
    let text = host + seq![':'] + port_text;
    lemma_last_colon_at(text, host.len() as int);
    assert(text.skip(host.len() as int + 1) =~= port_text);
}

/// A host, a colon and a text that denotes a port make a target of that
/// host and that port, whatever the host holds.
pub proof fn lemma_target_joins(host: Seq<char>, port_text: Seq<char>)
    requires
        port_of(port_text) is Some,
    ensures
        target_of(host + seq![':'] + port_text) == Some((host, port_of(port_text).unwrap())),
{
    let text = host + seq![':'] + port_text;
    lemma_port_without_colon(port_text);
    lemma_last_colon_at(text, host.len() as int);
    assert(text.skip(host.len() as int + 1) =~= port_text);
    assert(text.take(host.len() as int) =~= host);
}

/// Every target is its host, a colon, and a text that denotes its port.
pub proof fn lemma_target_parts(text: Seq<char>)
    requires
        target_of(text) is Some,
    ensures
        ({
            let (host, port) = target_of(text).unwrap();
            let port_text = text.skip(host.len() as int + 1);
            &&& text == host + seq![':'] + port_text
            &&& port_of(port_text) == Some(port)
        }),
{
    lemma_last_colon_in_range(text);
    let (host, port) = target_of(text).unwrap();
    assert(text =~= host + seq![':'] + text.skip(host.len() as int + 1));
}

} // verus!
