use vstd::prelude::*;
use vstd::string::*;
use crate::text::{chars_of, concat, trim, trim_bounds};

verus! {

/// The ports a running instance publishes.
#[derive(Debug, Clone, Copy, PartialEq, Eq, Hash, Structural)]
pub struct PortInfo {
    pub main_port: u16,
    pub preview_proxy_port: Option<u16>,
}

/// A byte that may appear in an instance name: an ASCII letter or digit, `-`, `_` or `.`.
pub open spec fn name_byte(b: u8) -> bool {
    (48 <= b <= 57) || (65 <= b <= 90) || (97 <= b <= 122) || b == 45 || b == 95 || b == 46
}

/// The name `..`, which names the parent of the temporary directory.
pub open spec fn parent_name(bytes: Seq<u8>) -> bool {
    bytes == seq![46u8, 46u8]
}

/// An instance name is non-empty, made of allowed bytes only and not `..`, so
/// it names no path outside the temporary directory.
pub open spec fn valid_name_bytes(bytes: Seq<u8>) -> bool {
    &&& bytes.len() > 0
    &&& forall|i: int| 0 <= i < bytes.len() ==> name_byte(#[trigger] bytes[i])
    &&& !parent_name(bytes)
}

pub fn valid_instance_name(name: &str) -> (r: bool)
    ensures
        r == valid_name_bytes(name.spec_bytes()),
{
    let bytes = name.as_bytes();
    if bytes.len() == 0 {
        return false;
    }
    let mut i: usize = 0;
    while i < bytes.len()
        invariant
            bytes@ == name.spec_bytes(),
            i <= bytes@.len(),
            forall|j: int| 0 <= j < i ==> name_byte(#[trigger] bytes@[j]),
        decreases bytes@.len() - i,
    {
        let b = bytes[i];
        let ok = (48 <= b && b <= 57) || (65 <= b && b <= 90) || (97 <= b && b <= 122) || b == 45 || b == 95 || b == 46;
        if !ok {
            return false;
        }
        i = i + 1;
    }
    let double_dot = bytes.len() == 2 && bytes[0] == 46 && bytes[1] == 46;
    proof {
        if bytes@ == seq![46u8, 46u8] {
            assert(bytes@[0] == 46u8 && bytes@[1] == 46u8);
        }
        if double_dot {
            assert(bytes@ =~= seq![46u8, 46u8]);
        }
    }
    !double_dot
}

/// A valid instance name cannot leave the temporary directory: it holds no
/// path separator and is not `..`, so the directory named after it is the
/// temporary directory or a component under it.
pub proof fn valid_instance_names_stay_in_the_temp_directory(bytes: Seq<u8>)
    requires
        valid_name_bytes(bytes),
    ensures
        forall|i: int| 0 <= i < bytes.len() ==> bytes[i] != 47u8 && bytes[i] != 92u8,
        bytes != seq![46u8, 46u8],
{
    assert forall|i: int| 0 <= i < bytes.len() implies bytes[i] != 47u8 && bytes[i] != 92u8 by {
        assert(name_byte(bytes[i]));
    }
}

/// Refusal of an instance name that could escape the temporary directory.
#[derive(Debug, Clone, PartialEq, Eq)]
pub struct InvalidInstanceName {
    pub message: String,
}

/// The instance name: the configured one (the value of the instance-id
/// environment variable, when set) or `default`, provided it is valid.
pub fn instance_name(configured: Option<String>, default: &str) -> (r: Result<String, InvalidInstanceName>)
    ensures
        ({
            let name = match configured {
                Some(c) => c@,
                None => default@,
            };
            &&& r matches Ok(n) ==> n@ == name
            &&& r is Ok <==> valid_name_bytes(vstd::utf8::encode_utf8(name))
            &&& r matches Err(e) ==> e.message@ == "VIBE_KANBAN_INSTANCE_ID may contain only ASCII letters, numbers, '-', '_' and '.'"@
        }),
{
    let name = match configured {
        Some(c) => c,
        None => default.to_owned(),
    };
    if !valid_instance_name(name.as_str()) {
        return Err(InvalidInstanceName {
            message: "VIBE_KANBAN_INSTANCE_ID may contain only ASCII letters, numbers, '-', '_' and '.'".to_owned(),
        });
    }
    Ok(name)
}

/// The name of an instance's port file.
pub fn port_file_name(app_name: &str) -> (r: String)
    ensures
        r@ == app_name@ + ".port"@,
{
    concat(app_name, ".port")
}

// ---------------------------------------------------------------------------
// Reading a bare port number

pub open spec fn is_digit(c: char) -> bool {
    '0' <= c && c <= '9'
}

/// The value of a string of decimal digits.
pub open spec fn digits_value(d: Seq<char>) -> int
    decreases d.len(),
{
    if d.len() == 0 { 0 } else { digits_value(d.drop_last()) * 10 + (d.last() as u32 - 48) }
}

/// All characters are decimal digits.
pub open spec fn all_digits(d: Seq<char>) -> bool {
    forall|i: int| 0 <= i < d.len() ==> is_digit(#[trigger] d[i])
}

/// The digits of an unsigned number: the text after an optional leading `+`.
pub open spec fn unsigned_digits(t: Seq<char>) -> Seq<char> {
    if t.len() > 0 && t[0] == '+' { t.drop_first() } else { t }
}

/// A `u16` written in decimal, optionally after a `+`.
pub open spec fn parse_u16(t: Seq<char>) -> Option<u16> {
    let d = unsigned_digits(t);
    if d.len() == 0 || !all_digits(d) {
        None
    } else if digits_value(d) > 65535 {
        None
    } else {
        Some(digits_value(d) as u16)
    }
}

proof fn digits_value_prefix(d: Seq<char>, i: int)
    requires
        0 <= i <= d.len(),
        forall|j: int| 0 <= j < d.len() ==> is_digit(#[trigger] d[j]),
    ensures
        0 <= digits_value(d.take(i)) <= digits_value(d),
    decreases d.len() - i,
{
    if i < d.len() {
        digits_value_prefix(d, i + 1);
        assert(d.take(i + 1).drop_last() =~= d.take(i));
        assert(is_digit(d[i]));
    } else {
        assert(d.take(i) =~= d);
        digits_nonneg(d);
    }
}

proof fn digits_nonneg(d: Seq<char>)
    requires
        forall|j: int| 0 <= j < d.len() ==> is_digit(#[trigger] d[j]),
    ensures
        digits_value(d) >= 0,
    decreases d.len(),
{
    if d.len() > 0 {
        digits_nonneg(d.drop_last());
        assert(is_digit(d[d.len() - 1]));
    }
}

/// Reads a port number written as plain text, ignoring surrounding white space.
pub fn parse_port(content: &str) -> (r: Option<u16>)
    ensures
        r == parse_u16(trim(content@)),
{
    let cs = chars_of(content);
    let n = cs.len();
    let (start, end) = trim_bounds(&cs);
    let ghost t = content@.subrange(start as int, end as int);
    assert(trim(content@) == t);
    let mut i: usize = start;
    if i < end && cs[i] == '+' {
        i = i + 1;
    }
    let ghost d = unsigned_digits(t);
    assert(d =~= content@.subrange(i as int, end as int));
    if i == end {
        return None;
    }
    let mut value: u32 = 0;
    let mut k: usize = i;
    while k < end
        invariant
            cs@ == content@,
            n == cs@.len(),
            i <= k <= end <= n,
            d =~= content@.subrange(i as int, end as int),
            trim(content@) == t,
            d == unsigned_digits(t),
            d.len() > 0,
            forall|j: int| 0 <= j < k - i ==> is_digit(#[trigger] d[j]),
            value as int == digits_value(d.take(k - i)),
            value <= 65535,
        decreases end - k,
    {
        let c = cs[k];
        assert(d[k - i] == c);
        if !('0' <= c && c <= '9') {
            assert(!is_digit(d[k - i]));
            assert(!all_digits(d));
            return None;
        }
        proof {
            assert(d.take(k - i + 1).drop_last() =~= d.take(k - i));
            assert(d.take(k - i + 1).last() == c);
        }
        value = value * 10 + (c as u32 - 48);
        if value > 65535 {
            proof {
                assert(value as int == digits_value(d.take(k - i + 1)));
                if all_digits(d) {
                    digits_value_prefix(d, k - i + 1);
                    assert(digits_value(d) > 65535);
                }
            }
            return None;
        }
        k = k + 1;
    }
    proof {
        assert(d.take(d.len() as int) =~= d);
        assert(all_digits(d));
    }
    Some(value as u16)
}

} // verus!
