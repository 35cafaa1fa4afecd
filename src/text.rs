//! Small text routines: decimal and hexadecimal digits, padding, substring
//! search and placeholder substitution.
use vstd::prelude::*;
use vstd::string::*;

verus! {

/// The character of a digit below sixteen, lowercase for the letters.
pub open spec fn digit_char(d: nat) -> char {
    if d < 10 {
        (48 + d) as char
    } else {
        (87 + d) as char
    }
}

/// The decimal digits of `n`, most significant first, with no leading zero.
pub open spec fn decimal(n: nat) -> Seq<char>
    decreases n,
{
    if n < 10 {
        seq![digit_char(n)]
    } else {
        decimal(n / 10).push(digit_char(n % 10))
    }
}

/// `text` preceded by as many `fill` characters as make it `width` long.
pub open spec fn pad_left(text: Seq<char>, width: nat, fill: char) -> Seq<char> {
    if text.len() < width {
        Seq::new((width - text.len()) as nat, |_i: int| fill) + text
    } else {
        text
    }
}

/// The four lowercase hexadecimal digits of `v`, which is below `0x10000`.
pub open spec fn hex4(v: nat) -> Seq<char> {
    seq![
        digit_char((v / 4096) % 16),
        digit_char((v / 256) % 16),
        digit_char((v / 16) % 16),
        digit_char(v % 16),
    ]
}

/// The value of a hexadecimal digit, in either case.
pub open spec fn hex_value(c: char) -> Option<nat> {
    if '0' <= c && c <= '9' {
        Some((c as nat - 48) as nat)
    } else if 'a' <= c && c <= 'f' {
        Some((c as nat - 87) as nat)
    } else if 'A' <= c && c <= 'F' {
        Some((c as nat - 55) as nat)
    } else {
        None
    }
}

/// The number that four hexadecimal digits spell, if they are all digits.
pub open spec fn parse_hex4(s: Seq<char>) -> Option<nat>
    recommends
        s.len() == 4,
{
    match (hex_value(s[0]), hex_value(s[1]), hex_value(s[2]), hex_value(s[3])) {
        (Some(a), Some(b), Some(c), Some(d)) => Some(((a * 16 + b) * 16 + c) * 16 + d),
        _ => None,
    }
}

/// Whether `pat` occurs in `s` as a run of consecutive characters.
pub open spec fn has_substring(s: Seq<char>, pat: Seq<char>) -> bool {
    exists|i: int| 0 <= i <= s.len() - pat.len() && #[trigger] s.subrange(i, i + pat.len()) == pat
}

/// `template` with its first `marker` replaced by `with`, or unchanged if it has none.
pub open spec fn replace_first(template: Seq<char>, marker: char, with: Seq<char>) -> Seq<char> {
    if exists|i: int| 0 <= i < template.len() && template[i] == marker {
        let i = choose|i: int|
            0 <= i < template.len() && template[i] == marker && forall|j: int|
                0 <= j < i ==> template[j] != marker;
        template.subrange(0, i) + with + template.subrange(i + 1, template.len() as int)
    } else {
        template
    }
}

/// Relies on `String::push`: the character is appended at the end.
#[verifier::external_body]
pub(crate) fn push_char(s: &mut String, c: char)
    ensures
        final(s)@ == old(s)@.push(c),
{
    s.push(c)
}

/// Relies on `str::contains` with a string pattern: true exactly when `pat`
/// is a substring of `s`.
#[verifier::external_body]
pub(crate) fn contains_text(s: &str, pat: &str) -> (r: bool)
    ensures
        r == has_substring(s@, pat@),
{
    s.contains(pat)
}

/// The character of a digit below sixteen.
pub fn digit_to_char(d: u64) -> (c: char)
    requires
        d < 16,
    ensures
        c == digit_char(d as nat),
{
    if d < 10 {
        ((48 + d) as u8) as char
    } else {
        ((87 + d) as u8) as char
    }
}

/// Appends the decimal digits of `n`.
pub fn push_decimal(s: &mut String, n: u64)
    ensures
        final(s)@ == old(s)@ + decimal(n as nat),
    decreases n,
{
    if n >= 10 {
        push_decimal(s, n / 10);
    }
    push_char(s, digit_to_char(n % 10));
    assert(final(s)@ =~= old(s)@ + decimal(n as nat));
}

/// Appends `count` copies of `fill`.
fn push_fill(s: &mut String, count: usize, fill: char)
    ensures
        final(s)@ == old(s)@ + Seq::new(count as nat, |_i: int| fill),
{
    let mut i: usize = 0;
    while i < count
        invariant
            i <= count,
            s@ == old(s)@ + Seq::new(i as nat, |_i: int| fill),
        decreases count - i,
    {
        push_char(s, fill);
        i = i + 1;
        assert(s@ =~= old(s)@ + Seq::new(i as nat, |_i: int| fill));
    }
}

/// Appends the decimal digits of `n`, padded on the left with `fill` to `width`.
pub fn push_decimal_padded(s: &mut String, n: u64, width: usize, fill: char)
    ensures
        final(s)@ == old(s)@ + pad_left(decimal(n as nat), width as nat, fill),
{
    let mut digits = String::new();
    push_decimal(&mut digits, n);
    let len = digits.as_str().unicode_len();
    if len < width {
        push_fill(s, width - len, fill);
    }
    s.append(digits.as_str());
    assert(final(s)@ =~= old(s)@ + pad_left(decimal(n as nat), width as nat, fill));
}

/// Appends the four lowercase hexadecimal digits of `v`.
pub fn push_hex4(s: &mut String, v: u16)
    ensures
        final(s)@ == old(s)@ + hex4(v as nat),
{
    let v = v as u64;
    push_char(s, digit_to_char((v / 4096) % 16));
    push_char(s, digit_to_char((v / 256) % 16));
    push_char(s, digit_to_char((v / 16) % 16));
    push_char(s, digit_to_char(v % 16));
    assert(final(s)@ =~= old(s)@ + hex4(v as nat));
}

/// The value of a hexadecimal digit.
pub fn hex_digit_value(c: char) -> (r: Option<u16>)
    ensures
        r matches Some(v) ==> hex_value(c) == Some(v as nat),
        r is None ==> hex_value(c) is None,
{
    if '0' <= c && c <= '9' {
        Some((c as u32 - 48) as u16)
    } else if 'a' <= c && c <= 'f' {
        Some((c as u32 - 87) as u16)
    } else if 'A' <= c && c <= 'F' {
        Some((c as u32 - 55) as u16)
    } else {
        None
    }
}

/// Reads the four hexadecimal digits of `s` that start at character `from`.
pub fn read_hex4(s: &str, from: usize) -> (r: Option<u16>)
    requires
        from + 4 <= s@.len(),
        from + 4 <= usize::MAX,
    ensures
        r matches Some(v) ==> parse_hex4(s@.subrange(from as int, from + 4)) == Some(v as nat),
        r is None ==> parse_hex4(s@.subrange(from as int, from + 4)) is None,
{
    let ghost part = s@.subrange(from as int, from + 4);
    assert(part[0] == s@[from as int] && part[1] == s@[from + 1] && part[2] == s@[from + 2]
        && part[3] == s@[from + 3]);
    let a = hex_digit_value(s.get_char(from));
    let b = hex_digit_value(s.get_char(from + 1));
    let c = hex_digit_value(s.get_char(from + 2));
    let d = hex_digit_value(s.get_char(from + 3));
    match (a, b, c, d) {
        (Some(a), Some(b), Some(c), Some(d)) => Some(((a * 16 + b) * 16 + c) * 16 + d),
        _ => None,
    }
}

/// `template` with its first `marker` replaced by `with`.
pub fn replace_first_char(template: &str, marker: char, with: &str) -> (r: String)
    ensures
        r@ == replace_first(template@, marker, with@),
{
    let len = template.unicode_len();
    let mut i: usize = 0;
    while i < len
        invariant
            i <= len,
            len == template@.len(),
            forall|j: int| 0 <= j < i ==> template@[j] != marker,
        decreases len - i,
    {
        if template.get_char(i) == marker {
            let mut r = String::from_str(template.substring_char(0, i));
            r.append(with);
            r.append(template.substring_char(i + 1, len));
            assert(replace_first(template@, marker, with@) == r@) by {
                let k = choose|k: int|
                    0 <= k < template@.len() && template@[k] == marker && forall|j: int|
                        0 <= j < k ==> template@[j] != marker;
                assert(k == i as int) by {
                    if k < i {
                    } else if k > i {
                        assert(template@[i as int] == marker);
                    }
                }
            }
            return r;
        }
        i = i + 1;
    }
    String::from_str(template)
}

} // verus!
