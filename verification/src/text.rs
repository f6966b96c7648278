//! Text helpers shared by the other modules: concatenation, octal numerals,
//! path joining and the test for text that fits a NUL-terminated buffer.

use vstd::prelude::*;
use vstd::slice::slice_to_vec;
use vstd::string::*;
use vstd::utf8::*;

verus! {

/// True when `text`, encoded as UTF-8, holds no zero byte, so that it can be
/// stored in a NUL-terminated buffer without being cut short.
pub open spec fn wire_safe(text: Seq<char>) -> bool {
    !encode_utf8(text).contains(0u8)
}

/// Tells whether `text` can be stored in a NUL-terminated buffer.
pub fn is_wire_safe(text: &str) -> (safe: bool)
    ensures
        safe == wire_safe(text@),
{
    let bytes = text.as_bytes();
    let mut i: usize = 0;
    while i < bytes.len()
        invariant
            i <= bytes.len(),
            bytes@ == encode_utf8(text@),
            forall|j: int| 0 <= j < i ==> bytes@[j] != 0u8,
        decreases bytes.len() - i,
    {
        if bytes[i] == 0 {
            return false;
        }
        i += 1;
    }
    true
}

/// Text made only of ASCII characters other than NUL is wire safe.
pub proof fn lemma_ascii_without_nul_is_wire_safe(text: Seq<char>)
    requires
        is_ascii_chars(text),
        forall|i: int| 0 <= i < text.len() ==> text[i] != '\0',
    ensures
        wire_safe(text),
{
    is_ascii_chars_encode_utf8(text);
    let bytes = encode_utf8(text);
    assert forall|i: int| 0 <= i < bytes.len() implies bytes[i] != 0u8 by {
        assert(bytes[i] == text[i] as u8);
        assert(text[i] != '\0');
    }
}

/// The encoding of two texts, one after the other, is the encoding of the
/// first followed by that of the second.
pub proof fn lemma_encoding_of_two(a: Seq<char>, b: Seq<char>)
    ensures
        encode_utf8(a + b) == encode_utf8(a) + encode_utf8(b),
    decreases a.len(),
{
    if a.len() == 0 {
        assert(a + b =~= b);
        assert(encode_utf8(a) + encode_utf8(b) =~= encode_utf8(b));
    } else {
        let all = a + b;
        assert(all[0] == a[0]);
        assert(all.drop_first() =~= a.drop_first() + b);
        lemma_encoding_of_two(a.drop_first(), b);
        assert(encode_utf8(all) =~= encode_utf8(a) + encode_utf8(b));
    }
}

/// Two texts, one after the other, are wire safe exactly when each is.
pub proof fn lemma_wire_safe_of_two(a: Seq<char>, b: Seq<char>)
    ensures
        wire_safe(a + b) <==> wire_safe(a) && wire_safe(b),
{
    lemma_encoding_of_two(a, b);
    let ea = encode_utf8(a);
    let eb = encode_utf8(b);
    let all = ea + eb;
    if all.contains(0u8) {
        let i = choose|i: int| 0 <= i < all.len() && all[i] == 0u8;
        if i < ea.len() {
            assert(ea[i] == 0u8);
        } else {
            assert(eb[i - ea.len()] == 0u8);
        }
    }
    if ea.contains(0u8) {
        let i = choose|i: int| 0 <= i < ea.len() && ea[i] == 0u8;
        assert(all[i] == 0u8);
    }
    if eb.contains(0u8) {
        let i = choose|i: int| 0 <= i < eb.len() && eb[i] == 0u8;
        assert(all[i + ea.len()] == 0u8);
    }
}

/// `a` followed by `b`.
pub fn followed_by(a: &str, b: &str) -> (r: String)
    ensures
        r@ == a@ + b@,
{
    let mut r = String::from_str(a);
    r.append(b);
    r
}

/// The character that writes the octal digit `d`.
pub open spec fn octal_digit(d: nat) -> char {
    if d == 0 {
        '0'
    } else if d == 1 {
        '1'
    } else if d == 2 {
        '2'
    } else if d == 3 {
        '3'
    } else if d == 4 {
        '4'
    } else if d == 5 {
        '5'
    } else if d == 6 {
        '6'
    } else {
        '7'
    }
}

/// The octal numeral of `n`, most significant digit first, without padding.
pub open spec fn octal_digits(n: nat) -> Seq<char>
    decreases n,
{
    if n < 8 {
        seq![octal_digit(n)]
    } else {
        octal_digits(n / 8).push(octal_digit(n % 8))
    }
}

/// An octal numeral is wire safe.
pub proof fn lemma_octal_digits_are_wire_safe(n: nat)
    ensures
        wire_safe(octal_digits(n)),
    decreases n,
{
    if n < 8 {
        lemma_ascii_without_nul_is_wire_safe(octal_digits(n));
    } else {
        lemma_octal_digits_are_wire_safe(n / 8);
        let last = seq![octal_digit(n % 8)];
        lemma_ascii_without_nul_is_wire_safe(last);
        assert(octal_digits(n) =~= octal_digits(n / 8) + last);
        lemma_wire_safe_of_two(octal_digits(n / 8), last);
    }
}

fn octal_digit_text(d: u32) -> (s: &'static str)
    requires
        d < 8,
    ensures
        s@ == seq![octal_digit(d as nat)],
{
    proof {
        reveal_strlit("0");
        reveal_strlit("1");
        reveal_strlit("2");
        reveal_strlit("3");
        reveal_strlit("4");
        reveal_strlit("5");
        reveal_strlit("6");
        reveal_strlit("7");
    }
    let s = if d == 0 {
        "0"
    } else if d == 1 {
        "1"
    } else if d == 2 {
        "2"
    } else if d == 3 {
        "3"
    } else if d == 4 {
        "4"
    } else if d == 5 {
        "5"
    } else if d == 6 {
        "6"
    } else {
        "7"
    };
    assert(s@ =~= seq![octal_digit(d as nat)]);
    s
}

/// Writes `value` in octal, as `{:o}` formatting does.
pub fn octal_text(value: u32) -> (r: String)
    ensures
        r@ == octal_digits(value as nat),
    decreases value,
{
    if value < 8 {
        String::from_str(octal_digit_text(value))
    } else {
        let mut r = octal_text(value / 8);
        r.append(octal_digit_text(value % 8));
        assert(r@ =~= octal_digits((value / 8) as nat).push(octal_digit((value % 8) as nat)));
        r
    }
}

/// The byte that separates the names of a path.
pub const SEPARATOR: u8 = 0x2f;

/// True when `name` starts at the root, so that joining it to a base
/// replaces the base.
pub open spec fn is_absolute(name: Seq<u8>) -> bool {
    name.len() > 0 && name[0] == SEPARATOR
}

/// `name` resolved against the directory `base`, both as the bytes that the
/// host knows a path by, with `/` as the separator: an absolute `name` stands
/// alone, otherwise it follows `base`, with one separator put between the two
/// unless `base` is empty or ends in one.
pub open spec fn joined(base: Seq<u8>, name: Seq<u8>) -> Seq<u8> {
    if is_absolute(name) {
        name
    } else if base.len() == 0 || base.last() == SEPARATOR {
        base + name
    } else {
        base + seq![SEPARATOR] + name
    }
}

/// Resolves `name` against the directory `base`. A name need not be text: the
/// bytes of both are kept as they are.
pub fn join_path(base: &[u8], name: &[u8]) -> (r: Vec<u8>)
    ensures
        r@ == joined(base@, name@),
{
    if name.len() > 0 && name[0] == SEPARATOR {
        return slice_to_vec(name);
    }
    let mut r = slice_to_vec(base);
    if base.len() > 0 && base[base.len() - 1] != SEPARATOR {
        r.push(SEPARATOR);
    }
    let mut tail = slice_to_vec(name);
    r.append(&mut tail);
    r
}

} // verus!
