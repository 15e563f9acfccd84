//! Text utilities: case folding and decimal rendering.

use vstd::prelude::*;
use vstd::string::StringExecFns;

verus! {

/// What `str::to_lowercase` returns: a function of the characters alone.
pub uninterp spec fn lower_of(s: Seq<char>) -> Seq<char>;

/// Every character is plain ASCII.
pub open spec fn spec_all_ascii(s: Seq<char>) -> bool {
    forall|i: int| 0 <= i < s.len() ==> #[trigger] (s[i] as u32) < 128
}

/// The ASCII lowercase of one character: the uppercase letters mapped
/// down, everything else kept.
pub open spec fn spec_ascii_lower(c: char) -> char {
    if 65 <= c as u32 <= 90 {
        ((c as u32) + 32) as char
    } else {
        c
    }
}

/// Relies on `str::to_lowercase`: the result depends on the characters
/// alone; an empty string stays empty; and on all-ASCII input the
/// Unicode lowercase mapping is exactly the pointwise ASCII lowercase.
#[verifier::external_body]
pub fn to_lowercase(s: &str) -> (r: String)
    ensures
        r@ == lower_of(s@),
        s@.len() == 0 ==> r@.len() == 0,
        spec_all_ascii(s@) ==> r@ == s@.map_values(|c: char| spec_ascii_lower(c)),
{
    s.to_lowercase()
}

/// The decimal digit character for a value below ten.
pub open spec fn spec_digit(d: int) -> char {
    if d == 0 {
        '0'
    } else if d == 1 {
        '1'
    } else if d == 2 {
        '2'
    } else if d == 3 {
        '3'
    } else if d == 4 {
        '4'
    } else if d == 5 {
        '5'
    } else if d == 6 {
        '6'
    } else if d == 7 {
        '7'
    } else if d == 8 {
        '8'
    } else {
        '9'
    }
}

/// The decimal rendering of a non-negative number.
pub open spec fn spec_dec(n: int) -> Seq<char>
    decreases n,
{
    if n < 10 {
        seq![spec_digit(n)]
    } else {
        spec_dec(n / 10) + seq![spec_digit(n % 10)]
    }
}

/// The one-character string for a digit.
fn digit_str(d: u64) -> (r: &'static str)
    requires
        d < 10,
    ensures
        r@ == seq![spec_digit(d as int)],
{
    proof {
        reveal_strlit("0");
        reveal_strlit("1");
        reveal_strlit("2");
        reveal_strlit("3");
        reveal_strlit("4");
        reveal_strlit("5");
        reveal_strlit("6");
        reveal_strlit("7");
        reveal_strlit("8");
        reveal_strlit("9");
    }
    let r = if d == 0 {
        "0"
    } else if d == 1 {
        "1"
    } else if d == 2 {
        "2"
    } else if d == 3 {
        "3"
    } else if d == 4 {
        "4"
    } else if d == 5 {
        "5"
    } else if d == 6 {
        "6"
    } else if d == 7 {
        "7"
    } else if d == 8 {
        "8"
    } else {
        "9"
    };
    proof {
        assert(r@ =~= seq![spec_digit(d as int)]);
    }
    r
}

/// The items joined with `sep` between neighbours.
pub open spec fn spec_join(items: Seq<Seq<char>>, sep: Seq<char>) -> Seq<char>
    decreases items.len(),
{
    if items.len() == 0 {
        Seq::empty()
    } else if items.len() == 1 {
        items[0]
    } else {
        spec_join(items.drop_last(), sep) + sep + items.last()
    }
}

/// Join strings with a separator between neighbours.
pub fn join_with(items: &Vec<String>, sep: &str) -> (r: String)
    ensures
        r@ == spec_join(items@.map_values(|s: String| s@), sep@),
{
    let mut out = String::new();
    let n = items.len();
    let mut i: usize = 0;
    while i < n
        invariant
            n == items@.len(),
            0 <= i <= n,
            out@ == spec_join(items@.subrange(0, i as int).map_values(|s: String| s@), sep@),
        decreases n - i,
    {
        let ghost prefix = items@.subrange(0, i as int).map_values(|s: String| s@);
        if i > 0 {
            out.append(sep);
        }
        out.append(items[i].as_str());
        proof {
            let next = items@.subrange(0, i + 1).map_values(|s: String| s@);
            assert(next.drop_last() =~= prefix);
            assert(next.last() == items@[i as int]@);
            if i == 0 {
                assert(next.len() == 1);
                assert(out@ =~= next[0]);
            }
            assert(out@ =~= spec_join(next, sep@));
        }
        i += 1;
    }
    proof {
        assert(items@.subrange(0, n as int) =~= items@);
    }
    out
}

/// How many bytes of `s` equal `b`.
pub open spec fn spec_count_byte(s: Seq<u8>, b: u8) -> int
    decreases s.len(),
{
    if s.len() == 0 {
        0
    } else {
        spec_count_byte(s.drop_last(), b) + if s.last() == b {
            1int
        } else {
            0int
        }
    }
}

/// The count of one byte value never exceeds the length.
pub proof fn lemma_count_byte_le_len(s: Seq<u8>, b: u8)
    ensures
        0 <= spec_count_byte(s, b) <= s.len(),
    decreases s.len(),
{
    if s.len() > 0 {
        lemma_count_byte_le_len(s.drop_last(), b);
    }
}

/// Count how many bytes of `s` equal `b`.
pub fn count_byte(s: &[u8], b: u8) -> (r: usize)
    ensures
        r == spec_count_byte(s@, b),
{
    let n = s.len();
    let mut count: usize = 0;
    let mut i: usize = 0;
    while i < n
        invariant
            n == s@.len(),
            0 <= i <= n,
            count == spec_count_byte(s@.subrange(0, i as int), b),
            count <= i,
        decreases n - i,
    {
        proof {
            lemma_count_byte_le_len(s@.subrange(0, i as int), b);
            let next = s@.subrange(0, i + 1);
            assert(next.drop_last() =~= s@.subrange(0, i as int));
            assert(next.last() == s@[i as int]);
        }
        if s[i] == b {
            count += 1;
        }
        i += 1;
    }
    proof {
        assert(s@.subrange(0, n as int) =~= s@);
    }
    count
}

/// A sequence of bytes below 0x80 is valid UTF-8 and decodes to the same
/// values as characters.
pub proof fn lemma_ascii_bytes_valid_utf8(s: Seq<u8>)
    requires
        forall|i: int| 0 <= i < s.len() ==> s[i] < 128,
    ensures
        vstd::utf8::valid_utf8(s),
        vstd::utf8::decode_utf8(s) == s.map_values(|b: u8| b as char),
    decreases s.len(),
{
    if s.len() > 0 {
        let b = s[0];
        assert(b < 128);
        assert(b < 128 ==> (b & 0x7f) == b) by (bit_vector);
        assert(vstd::utf8::is_leading_byte_width_1(b));
        assert(vstd::utf8::valid_leading_and_continuation_bytes_first_codepoint(s));
        assert(vstd::utf8::decode_first_codepoint(s) == b as u32);
        assert(vstd::utf8::not_overlong_encoding(b as u32, 1));
        assert(vstd::utf8::not_surrogate(b as u32));
        assert(vstd::utf8::valid_first_scalar(s));
        assert(vstd::utf8::length_of_first_codepoint(s) == 1);
        assert(forall|i: int|
            0 <= i < s.drop_first().len() ==> #[trigger] s.drop_first()[i] == s[i + 1]);
        lemma_ascii_bytes_valid_utf8(s.drop_first());
        assert(vstd::utf8::pop_first_scalar(s) =~= s.drop_first());
        assert(vstd::utf8::valid_utf8(s));
        assert(vstd::utf8::decode_first_scalar(s) == b as u32);
        assert((b as u32) as char == b as char);
        assert(vstd::utf8::decode_utf8(s) =~= s.map_values(|b2: u8| b2 as char));
    } else {
        assert(vstd::utf8::decode_utf8(s) =~= s.map_values(|b2: u8| b2 as char));
    }
}

/// Relies on `String::from_utf8`: succeeds exactly on valid UTF-8,
/// decoding the bytes.
#[verifier::external_body]
pub fn utf8_to_string(bytes: &[u8]) -> (r: Option<String>)
    ensures
        r is Some <==> vstd::utf8::valid_utf8(bytes@),
        r is Some ==> r->0@ == vstd::utf8::decode_utf8(bytes@),
{
    std::string::String::from_utf8(bytes.to_vec()).ok()
}

/// What `String::from_utf8_lossy` returns, as bytes: a function of the
/// input bytes alone.
pub uninterp spec fn utf8_lossy_bytes(b: Seq<u8>) -> Seq<u8>;

/// Relies on `String::from_utf8_lossy`: invalid sequences are replaced,
/// valid input is returned unchanged.
#[verifier::external_body]
pub fn utf8_lossy(bytes: &[u8]) -> (r: String)
    ensures
        vstd::utf8::encode_utf8(r@) == utf8_lossy_bytes(bytes@),
        vstd::utf8::valid_utf8(bytes@) ==> r@ == vstd::utf8::decode_utf8(bytes@),
{
    std::string::String::from_utf8_lossy(bytes).into_owned()
}

/// Render a number in decimal.
pub fn u64_to_string(n: u64) -> (r: String)
    ensures
        r@ == spec_dec(n as int),
    decreases n,
{
    if n < 10 {
        digit_str(n).to_owned()
    } else {
        let mut s = u64_to_string(n / 10);
        s.append(digit_str(n % 10));
        proof {
            assert(s@ =~= spec_dec(n as int));
        }
        s
    }
}

} // verus!
