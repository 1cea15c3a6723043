//! Texts that are handed to libpq, and the decimal numbers inside them.
use crate::error::NulError;
use vstd::prelude::*;
use vstd::utf8::encode_utf8;

verus! {

/// The text holds a NUL character.
pub open spec fn has_nul(text: Seq<char>) -> bool {
    text.contains('\0')
}

/// The byte at `position` is the first NUL byte of `bytes`.
pub open spec fn first_nul(bytes: Seq<u8>, position: int) -> bool {
    &&& 0 <= position < bytes.len()
    &&& bytes[position] == 0
    &&& forall|i: int| 0 <= i < position ==> #[trigger] bytes[i] != 0
}

/// The bytes of a text without a NUL byte in it, as libpq takes it.
///
/// The terminating NUL byte is not part of the bytes: whoever calls libpq adds it.
#[derive(Debug, PartialEq, Eq)]
pub struct CString {
    bytes: Vec<u8>,
}

impl View for CString {
    type V = Seq<u8>;

    closed spec fn view(&self) -> Seq<u8> {
        self.bytes@
    }
}

impl CString {
    /// Takes over the UTF-8 bytes of `text`; refuses a text with a NUL character in it.
    pub fn new(text: &str) -> (result: Result<CString, NulError>)
        ensures
            result is Err <==> has_nul(text@),
            result matches Ok(string) ==> string@ == encode_utf8(text@) && !string@.contains(0),
            result matches Err(nul) ==> {
                &&& first_nul(encode_utf8(text@), nul.position as int)
                &&& nul.data@ == text@
            },
    {
        let source: &[u8] = text.as_bytes();
        let mut bytes: Vec<u8> = Vec::new();
        let mut next: usize = 0;
        while next < source.len()
            invariant
                next <= source@.len(),
                source@ == encode_utf8(text@),
                bytes@ == source@.take(next as int),
                forall|i: int| 0 <= i < next ==> #[trigger] source@[i] != 0,
            decreases source@.len() - next,
        {
            let byte: u8 = source[next];
            if byte == 0 {
                proof {
                    assert(source@.contains(0u8));
                    lemma_nul_bytes(text@);
                }
                return Err(NulError { position: next, data: text.to_owned() });
            }
            bytes.push(byte);
            next += 1;
            proof {
                assert(bytes@ =~= source@.take(next as int));
            }
        }
        proof {
            assert(bytes@ =~= source@);
            lemma_nul_bytes(text@);
        }
        Ok(CString { bytes })
    }

    /// The bytes, without a terminating NUL byte.
    pub fn as_bytes(&self) -> (bytes: &[u8])
        ensures
            bytes@ == self@,
    {
        self.bytes.as_slice()
    }
}

/// Every byte of an encoding that takes more than one byte has its top bit set.
proof fn lemma_wide_encodings(scalar: u32)
    by (bit_vector)
    ensures
        vstd::utf8::leading_byte_width_2(scalar) != 0,
        vstd::utf8::leading_byte_width_3(scalar) != 0,
        vstd::utf8::leading_byte_width_4(scalar) != 0,
        vstd::utf8::last_continuation_byte(scalar) != 0,
        vstd::utf8::second_last_continuation_byte(scalar) != 0,
        vstd::utf8::third_last_continuation_byte(scalar) != 0,
{
}

proof fn lemma_narrow_encoding(scalar: u32)
    by (bit_vector)
    requires
        vstd::utf8::has_width_1_encoding(scalar),
    ensures
        vstd::utf8::leading_byte_width_1(scalar) == 0 <==> scalar == 0,
{
}

/// Only the NUL character is encoded with a NUL byte.
pub proof fn lemma_nul_bytes(text: Seq<char>)
    ensures
        encode_utf8(text).contains(0) <==> has_nul(text),
    decreases text.len(),
{
    if text.len() > 0 {
        let scalar = text[0] as u32;
        let first = vstd::utf8::encode_scalar(scalar);
        let rest = text.drop_first();
        lemma_nul_bytes(rest);
        lemma_wide_encodings(scalar);
        vstd::utf8::char_is_scalar(text[0]);
        vstd::utf8::char_u32_cast(text[0], scalar);
        if vstd::utf8::has_width_1_encoding(scalar) {
            lemma_narrow_encoding(scalar);
        }
        assert(first.contains(0) <==> text[0] == '\0') by {
            if text[0] == '\0' {
                assert(first[0] == 0);
            }
        }
        assert(encode_utf8(text) == first + encode_utf8(rest));
        assert(text =~= seq![text[0]] + rest);
        if encode_utf8(text).contains(0) {
            let i = choose|i: int| 0 <= i < encode_utf8(text).len() && encode_utf8(text)[i] == 0;
            if i < first.len() {
                assert(first[i] == 0);
                assert(text[0] == '\0');
            } else {
                assert(encode_utf8(rest)[i - first.len()] == 0);
                let j = choose|j: int| 0 <= j < rest.len() && rest[j] == '\0';
                assert(text[j + 1] == '\0');
            }
        }
        if has_nul(text) {
            let j = choose|j: int| 0 <= j < text.len() && text[j] == '\0';
            if j == 0 {
                let i = choose|i: int| 0 <= i < first.len() && first[i] == 0;
                assert(encode_utf8(text)[i] == 0);
            } else {
                assert(rest[j - 1] == '\0');
                let i = choose|i: int|
                    0 <= i < encode_utf8(rest).len() && encode_utf8(rest)[i] == 0;
                assert(encode_utf8(text)[i + first.len()] == 0);
            }
        }
    }
}

/// The decimal digit of a number below ten.
pub open spec fn digit(n: nat) -> char {
    (48 + n) as char
}

/// The decimal digits of a number, without leading zeros.
pub open spec fn decimal(n: nat) -> Seq<char>
    decreases n,
{
    if n < 10 {
        seq![digit(n)]
    } else {
        decimal(n / 10).push(digit(n % 10))
    }
}

fn digit_text(n: u32) -> (text: &'static str)
    requires
        n < 10,
    ensures
        text@ == seq![digit(n as nat)],
{
    proof {
        reveal_strlit("0");
        reveal_strlit("1");
        reveal_strlit("2");
        reveal_strlit("3");
        reveal_strlit("4");
        reveal_strlit("5");
        reveal_strlit("6");
        reveal_strlit("7");
        reveal_strlit("8");
        reveal_strlit("9");
    }
    let text: &'static str = match n {
        0 => "0",
        1 => "1",
        2 => "2",
        3 => "3",
        4 => "4",
        5 => "5",
        6 => "6",
        7 => "7",
        8 => "8",
        _ => "9",
    };
    proof {
        assert(text@ =~= seq![digit(n as nat)]);
    }
    text
}

/// Writes `number` in decimal behind `text`.
pub fn append_decimal(text: &mut String, number: u32)
    ensures
        final(text)@ == old(text)@ + decimal(number as nat),
    decreases number,
{
    if number >= 10 {
        append_decimal(text, number / 10);
    }
    text.append(digit_text(number % 10));
    proof {
        assert(text@ =~= old(text)@ + decimal(number as nat));
    }
}

/// Decimal digits are not NUL.
pub proof fn lemma_decimal_has_no_nul(n: nat)
    ensures
        !has_nul(decimal(n)),
    decreases n,
{
    if n >= 10 {
        lemma_decimal_has_no_nul(n / 10);
        assert forall|i: int| 0 <= i < decimal(n).len() implies decimal(n)[i] != '\0' by {
            if i < decimal(n / 10).len() {
                assert(decimal(n)[i] == decimal(n / 10)[i]);
            }
        }
    }
}

proof fn lemma_last_digit(n: nat)
    ensures
        decimal(n).len() > 0,
        decimal(n).last() == digit(n % 10),
        n >= 10 ==> decimal(n).drop_last() == decimal(n / 10),
        n < 10 <==> decimal(n).len() == 1,
{
    if n >= 10 {
        assert(decimal(n).drop_last() =~= decimal(n / 10));
        lemma_decimal_is_not_empty(n / 10);
    }
}

proof fn lemma_decimal_is_not_empty(n: nat)
    ensures
        decimal(n).len() > 0,
{
}

/// Different numbers are written differently.
pub proof fn lemma_decimal_is_injective(a: nat, b: nat)
    requires
        decimal(a) == decimal(b),
    ensures
        a == b,
    decreases a,
{
    lemma_last_digit(a);
    lemma_last_digit(b);
    assert(a % 10 == b % 10);
    if a >= 10 {
        lemma_decimal_is_injective(a / 10, b / 10);
    }
}

} // verus!
