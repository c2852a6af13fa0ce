//! Lowercase hexadecimal rendering of byte strings.

use vstd::prelude::*;

verus! {

/// The lowercase hexadecimal digit that stands for a value below sixteen.
pub open spec fn hex_digit(nibble: int) -> char {
    if nibble < 10 {
        (nibble + 48) as char
    } else {
        (nibble + 87) as char
    }
}

/// Whether `c` is one of `0`..`9`, `a`..`f`.
pub open spec fn is_lower_hex(c: char) -> bool {
    ('0' <= c && c <= '9') || ('a' <= c && c <= 'f')
}

/// The hexadecimal text of `bytes`: two digits per byte, high nibble first.
pub open spec fn hex_chars(bytes: Seq<u8>) -> Seq<char> {
    Seq::new(
        2 * bytes.len(),
        |i: int|
            if i % 2 == 0 {
                hex_digit(bytes[i / 2] as int / 16)
            } else {
                hex_digit(bytes[i / 2] as int % 16)
            },
    )
}

/// Every character of a hexadecimal text is a lowercase hexadecimal digit,
/// and the text is twice as long as the bytes it renders.
pub proof fn lemma_hex_chars_shape(bytes: Seq<u8>)
    ensures
        hex_chars(bytes).len() == 2 * bytes.len(),
        forall|i: int| 0 <= i < hex_chars(bytes).len() ==> is_lower_hex(#[trigger] hex_chars(bytes)[i]),
{
    assert forall|i: int| 0 <= i < hex_chars(bytes).len() implies is_lower_hex(
        #[trigger] hex_chars(bytes)[i],
    ) by {
        let b = bytes[i / 2] as int;
        assert(0 <= b / 16 < 16);
        assert(0 <= b % 16 < 16);
    }
}

/// Rendering one more byte appends its two digits.
pub proof fn lemma_hex_chars_push(bytes: Seq<u8>, byte: u8)
    ensures
        hex_chars(bytes.push(byte)) == hex_chars(bytes) + seq![
            hex_digit(byte as int / 16),
            hex_digit(byte as int % 16),
        ],
{
    let left = hex_chars(bytes.push(byte));
    let right = hex_chars(bytes) + seq![hex_digit(byte as int / 16), hex_digit(byte as int % 16)];
    assert(left.len() == right.len());
    assert forall|i: int| 0 <= i < left.len() implies left[i] == right[i] by {
        if i < 2 * bytes.len() {
            assert(bytes.push(byte)[i / 2] == bytes[i / 2]);
        } else {
            assert(i / 2 == bytes.len());
            assert(bytes.push(byte)[i / 2] == byte);
        }
    }
    assert(left =~= right);
}

/// The one-character text of a hexadecimal digit.
fn hex_digit_str(nibble: u8) -> (s: &'static str)
    requires
        nibble < 16,
    ensures
        s@ == seq![hex_digit(nibble as int)],
{
    proof {
        reveal_strlit("0");
        reveal_strlit("1");
        reveal_strlit("2");
        reveal_strlit("3");
        reveal_strlit("4");
        reveal_strlit("5");
        reveal_strlit("6");
        reveal_strlit("7");
        reveal_strlit("8");
        reveal_strlit("9");
        reveal_strlit("a");
        reveal_strlit("b");
        reveal_strlit("c");
        reveal_strlit("d");
        reveal_strlit("e");
        reveal_strlit("f");
    }
    let s = match nibble {
        0 => "0",
        1 => "1",
        2 => "2",
        3 => "3",
        4 => "4",
        5 => "5",
        6 => "6",
        7 => "7",
        8 => "8",
        9 => "9",
        10 => "a",
        11 => "b",
        12 => "c",
        13 => "d",
        14 => "e",
        _ => "f",
    };
    assert(s@ =~= seq![hex_digit(nibble as int)]);
    s
}

/// Renders `slice` as lowercase hexadecimal text, two digits per byte.
///
/// `expected_string_size` is only a hint for the first allocation; it has no
/// effect on the text.
pub fn to_hex_string(slice: &[u8], expected_string_size: usize) -> (result: String)
    requires
        expected_string_size <= isize::MAX,
    ensures
        result@ == hex_chars(slice@),
{
    let mut result = string_with_capacity(expected_string_size);
    let mut i: usize = 0;
    assert(slice@.take(0) =~= Seq::<u8>::empty());
    assert(hex_chars(Seq::<u8>::empty()) =~= Seq::<char>::empty());
    while i < slice.len()
        invariant
            i <= slice.len(),
            result@ == hex_chars(slice@.take(i as int)),
        decreases slice.len() - i,
    {
        let byte = slice[i];
        let high = hex_digit_str(byte / 16);
        let low = hex_digit_str(byte % 16);
        proof {
            lemma_hex_chars_push(slice@.take(i as int), byte);
            assert(slice@.take(i as int).push(byte) =~= slice@.take(i + 1));
            assert(seq![hex_digit(byte as int / 16)] + seq![hex_digit(byte as int % 16)] =~= seq![
                hex_digit(byte as int / 16),
                hex_digit(byte as int % 16),
            ]);
        }
        result.append(high);
        result.append(low);
        i = i + 1;
    }
    assert(slice@.take(slice.len() as int) =~= slice@);
    result
}

/// `String::with_capacity`: an empty string with room for `capacity` bytes.
/// The standard library panics above `isize::MAX`, which `requires` leaves out.
#[verifier::external_body]
fn string_with_capacity(capacity: usize) -> (s: String)
    requires
        capacity <= isize::MAX,
    ensures
        s@ == Seq::<char>::empty(),
{
    String::with_capacity(capacity)
}

} // verus!
