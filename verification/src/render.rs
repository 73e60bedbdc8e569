//! Rendering bytes as text: firmware version fields and hex output.
//!
//! A version field is 4 raw bytes shown as the first byte in uppercase
//! hex, the second in decimal, a dot, then the last two in decimal —
//! e.g. `[0x1A, 5, 0, 3]` is `"1A5.03"`. A firmware image is shown as
//! lowercase hex, two digits per byte.

use vstd::prelude::*;
use crate::text::ascii_chars_of;
use crate::text::ascii_to_string;

verus! {

/// The character for a decimal digit value.
pub open spec fn dec_digit(d: u8) -> char
    recommends
        d < 10,
{
    ((48 + d) as u8) as char
}

/// The uppercase character for a hex digit value.
pub open spec fn hex_upper_digit(d: u8) -> char
    recommends
        d < 16,
{
    if d < 10 {
        ((48 + d) as u8) as char
    } else {
        ((55 + d) as u8) as char
    }
}

/// The lowercase character for a hex digit value.
pub open spec fn hex_lower_digit(d: u8) -> char
    recommends
        d < 16,
{
    if d < 10 {
        ((48 + d) as u8) as char
    } else {
        ((87 + d) as u8) as char
    }
}

/// A byte in decimal, without leading zeros.
pub open spec fn dec_chars(b: u8) -> Seq<char> {
    if b >= 100 {
        seq![
            dec_digit((b / 100) as u8),
            dec_digit(((b / 10) % 10) as u8),
            dec_digit((b % 10) as u8),
        ]
    } else if b >= 10 {
        seq![dec_digit((b / 10) as u8), dec_digit((b % 10) as u8)]
    } else {
        seq![dec_digit(b)]
    }
}

/// A byte in uppercase hex, without leading zeros.
pub open spec fn hex_upper_chars(b: u8) -> Seq<char> {
    if b >= 16 {
        seq![hex_upper_digit((b / 16) as u8), hex_upper_digit((b % 16) as u8)]
    } else {
        seq![hex_upper_digit(b)]
    }
}

/// A 4-byte version field as text: first byte in uppercase hex, second
/// in decimal, a dot, then the third and fourth in decimal.
pub open spec fn version_chars(v: Seq<u8>) -> Seq<char>
    recommends
        v.len() == 4,
{
    hex_upper_chars(v[0]) + dec_chars(v[1]) + seq!['.'] + dec_chars(v[2]) + dec_chars(v[3])
}

/// A byte sequence in lowercase hex, two digits per byte, in order.
pub open spec fn hex_chars(bytes: Seq<u8>) -> Seq<char>
    decreases bytes.len(),
{
    if bytes.len() == 0 {
        Seq::empty()
    } else {
        seq![
            hex_lower_digit((bytes[0] / 16) as u8),
            hex_lower_digit((bytes[0] % 16) as u8),
        ] + hex_chars(bytes.drop_first())
    }
}

/// Append the decimal digits of `b`.
fn push_dec(buf: &mut Vec<u8>, b: u8)
    requires
        forall|i: int| 0 <= i < old(buf)@.len() ==> old(buf)@[i] < 0x80,
    ensures
        forall|i: int| 0 <= i < final(buf)@.len() ==> final(buf)@[i] < 0x80,
        ascii_chars_of(final(buf)@) == ascii_chars_of(old(buf)@) + dec_chars(b),
{
    if b >= 100 {
        buf.push(48 + b / 100);
        buf.push(48 + (b / 10) % 10);
        buf.push(48 + b % 10);
    } else if b >= 10 {
        buf.push(48 + b / 10);
        buf.push(48 + b % 10);
    } else {
        buf.push(48 + b);
    }
    proof {
        assert(ascii_chars_of(buf@) =~= ascii_chars_of(old(buf)@) + dec_chars(b));
    }
}

/// Append the uppercase hex digits of `b`, without leading zeros.
fn push_hex_upper(buf: &mut Vec<u8>, b: u8)
    requires
        forall|i: int| 0 <= i < old(buf)@.len() ==> old(buf)@[i] < 0x80,
    ensures
        forall|i: int| 0 <= i < final(buf)@.len() ==> final(buf)@[i] < 0x80,
        ascii_chars_of(final(buf)@) == ascii_chars_of(old(buf)@) + hex_upper_chars(b),
{
    if b >= 16 {
        let hi: u8 = b / 16;
        let lo: u8 = b % 16;
        buf.push(if hi < 10 {
            48 + hi
        } else {
            55 + hi
        });
        buf.push(if lo < 10 {
            48 + lo
        } else {
            55 + lo
        });
    } else {
        buf.push(if b < 10 {
            48 + b
        } else {
            55 + b
        });
    }
    proof {
        assert(ascii_chars_of(buf@) =~= ascii_chars_of(old(buf)@) + hex_upper_chars(b));
    }
}

/// Append the two lowercase hex digits of `b`.
fn push_hex_pair(buf: &mut Vec<u8>, b: u8)
    requires
        forall|i: int| 0 <= i < old(buf)@.len() ==> old(buf)@[i] < 0x80,
    ensures
        forall|i: int| 0 <= i < final(buf)@.len() ==> final(buf)@[i] < 0x80,
        ascii_chars_of(final(buf)@) == ascii_chars_of(old(buf)@) + seq![
            hex_lower_digit((b / 16) as u8),
            hex_lower_digit((b % 16) as u8),
        ],
{
    let hi: u8 = b / 16;
    let lo: u8 = b % 16;
    buf.push(if hi < 10 {
        48 + hi
    } else {
        87 + hi
    });
    buf.push(if lo < 10 {
        48 + lo
    } else {
        87 + lo
    });
    proof {
        assert(ascii_chars_of(buf@) =~= ascii_chars_of(old(buf)@) + seq![
            hex_lower_digit((b / 16) as u8),
            hex_lower_digit((b % 16) as u8),
        ]);
    }
}

/// Render a 4-byte version field, e.g. `[0x1A, 5, 0, 3]` as `"1A5.03"`.
pub fn render_version(v: &[u8]) -> (s: String)
    requires
        v@.len() == 4,
    ensures
        s@ == version_chars(v@),
{
    let mut buf: Vec<u8> = Vec::new();
    push_hex_upper(&mut buf, v[0]);
    push_dec(&mut buf, v[1]);
    let ghost before_dot = buf@;
    buf.push(46);
    proof {
        assert('.' == 46u8 as char);
        assert(ascii_chars_of(buf@) =~= ascii_chars_of(before_dot) + seq!['.']);
    }
    push_dec(&mut buf, v[2]);
    push_dec(&mut buf, v[3]);
    proof {
        assert(ascii_chars_of(buf@) =~= version_chars(v@));
    }
    ascii_to_string(buf)
}

/// Appending a byte appends its two hex digits.
proof fn lemma_hex_chars_push(s: Seq<u8>, x: u8)
    ensures
        hex_chars(s.push(x)) == hex_chars(s) + seq![
            hex_lower_digit((x / 16) as u8),
            hex_lower_digit((x % 16) as u8),
        ],
    decreases s.len(),
{
    if s.len() == 0 {
        let pair_x = seq![hex_lower_digit((x / 16) as u8), hex_lower_digit((x % 16) as u8)];
        assert(s.push(x).drop_first() =~= s);
        assert(s.push(x)[0] == x);
        assert(hex_chars(s.push(x)) == pair_x + hex_chars(s));
        assert(hex_chars(s) =~= Seq::empty());
        assert(hex_chars(s.push(x)) =~= hex_chars(s) + pair_x);
    } else {
        let pair_x = seq![hex_lower_digit((x / 16) as u8), hex_lower_digit((x % 16) as u8)];
        let pair_0 = seq![
            hex_lower_digit((s[0] / 16) as u8),
            hex_lower_digit((s[0] % 16) as u8),
        ];
        assert(s.push(x).drop_first() =~= s.drop_first().push(x));
        assert(s.push(x)[0] == s[0]);
        assert(hex_chars(s.push(x)) == pair_0 + hex_chars(s.drop_first().push(x)));
        lemma_hex_chars_push(s.drop_first(), x);
        assert(hex_chars(s.drop_first().push(x)) == hex_chars(s.drop_first()) + pair_x);
        assert(hex_chars(s) == pair_0 + hex_chars(s.drop_first()));
        assert(pair_0 + (hex_chars(s.drop_first()) + pair_x) =~= (pair_0 + hex_chars(
            s.drop_first(),
        )) + pair_x);
        assert(hex_chars(s.push(x)) =~= hex_chars(s) + pair_x);
    }
}

/// Render a byte sequence as lowercase hex, two digits per byte.
pub fn encode_hex(data: &Vec<u8>) -> (s: String)
    ensures
        s@ == hex_chars(data@),
{
    let mut buf: Vec<u8> = Vec::new();
    let mut i: usize = 0;
    while i < data.len()
        invariant
            i <= data@.len(),
            forall|j: int| 0 <= j < buf@.len() ==> buf@[j] < 0x80,
            ascii_chars_of(buf@) == hex_chars(data@.take(i as int)),
        decreases data@.len() - i,
    {
        push_hex_pair(&mut buf, data[i]);
        proof {
            assert(data@.take(i + 1) =~= data@.take(i as int).push(data@[i as int]));
            lemma_hex_chars_push(data@.take(i as int), data@[i as int]);
        }
        i = i + 1;
    }
    proof {
        assert(data@.take(data@.len() as int) =~= data@);
    }
    ascii_to_string(buf)
}

} // verus!
