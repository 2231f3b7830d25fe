use vstd::prelude::*;
use vstd::utf8::is_continuation_byte;
use vstd::string::StringSliceAdditionalSpecFns;

use crate::text::{decimal, push_char, u64_to_decimal};

verus! {

broadcast use vstd::string::group_string_axioms;

/// Value of an ASCII hex digit (either case).
pub open spec fn hex_digit_value(b: u8) -> Option<nat> {
    if 48 <= b <= 57 {
        Some((b - 48) as nat)
    } else if 97 <= b <= 102 {
        Some((b - 87) as nat)
    } else if 65 <= b <= 70 {
        Some((b - 55) as nat)
    } else {
        None
    }
}

/// `u8::from_str_radix` on a two-byte string in radix 16: an optional `+`
/// followed by hex digits.
pub open spec fn radix16_pair(a: u8, b: u8) -> Option<u8> {
    if a == 43 {
        match hex_digit_value(b) {
            Some(v) => Some(v as u8),
            None => None,
        }
    } else {
        match (hex_digit_value(a), hex_digit_value(b)) {
            (Some(x), Some(y)) => Some((16 * x + y) as u8),
            _ => None,
        }
    }
}

/// `str::is_char_boundary` on the bytes of a string.
pub open spec fn byte_boundary(bytes: Seq<u8>, i: int) -> bool {
    i == bytes.len() || (0 <= i < bytes.len() && !is_continuation_byte(bytes[i]))
}

/// The byte ranges `hex_to_ipv4` slices exist: at least 16 bytes, with a
/// character boundary at every even offset up to 16.
pub open spec fn hex_to_ipv4_slices_ok(bytes: Seq<u8>) -> bool {
    &&& bytes.len() >= 16
    &&& forall|k: int| 0 <= k <= 8 ==> #[trigger] byte_boundary(bytes, 2 * k)
}

/// The byte parsed from the `k`-th hex pair.
pub open spec fn hex_pair(bytes: Seq<u8>, k: int) -> Option<u8> {
    radix16_pair(bytes[2 * k], bytes[2 * k + 1])
}

/// `a.b.c.d` in decimal.
pub open spec fn dotted_quad(a: u8, b: u8, c: u8, d: u8) -> Seq<char> {
    decimal(a as nat) + seq!['.'] + decimal(b as nat) + seq!['.'] + decimal(c as nat) + seq!['.']
        + decimal(d as nat)
}

/// What `hex_to_ipv4` gives for the bytes of its argument: when the first
/// 8 hex pairs all parse, the dotted quad of pairs 4 to 7.
pub open spec fn hex_to_ipv4_spec(bytes: Seq<u8>) -> Option<Seq<char>> {
    if forall|k: int| 0 <= k < 8 ==> (#[trigger] hex_pair(bytes, k)) is Some {
        Some(
            dotted_quad(
                hex_pair(bytes, 4)->0,
                hex_pair(bytes, 5)->0,
                hex_pair(bytes, 6)->0,
                hex_pair(bytes, 7)->0,
            ),
        )
    } else {
        None
    }
}

fn hex_value(b: u8) -> (r: Option<u8>)
    ensures
        r matches Some(v) ==> hex_digit_value(b) == Some(v as nat),
        r is None ==> hex_digit_value(b) is None,
{
    if 48 <= b && b <= 57 {
        Some(b - 48)
    } else if 97 <= b && b <= 102 {
        Some(b - 87)
    } else if 65 <= b && b <= 70 {
        Some(b - 55)
    } else {
        None
    }
}

fn parse_pair(a: u8, b: u8) -> (r: Option<u8>)
    ensures
        r == radix16_pair(a, b),
{
    if a == 43 {
        hex_value(b)
    } else {
        match (hex_value(a), hex_value(b)) {
            (Some(x), Some(y)) => Some(16 * x + y),
            _ => None,
        }
    }
}

fn dotted_quad_string(a: u8, b: u8, c: u8, d: u8) -> (s: String)
    ensures
        s@ == dotted_quad(a, b, c, d),
{
    let mut s = u64_to_decimal(a as u64);
    push_char(&mut s, '.');
    let t = u64_to_decimal(b as u64);
    s.append(t.as_str());
    push_char(&mut s, '.');
    let t = u64_to_decimal(c as u64);
    s.append(t.as_str());
    push_char(&mut s, '.');
    let t = u64_to_decimal(d as u64);
    s.append(t.as_str());
    assert(s@ =~= dotted_quad(a, b, c, d));
    s
}

/// Reads 8 hex pairs (bytes 0..16) and formats pairs 4 to 7 as a dotted
/// IPv4 address; `None` when a pair does not parse.
pub fn hex_to_ipv4(hex_str: &str) -> (r: Option<String>)
    requires
        hex_to_ipv4_slices_ok(hex_str.spec_bytes()),
    ensures
        match r {
            Some(s) => hex_to_ipv4_spec(hex_str.spec_bytes()) == Some(s@),
            None => hex_to_ipv4_spec(hex_str.spec_bytes()) is None,
        },
{
    let bytes = hex_str.as_bytes();
    let mut vals: Vec<u8> = Vec::new();
    let mut k: usize = 0;
    while k < 8
        invariant
            k <= 8,
            bytes@ == hex_str.spec_bytes(),
            bytes@.len() >= 16,
            vals@.len() == k,
            forall|j: int| 0 <= j < k ==> hex_pair(bytes@, j) == Some(#[trigger] vals@[j]),
        decreases 8 - k,
    {
        match parse_pair(bytes[2 * k], bytes[2 * k + 1]) {
            Some(v) => {
                vals.push(v);
            },
            None => {
                assert(hex_pair(bytes@, k as int) is None);
                return None;
            },
        }
        k += 1;
    }
    assert forall|j: int| 0 <= j < 8 implies (#[trigger] hex_pair(bytes@, j)) is Some by {
        assert(hex_pair(bytes@, j) == Some(vals@[j]));
    }
    Some(dotted_quad_string(vals[4], vals[5], vals[6], vals[7]))
}

/// Lower-case hex digit for `d < 16`.
pub open spec fn lower_hex_char(d: nat) -> char {
    if d < 10 {
        ((48 + d) as u8) as char
    } else {
        ((87 + d) as u8) as char
    }
}

/// `format!("{:02x?}", b)`: two lower-case hex digits.
pub open spec fn byte_hex(b: u8) -> Seq<char> {
    seq![lower_hex_char((b / 16) as nat), lower_hex_char((b % 16) as nat)]
}

/// The bytes written as consecutive two-digit hex pairs.
pub open spec fn bytes_hex(bs: Seq<u8>) -> Seq<char>
    decreases bs.len(),
{
    if bs.len() == 0 {
        seq![]
    } else {
        bytes_hex(bs.drop_last()) + byte_hex(bs.last())
    }
}

fn lower_hex_digit(d: u8) -> (c: char)
    requires
        d < 16,
    ensures
        c == lower_hex_char(d as nat),
{
    if d < 10 {
        (48 + d) as char
    } else {
        (87 + d) as char
    }
}

proof fn lemma_bytes_hex_len(bs: Seq<u8>)
    ensures
        bytes_hex(bs).len() == 2 * bs.len(),
    decreases bs.len(),
{
    if bs.len() > 0 {
        lemma_bytes_hex_len(bs.drop_last());
    }
}

proof fn lemma_bytes_hex_index(bs: Seq<u8>, i: int)
    requires
        0 <= i < bs.len(),
    ensures
        bytes_hex(bs)[2 * i] == lower_hex_char((bs[i] / 16) as nat),
        bytes_hex(bs)[2 * i + 1] == lower_hex_char((bs[i] % 16) as nat),
    decreases bs.len(),
{
    lemma_bytes_hex_len(bs.drop_last());
    if i < bs.len() - 1 {
        lemma_bytes_hex_index(bs.drop_last(), i);
    }
}

/// The first `count` bytes of `bs` written as lowercase hex pairs.
pub fn hex_of_prefix(bs: &Vec<u8>, count: usize) -> (s: String)
    requires
        count <= bs@.len(),
    ensures
        s@ == bytes_hex(bs@.subrange(0, count as int)),
{
    let mut s = String::new();
    let mut i: usize = 0;
    while i < count
        invariant
            i <= count,
            count <= bs@.len(),
            s@ == bytes_hex(bs@.subrange(0, i as int)),
        decreases count - i,
    {
        let b = bs[i];
        push_char(&mut s, lower_hex_digit(b / 16));
        push_char(&mut s, lower_hex_digit(b % 16));
        proof {
            let p = bs@.subrange(0, i + 1);
            assert(p.drop_last() =~= bs@.subrange(0, i as int));
            assert(s@ =~= bytes_hex(p));
        }
        i += 1;
    }
    s
}

proof fn lemma_hex_digit_roundtrip(d: nat)
    requires
        d < 16,
    ensures
        hex_digit_value(lower_hex_char(d) as u8) == Some(d),
        !is_continuation_byte(lower_hex_char(d) as u8),
        '\0' <= lower_hex_char(d) <= '\u{7f}',
{
}

/// Parsing hex pairs back gives the bytes: `hex_to_ipv4` of the hex text of
/// at least 8 bytes is the dotted quad of bytes 4 to 7.
pub proof fn lemma_hex_to_ipv4_of_bytes_hex(bs: Seq<u8>)
    requires
        bs.len() >= 8,
    ensures
        ({
            let text = bytes_hex(bs);
            let raw = Seq::new(text.len(), |i: int| text[i] as u8);
            &&& hex_to_ipv4_slices_ok(raw)
            &&& hex_to_ipv4_spec(raw) == Some(dotted_quad(bs[4], bs[5], bs[6], bs[7]))
        }),
{
    let text = bytes_hex(bs);
    lemma_bytes_hex_len(bs);
    let raw = Seq::new(text.len(), |i: int| text[i] as u8);
    assert forall|k: int| 0 <= k < bs.len() implies #[trigger] hex_pair(raw, k) == Some(bs[k]) by {
        lemma_bytes_hex_index(bs, k);
        lemma_hex_digit_roundtrip((bs[k] / 16) as nat);
        lemma_hex_digit_roundtrip((bs[k] % 16) as nat);
        assert(raw[2 * k] == lower_hex_char((bs[k] / 16) as nat) as u8);
        assert(raw[2 * k + 1] == lower_hex_char((bs[k] % 16) as nat) as u8);
        assert(lower_hex_char((bs[k] / 16) as nat) as u8 != 43u8);
        assert(16 * ((bs[k] / 16) as nat) + ((bs[k] % 16) as nat) == bs[k]);
    }
    assert forall|k: int| 0 <= k <= 8 implies #[trigger] byte_boundary(raw, 2 * k) by {
        if 2 * k < raw.len() {
            lemma_bytes_hex_index(bs, k);
            lemma_hex_digit_roundtrip((bs[k] / 16) as nat);
        }
    }
    assert forall|k: int| 0 <= k < 8 implies (#[trigger] hex_pair(raw, k)) is Some by {
        assert(hex_pair(raw, k) == Some(bs[k]));
    }
    assert(hex_pair(raw, 4) == Some(bs[4]));
    assert(hex_pair(raw, 5) == Some(bs[5]));
    assert(hex_pair(raw, 6) == Some(bs[6]));
    assert(hex_pair(raw, 7) == Some(bs[7]));
}

/// What the TCP event handler stores as the IPv4 form of an address field:
/// for a declared length above 15, the dotted quad of bytes 4 to 7 of the
/// address; otherwise the empty string.
pub open spec fn address_ipv4_spec(address: Option<Seq<u8>>, address_length: Option<u32>) -> Seq<
    char,
> {
    let len = match address_length {
        Some(l) => l as nat,
        None => 0,
    };
    let bytes = match address {
        Some(b) => b,
        None => Seq::empty(),
    };
    if len > 15 {
        dotted_quad(bytes[4], bytes[5], bytes[6], bytes[7])
    } else {
        Seq::empty()
    }
}

/// The IPv4 text of an address field of a TCP event: the first
/// `length / 2` bytes are written as hex pairs and read back by
/// `hex_to_ipv4`.
pub fn address_to_ipv4(address: &Option<Vec<u8>>, address_length: Option<u32>) -> (s: String)
    requires
        ({
            let len = match address_length {
                Some(l) => l as nat,
                None => 0,
            };
            let n = match address {
                Some(b) => b@.len(),
                None => 0,
            };
            len > 15 ==> len / 2 <= n
        }),
    ensures
        s@ == address_ipv4_spec(
            match address {
                Some(b) => Some(b@),
                None => None,
            },
            address_length,
        ),
{
    let len: usize = match address_length {
        Some(l) => l as usize,
        None => 0,
    };
    if len > 15 {
        let empty: Vec<u8> = Vec::new();
        let bytes: &Vec<u8> = match address {
            Some(b) => b,
            None => &empty,
        };
        let hex = hex_of_prefix(bytes, len / 2);
        let hs = hex.as_str();
        let ghost prefix = bytes@.subrange(0, (len / 2) as int);
        proof {
            lemma_bytes_hex_len(prefix);
            lemma_hex_to_ipv4_of_bytes_hex(prefix);
            let text = bytes_hex(prefix);
            assert forall|i: int| 0 <= i < text.len() implies '\0' <= #[trigger] text[i] <= '\u{7f}' by {
                let k = i / 2;
                lemma_bytes_hex_index(prefix, k);
                lemma_hex_digit_roundtrip((prefix[k] / 16) as nat);
                lemma_hex_digit_roundtrip((prefix[k] % 16) as nat);
                assert(i == 2 * k || i == 2 * k + 1);
            }
            assert(vstd::string::is_ascii(hs));
            assert(hs.spec_bytes() =~= Seq::new(text.len(), |i: int| text[i] as u8));
        }
        match hex_to_ipv4(hs) {
            Some(ip) => ip,
            None => String::new(),
        }
    } else {
        String::new()
    }
}

/// `s.get(..n)`, or all of `s` when `n` is not a character boundary.
pub fn truncate(s: &str, n: usize) -> (r: &str)
    ensures
        r.spec_bytes() == if vstd::utf8::is_char_boundary(s.spec_bytes(), n as int) {
            s.spec_bytes().subrange(0, n as int)
        } else {
            s.spec_bytes()
        },
{
    if s.is_char_boundary(n) {
        s.split_at(n).0
    } else {
        s
    }
}

} // verus!
