use vstd::prelude::*;
use vstd::arithmetic::div_mod::{
    lemma_div_denominator, lemma_div_multiples_vanish_fancy, lemma_mod_breakdown,
};
use vstd::arithmetic::power2::{lemma2_to64, lemma_pow2_adds, lemma_pow2_pos, pow2};
use vstd::utf8::encode_utf8;

use crate::errors::Error;
use crate::types::MAX_STRING_LEN;

verus! {

/// Length of a SEP-23 strkey, in characters.
pub const STRKEY_LEN: usize = 56;

/// Length of a decoded strkey: version byte, 32-byte payload, 2-byte checksum.
pub const STRKEY_DECODED_LEN: usize = 35;

/// Version byte of an ED25519 public key strkey (`G...`): 6 << 3.
pub const STRKEY_VERSION_ED25519_PUBLIC_KEY: u8 = 48;

/// Value of a character of the RFC 4648 base32 alphabet (`A`-`Z`, `2`-`7`).
pub open spec fn base32_digit(c: u8) -> Option<u8> {
    if 65 <= c <= 90 {
        Some((c - 65) as u8)
    } else if 50 <= c <= 55 {
        Some((c - 50 + 26) as u8)
    } else {
        None
    }
}

pub open spec fn digit_of(c: u8) -> nat {
    match base32_digit(c) {
        Some(v) => v as nat,
        None => 0,
    }
}

pub open spec fn all_base32(s: Seq<u8>) -> bool {
    forall|i: int| 0 <= i < s.len() ==> (#[trigger] base32_digit(s[i])) is Some
}

/// The number spelled by the first `n` base32 digits of `s`, most
/// significant first.
pub open spec fn base32_number(s: Seq<u8>, n: nat) -> nat
    decreases n,
{
    if n == 0 {
        0
    } else {
        base32_number(s, (n - 1) as nat) * 32 + digit_of(s[n - 1])
    }
}

/// Decoding of 56 base32 characters: the 35 big-endian bytes of the 280-bit
/// number they spell.
pub open spec fn base32_decode(s: Seq<u8>) -> Option<Seq<u8>> {
    if s.len() == STRKEY_LEN && all_base32(s) {
        Some(
            Seq::new(
                STRKEY_DECODED_LEN as nat,
                |k: int| ((base32_number(s, 56) / pow2((272 - 8 * k) as nat)) % 256) as u8,
            ),
        )
    } else {
        None
    }
}

pub fn base32_value(c: u8) -> (r: Option<u8>)
    ensures
        r == base32_digit(c),
{
    if 65 <= c && c <= 90 {
        // 'A'..='Z'
        Some(c - 65)
    } else if 50 <= c && c <= 55 {
        // '2'..='7'
        Some(c - 50 + 26)
    } else {
        None
    }
}

proof fn lemma_pow2_32()
    ensures
        pow2(5) == 32,
        pow2(8) == 256,
{
    lemma2_to64();
}

/// Appending a digit below 32 and dividing by `2^(e + 5)` is dividing by `2^e`.
proof fn lemma_append_digit_div(p: nat, v: nat, e: nat)
    requires
        v < 32,
    ensures
        (p * 32 + v) / pow2(e + 5) == p / pow2(e),
{
    lemma_pow2_32();
    lemma_pow2_adds(5, e);
    lemma_pow2_pos(e);
    lemma_div_multiples_vanish_fancy(p as int, v as int, 32);
    assert((32 * p + v) / 32 == p);
    assert(p * 32 + v == 32 * p + v) by (nonlinear_arith);
    lemma_div_denominator((p * 32 + v) as int, 32, pow2(e) as int);
    assert(pow2(5) * pow2(e) == 32 * pow2(e));
}

/// Appending a digit below 32 to `p` keeps `p`'s low `n` bits as the bits
/// just above the new digit.
proof fn lemma_append_digit_mod(p: nat, v: nat, n: nat)
    requires
        v < 32,
    ensures
        (p * 32 + v) % pow2(n + 5) == (p % pow2(n)) * 32 + v,
{
    lemma_pow2_32();
    lemma_pow2_adds(n, 5);
    lemma_pow2_pos(n);
    let x = (p * 32 + v) as int;
    lemma_mod_breakdown(x, 32, pow2(n) as int);
    assert(p * 32 + v == 32 * p + v) by (nonlinear_arith);
    lemma_div_multiples_vanish_fancy(p as int, v as int, 32);
    assert(x / 32 == p);
    assert(x % 32 == v) by {
        vstd::arithmetic::div_mod::lemma_fundamental_div_mod(x, 32);
    }
    assert(pow2(n + 5) == 32 * pow2(n)) by (nonlinear_arith)
        requires
            pow2(n + 5) == pow2(n) * pow2(5),
            pow2(5) == 32,
    ;
    assert(32 * (p % pow2(n)) == (p % pow2(n)) * 32) by (nonlinear_arith);
}

/// The byte above the low `s` bits of `x` is the byte above the low `s` bits
/// of `x`'s low `s + 8` bits.
proof fn lemma_byte_of_low_bits(x: nat, s: nat)
    ensures
        (x % pow2(s + 8)) / pow2(s) == (x / pow2(s)) % 256,
{
    lemma_pow2_32();
    lemma_pow2_adds(s, 8);
    lemma_pow2_pos(s);
    lemma_mod_breakdown(x as int, pow2(s) as int, 256);
    let q = (x / pow2(s)) % 256;
    let r = x % pow2(s);
    lemma_div_multiples_vanish_fancy(q as int, r as int, pow2(s) as int);
}

/// Each step of the decoder: after `i` characters, the low `bits` bits of
/// the buffer are those of the number read so far.
proof fn lemma_shift_in_digit(b: u64, v: u64, n: u64)
    requires
        n < 8,
        v < 32,
    ensures
        ((b << 5u64) | v) as nat % pow2((n + 5) as nat) == (b as nat % pow2(n as nat)) * 32 + v,
{
    lemma2_to64();
    if n == 0 {
        assert(((b << 5u64) | v) % 32 == (b % 1) * 32 + v) by (bit_vector)
            requires
                v < 32,
        ;
    } else if n == 1 {
        assert(((b << 5u64) | v) % 64 == (b % 2) * 32 + v) by (bit_vector)
            requires
                v < 32,
        ;
    } else if n == 2 {
        assert(((b << 5u64) | v) % 128 == (b % 4) * 32 + v) by (bit_vector)
            requires
                v < 32,
        ;
    } else if n == 3 {
        assert(((b << 5u64) | v) % 256 == (b % 8) * 32 + v) by (bit_vector)
            requires
                v < 32,
        ;
    } else if n == 4 {
        assert(((b << 5u64) | v) % 512 == (b % 16) * 32 + v) by (bit_vector)
            requires
                v < 32,
        ;
    } else if n == 5 {
        assert(((b << 5u64) | v) % 1024 == (b % 32) * 32 + v) by (bit_vector)
            requires
                v < 32,
        ;
    } else if n == 6 {
        assert(((b << 5u64) | v) % 2048 == (b % 64) * 32 + v) by (bit_vector)
            requires
                v < 32,
        ;
    } else {
        assert(((b << 5u64) | v) % 4096 == (b % 128) * 32 + v) by (bit_vector)
            requires
                v < 32,
        ;
    }
}

proof fn lemma_take_byte(x: u64, s: u64)
    requires
        s < 5,
    ensures
        ((x >> s) & 0xFFu64) as nat == (x as nat % pow2((s + 8) as nat)) / pow2(s as nat),
{
    lemma2_to64();
    if s == 0 {
        assert((x >> 0u64) & 0xFFu64 == (x % 256) / 1) by (bit_vector);
    } else if s == 1 {
        assert((x >> 1u64) & 0xFFu64 == (x % 512) / 2) by (bit_vector);
    } else if s == 2 {
        assert((x >> 2u64) & 0xFFu64 == (x % 1024) / 4) by (bit_vector);
    } else if s == 3 {
        assert((x >> 3u64) & 0xFFu64 == (x % 2048) / 8) by (bit_vector);
    } else {
        assert((x >> 4u64) & 0xFFu64 == (x % 4096) / 16) by (bit_vector);
    }
}

/// Decodes 56 base32 characters (280 bits, no padding) into 35 bytes.
pub fn decode_base32(input: &[u8; STRKEY_LEN]) -> (r: Option<[u8; STRKEY_DECODED_LEN]>)
    ensures
        r is Some <==> base32_decode(input@) is Some,
        r matches Some(out) ==> out@ == base32_decode(input@).unwrap(),
{
    let mut out = [0u8; STRKEY_DECODED_LEN];
    let mut bit_buffer: u64 = 0;
    let mut bits_in_buffer: u32 = 0;
    let mut out_idx: usize = 0;
    let mut i: usize = 0;
    proof {
        lemma2_to64();
    }
    while i < STRKEY_LEN
        invariant
            i <= STRKEY_LEN,
            out@.len() == STRKEY_DECODED_LEN,
            forall|j: int| 0 <= j < i ==> (#[trigger] base32_digit(input@[j])) is Some,
            out_idx * 8 + bits_in_buffer == 5 * i,
            bits_in_buffer < 8,
            bit_buffer as nat % pow2(bits_in_buffer as nat) == base32_number(input@, i as nat)
                % pow2(bits_in_buffer as nat),
            forall|k: int|
                0 <= k < out_idx ==> #[trigger] out@[k] as nat == (base32_number(input@, i as nat)
                    / pow2((5 * i - 8 * (k + 1)) as nat)) % 256,
        decreases STRKEY_LEN - i,
    {
        let c = input[i];
        let val = match base32_value(c) {
            Some(v) => v,
            None => {
                assert(!all_base32(input@));
                return None;
            },
        };
        let ghost p = base32_number(input@, i as nat);
        let ghost p1 = base32_number(input@, (i + 1) as nat);
        let ghost n = bits_in_buffer;
        let ghost old_out = out@;
        let ghost old_idx = out_idx;
        assert(p1 == p * 32 + val);
        proof {
            lemma_shift_in_digit(bit_buffer, val as u64, n as u64);
            lemma_append_digit_mod(bit_buffer as nat, val as nat, n as nat);
            lemma_append_digit_mod(p, val as nat, n as nat);
            assert forall|k: int| 0 <= k < old_idx implies #[trigger] out@[k] as nat == (p1 / pow2(
                (5 * (i + 1) - 8 * (k + 1)) as nat,
            )) % 256 by {
                lemma_append_digit_div(p, val as nat, (5 * i - 8 * (k + 1)) as nat);
            }
        }
        bit_buffer = (bit_buffer << 5) | (val as u64);
        bits_in_buffer += 5;
        assert(bit_buffer as nat % pow2(bits_in_buffer as nat) == p1 % pow2(bits_in_buffer as nat));
        if bits_in_buffer >= 8 {
            bits_in_buffer -= 8;
            if out_idx >= STRKEY_DECODED_LEN {
                return None;
            }
            let byte = ((bit_buffer >> bits_in_buffer) & 0xFF) as u8;
            proof {
                let s = bits_in_buffer as nat;
                lemma_take_byte(bit_buffer, s as u64);
                lemma_byte_of_low_bits(bit_buffer as nat, s);
                lemma_byte_of_low_bits(p1, s);
                assert((s + 8) as nat == (n + 5) as nat);
                assert(byte as nat == (p1 / pow2(s)) % 256);
                assert(s == (5 * (i + 1) - 8 * (out_idx + 1)) as nat);
            }
            out[out_idx] = byte;
            out_idx += 1;
            proof {
                lemma_pow2_pos(bits_in_buffer as nat);
                assert(bit_buffer as nat % pow2(bits_in_buffer as nat) == p1 % pow2(
                    bits_in_buffer as nat,
                )) by {
                    let s = bits_in_buffer as nat;
                    vstd::arithmetic::div_mod::lemma_mod_mod(bit_buffer as int, pow2(s) as int, 256);
                    vstd::arithmetic::div_mod::lemma_mod_mod(p1 as int, pow2(s) as int, 256);
                    lemma_pow2_adds(s, 8);
                    lemma_pow2_32();
                }
            }
        }
        i += 1;
    }
    if out_idx != STRKEY_DECODED_LEN {
        return None;
    }
    proof {
        assert(all_base32(input@));
        let d = base32_decode(input@).unwrap();
        assert forall|k: int| 0 <= k < STRKEY_DECODED_LEN implies out@[k] == d[k] by {
            assert((5 * 56 - 8 * (k + 1)) as nat == (272 - 8 * k) as nat);
        }
        assert(out@ =~= d);
    }
    Some(out)
}

/// One shift of the CRC-16/XMODEM register (polynomial 0x1021).
pub open spec fn crc_shift(crc: u16) -> u16 {
    if crc & 0x8000 != 0 {
        ((crc << 1u16) ^ 0x1021u16) as u16
    } else {
        (crc << 1u16) as u16
    }
}

pub open spec fn crc_shift_times(crc: u16, n: nat) -> u16
    decreases n,
{
    if n == 0 {
        crc
    } else {
        crc_shift(crc_shift_times(crc, (n - 1) as nat))
    }
}

/// CRC-16/XMODEM: polynomial 0x1021, initial value 0, no reflection, no
/// final xor; each byte enters the top of the register and is shifted out
/// bit by bit.
pub open spec fn crc16_xmodem_spec(data: Seq<u8>) -> u16
    decreases data.len(),
{
    if data.len() == 0 {
        0
    } else {
        crc_shift_times(
            (crc16_xmodem_spec(data.drop_last()) ^ ((data.last() as u16) << 8u16)) as u16,
            8,
        )
    }
}

pub fn crc16_xmodem(data: &[u8]) -> (r: u16)
    ensures
        r == crc16_xmodem_spec(data@),
{
    let mut crc: u16 = 0x0000;
    let mut i: usize = 0;
    while i < data.len()
        invariant
            i <= data@.len(),
            crc == crc16_xmodem_spec(data@.take(i as int)),
        decreases data@.len() - i,
    {
        let byte = data[i];
        crc ^= (byte as u16) << 8;
        let ghost start = crc;
        let mut j: usize = 0;
        while j < 8
            invariant
                j <= 8,
                crc == crc_shift_times(start, j as nat),
            decreases 8 - j,
        {
            if crc & 0x8000 != 0 {
                crc = (crc << 1) ^ 0x1021;
            } else {
                crc <<= 1;
            }
            j += 1;
        }
        assert(data@.take(i + 1).drop_last() =~= data@.take(i as int));
        i += 1;
    }
    assert(data@.take(data@.len() as int) =~= data@);
    crc
}

/// A SEP-23 ED25519 public key strkey: 56 base32 characters whose decoding
/// starts with the version byte and ends with the little-endian
/// CRC-16/XMODEM of everything before it.
pub open spec fn is_ed25519_public_key_strkey(s: Seq<u8>) -> bool {
    match base32_decode(s) {
        Some(d) => d[0] == STRKEY_VERSION_ED25519_PUBLIC_KEY && crc16_xmodem_spec(d.take(33)) as int
            == d[33] as int + 256 * (d[34] as int),
        None => false,
    }
}

/// The number `n` base32 digits spell is below `32^n`.
proof fn lemma_base32_number_bound(s: Seq<u8>, n: nat)
    ensures
        base32_number(s, n) < pow2(5 * n),
    decreases n,
{
    lemma2_to64();
    if n > 0 {
        lemma_base32_number_bound(s, (n - 1) as nat);
        lemma_pow2_adds(5 * (n - 1) as nat, 5);
        lemma_pow2_32();
        assert(5 * (n - 1) as nat + 5 == 5 * n);
        let p = base32_number(s, (n - 1) as nat);
        let q = pow2(5 * (n - 1) as nat);
        assert(digit_of(s[n - 1]) < 32);
        assert(p * 32 + digit_of(s[n - 1]) < q * 32) by (nonlinear_arith)
            requires
                p < q,
                digit_of(s[n - 1]) < 32,
        ;
    }
}

/// The leading digit of `n >= 1` base32 digits is their number's top five
/// bits.
proof fn lemma_base32_leading_digit(s: Seq<u8>, n: nat)
    requires
        n >= 1,
    ensures
        base32_number(s, n) / pow2((5 * (n - 1)) as nat) == digit_of(s[0]),
    decreases n,
{
    lemma2_to64();
    if n == 1 {
        assert(base32_number(s, 0) == 0);
        assert(base32_number(s, 1) == digit_of(s[0]));
    } else {
        lemma_base32_leading_digit(s, (n - 1) as nat);
        assert(digit_of(s[n - 1]) < 32);
        lemma_append_digit_div(
            base32_number(s, (n - 1) as nat),
            digit_of(s[n - 1]),
            (5 * (n - 2)) as nat,
        );
        assert((5 * (n - 2)) as nat + 5 == (5 * (n - 1)) as nat);
    }
}

/// What validation accepts is an ED25519 public key and nothing else: the
/// decoding of an accepted strkey starts with the version byte 48 (6 << 3),
/// so that its first character is `G`, and its last two bytes are the
/// little-endian CRC-16/XMODEM of the 33 bytes before them. Contract (`C...`),
/// secret-seed (`S...`) and other strkeys, whose version byte differs, are
/// refused.
pub proof fn lemma_accepted_strkeys_are_ed25519_keys(s: Seq<u8>)
    requires
        is_ed25519_public_key_strkey(s),
    ensures
        s.len() == STRKEY_LEN,
        base32_decode(s) matches Some(d) && d[0] == 48 && crc16_xmodem_spec(d.take(33)) as int
            == d[33] as int + 256 * (d[34] as int),
        s[0] == 71,
{
    let n = base32_number(s, 56);
    lemma_base32_number_bound(s, 56);
    lemma_base32_leading_digit(s, 56);
    lemma_pow2_adds(272, 8);
    lemma_pow2_adds(272, 3);
    lemma2_to64();
    lemma_pow2_pos(272);
    let b = n / pow2(272);
    // n < 2^280 makes the first decoded byte the whole quotient.
    assert(b < 256) by {
        vstd::arithmetic::div_mod::lemma_div_by_multiple_is_strongly_ordered(
            n as int,
            (pow2(272) * 256) as int,
            256,
            pow2(272) as int,
        );
        assert(pow2(280) == pow2(272) * 256);
        assert((pow2(272) * 256) as int / pow2(272) as int == 256) by {
            vstd::arithmetic::div_mod::lemma_div_by_multiple(256, pow2(272) as int);
        }
    }
    let d = base32_decode(s).unwrap();
    assert(d[0] == (b % 256) as u8);
    assert(b == 48);
    lemma_div_denominator(n as int, pow2(272) as int, 8);
    assert(pow2(275) == pow2(272) * 8);
    assert(n / pow2(275) == 6);
    assert(digit_of(s[0]) == 6);
    assert(base32_digit(s[0]) is Some) by {
        assert(all_base32(s));
    }
}

/// And every ED25519 public key strkey is accepted: 56 base32 characters
/// whose decoding starts with the version byte 48 and ends with the
/// little-endian CRC-16/XMODEM of the bytes before it.
pub proof fn lemma_ed25519_keys_are_accepted(s: Seq<u8>)
    requires
        s.len() == STRKEY_LEN,
        all_base32(s),
        base32_decode(s) matches Some(d) && d[0] == 48 && crc16_xmodem_spec(d.take(33)) as int
            == d[33] as int + 256 * (d[34] as int),
    ensures
        is_ed25519_public_key_strkey(s),
{
}

/// Validates a Stellar ED25519 public key strkey (`G...`) given as text.
pub fn validate_strkey_ed25519_public_key(s: &String) -> (r: Result<(), Error>)
    ensures
        r == if is_ed25519_public_key_strkey(encode_utf8(s@)) {
            Ok::<(), Error>(())
        } else {
            Err(Error::InvalidStrkey)
        },
{
    let bytes = s.as_str().as_bytes();
    if bytes.len() != STRKEY_LEN {
        return Err(Error::InvalidStrkey);
    }
    let mut buf = [0u8; STRKEY_LEN];
    let mut i: usize = 0;
    while i < STRKEY_LEN
        invariant
            bytes@.len() == STRKEY_LEN,
            buf@.len() == STRKEY_LEN,
            i <= STRKEY_LEN,
            forall|j: int| 0 <= j < i ==> buf@[j] == bytes@[j],
        decreases STRKEY_LEN - i,
    {
        buf[i] = bytes[i];
        i += 1;
    }
    assert(buf@ =~= bytes@);
    let decoded = match decode_base32(&buf) {
        Some(d) => d,
        None => return Err(Error::InvalidStrkey),
    };
    let version = decoded[0];
    if version != STRKEY_VERSION_ED25519_PUBLIC_KEY {
        return Err(Error::InvalidStrkey);
    }
    let mut payload: Vec<u8> = Vec::new();
    let mut k: usize = 0;
    while k < STRKEY_DECODED_LEN - 2
        invariant
            decoded@.len() == STRKEY_DECODED_LEN,
            k <= STRKEY_DECODED_LEN - 2,
            payload@ =~= decoded@.take(k as int),
        decreases STRKEY_DECODED_LEN - 2 - k,
    {
        payload.push(decoded[k]);
        k += 1;
    }
    let expected_checksum: u16 = decoded[STRKEY_DECODED_LEN - 2] as u16 + (
    decoded[STRKEY_DECODED_LEN - 1] as u16) * 256;
    if crc16_xmodem(payload.as_slice()) != expected_checksum {
        return Err(Error::InvalidStrkey);
    }
    Ok(())
}

/// Byte length of a string's UTF-8 encoding.
pub open spec fn byte_len(s: Seq<char>) -> nat {
    encode_utf8(s).len()
}

/// A free-form field is accepted when it is non-empty and at most
/// `MAX_STRING_LEN` bytes long.
pub open spec fn valid_string_len(s: Seq<char>) -> bool {
    0 < byte_len(s) <= MAX_STRING_LEN
}

/// Rejects empty strings and strings over `MAX_STRING_LEN` bytes.
pub fn validate_string_len(s: &String) -> (r: Result<(), Error>)
    ensures
        r == if valid_string_len(s@) {
            Ok::<(), Error>(())
        } else {
            Err(Error::InvalidInput)
        },
{
    let len = s.as_str().as_bytes().len();
    if len == 0 || len > MAX_STRING_LEN as usize {
        return Err(Error::InvalidInput);
    }
    Ok(())
}

/// Amounts are strictly positive.
pub fn validate_amount(amount: i128) -> (r: Result<(), Error>)
    ensures
        r == if amount > 0 {
            Ok::<(), Error>(())
        } else {
            Err(Error::InvalidInput)
        },
{
    if amount <= 0 {
        return Err(Error::InvalidInput);
    }
    Ok(())
}

} // verus!
