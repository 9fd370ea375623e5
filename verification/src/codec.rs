//! The wire format of an unlock notification: a sequence of 32-byte words in
//! the layout that a 256-bit-word decoder expects for the tuple
//! `(address, uint64, uint64, uint8, string)`.

use crate::address::Address;
use vstd::prelude::*;
use vstd::utf8::*;

verus! {

/// Bytes in one word of the encoding.
pub const WORD_LEN: usize = 32;

/// Significant bytes of an owner in its word.
pub const OWNER_LEN: usize = 20;

/// Offset of the string's length word from the start of the encoding: five
/// words precede it.
pub const STRING_OFFSET: usize = 160;

/// 256 to the power `n`.
pub open spec fn pow256(n: nat) -> nat
    decreases n,
{
    if n == 0 {
        1
    } else {
        256 * pow256((n - 1) as nat)
    }
}

/// The big-endian digits of `value` in base 256, `width` of them; higher
/// digits are dropped.
pub open spec fn be_bytes(value: nat, width: nat) -> Seq<u8>
    decreases width,
{
    if width == 0 {
        Seq::empty()
    } else {
        be_bytes(value / 256, (width - 1) as nat).push((value % 256) as u8)
    }
}

/// The number that `bytes` spell as big-endian digits in base 256.
pub open spec fn be_value(bytes: Seq<u8>) -> nat
    decreases bytes.len(),
{
    if bytes.len() == 0 {
        0
    } else {
        be_value(bytes.drop_last()) * 256 + bytes.last() as nat
    }
}

/// One 32-byte big-endian word.
pub open spec fn word(value: nat) -> Seq<u8> {
    be_bytes(value, WORD_LEN as nat)
}

/// `n` zero bytes.
pub open spec fn zeros(n: nat) -> Seq<u8> {
    Seq::new(n, |i: int| 0u8)
}

/// Zero bytes that follow `len` bytes up to the next word boundary.
pub open spec fn padding(len: nat) -> nat {
    ((32 - len % 32) % 32) as nat
}

/// A signed 64-bit timestamp read as the unsigned 64-bit number with the
/// same bits.
pub open spec fn unsigned(t: i64) -> nat {
    if t >= 0 {
        t as nat
    } else {
        (t + 0x1_0000_0000_0000_0000) as nat
    }
}

/// There are as many digits as were asked for.
pub proof fn lemma_be_bytes_len(value: nat, width: nat)
    ensures
        be_bytes(value, width).len() == width,
    decreases width,
{
    if width > 0 {
        lemma_be_bytes_len(value / 256, (width - 1) as nat);
    }
}

/// Digits that hold the whole number spell it back.
pub proof fn lemma_be_value_of_bytes(value: nat, width: nat)
    requires
        value < pow256(width),
    ensures
        be_value(be_bytes(value, width)) == value,
    decreases width,
{
    if width > 0 {
        let rest = be_bytes(value / 256, (width - 1) as nat);
        lemma_be_value_of_bytes(value / 256, (width - 1) as nat);
        lemma_be_bytes_len(value / 256, (width - 1) as nat);
        assert(rest.push((value % 256) as u8).drop_last() =~= rest);
    }
}

/// Every 64-bit number fits a word.
pub proof fn lemma_word_holds_u64()
    ensures
        pow256(WORD_LEN as nat) >= 0x1_0000_0000_0000_0000,
{
    reveal_with_fuel(pow256, 9);
    assert(pow256(8) == 0x1_0000_0000_0000_0000);
    lemma_pow256_grows(8, 32);
}

/// Powers of 256 are positive and grow with the exponent.
pub proof fn lemma_pow256_grows(low: nat, high: nat)
    requires
        low <= high,
    ensures
        pow256(low) <= pow256(high),
        pow256(low) >= 1,
    decreases high,
{
    if low < high {
        lemma_pow256_grows(low, (high - 1) as nat);
    } else if low > 0 {
        lemma_pow256_grows((low - 1) as nat, (low - 1) as nat);
    }
}

/// The unsigned reading of a timestamp as an executable value.
pub fn to_unsigned(t: i64) -> (u: u64)
    ensures
        u == unsigned(t),
{
    if t >= 0 {
        t as u64
    } else {
        (t - i64::MIN) as u64 + 0x8000_0000_0000_0000
    }
}

/// Appends `count` zero bytes.
pub fn push_zeros(out: &mut Vec<u8>, count: usize)
    ensures
        final(out)@ == old(out)@ + zeros(count as nat),
{
    let mut i: usize = 0;
    while i < count
        invariant
            i <= count,
            out@ == old(out)@ + zeros(i as nat),
        decreases count - i,
    {
        out.push(0);
        i += 1;
        assert(out@ =~= old(out)@ + zeros(i as nat));
    }
}

/// Appends `bytes[from..to]`.
pub fn push_bytes(out: &mut Vec<u8>, bytes: &[u8], from: usize, to: usize)
    requires
        from <= to <= bytes@.len(),
    ensures
        final(out)@ == old(out)@ + bytes@.subrange(from as int, to as int),
{
    let mut i: usize = from;
    while i < to
        invariant
            from <= i <= to <= bytes@.len(),
            out@ == old(out)@ + bytes@.subrange(from as int, i as int),
        decreases to - i,
    {
        out.push(bytes[i]);
        i += 1;
        assert(out@ =~= old(out)@ + bytes@.subrange(from as int, i as int));
    }
    assert(out@ =~= old(out)@ + bytes@.subrange(from as int, to as int));
}

/// Appends `value` as one big-endian word.
pub fn push_word(out: &mut Vec<u8>, value: u64)
    ensures
        final(out)@ == old(out)@ + word(value as nat),
{
    let mut digits: [u8; 32] = [0u8; 32];
    let mut rest: u64 = value;
    let mut i: usize = 32;
    proof {
        lemma_be_bytes_len(value as nat, 32);
        assert(be_bytes(value as nat, 32) =~= be_bytes(rest as nat, 32) + digits@.subrange(32, 32));
    }
    while i > 0
        invariant
            i <= 32,
            word(value as nat) == be_bytes(rest as nat, i as nat) + digits@.subrange(i as int, 32),
        decreases i,
    {
        i -= 1;
        let ghost before = digits@;
        digits[i] = (rest % 256) as u8;
        proof {
            let high = be_bytes((rest / 256) as nat, i as nat);
            lemma_be_bytes_len((rest / 256) as nat, i as nat);
            assert(digits@.subrange(i as int, 32) =~= seq![(rest % 256) as u8] + before.subrange(
                i + 1,
                32,
            ));
            assert(high.push((rest % 256) as u8) + before.subrange(i + 1, 32) =~= high
                + digits@.subrange(i as int, 32));
        }
        rest = rest / 256;
    }
    proof {
        assert(word(value as nat) =~= digits@);
    }
    push_bytes(out, digits.as_slice(), 0, 32);
    proof {
        assert(digits@.subrange(0, 32) =~= digits@);
    }
}

/// What is announced when a capsule is unlocked.
#[derive(Clone, Debug, PartialEq, Eq)]
pub struct MessagePayload {
    /// Owner of the capsule.
    pub owner: Address,
    /// When the capsule was unlocked.
    pub unlock_timestamp: i64,
    /// When the capsule was created.
    pub creation_timestamp: i64,
    /// Code of the capsule's kind.
    pub capsule_type: u8,
    /// Content of a text capsule; empty otherwise.
    pub message: String,
}

/// The mathematical content of a [`MessagePayload`].
pub struct UnlockNotification {
    pub owner: Seq<u8>,
    pub unlock_timestamp: i64,
    pub creation_timestamp: i64,
    pub capsule_type: u8,
    pub message: Seq<char>,
}

impl View for MessagePayload {
    type V = UnlockNotification;

    open spec fn view(&self) -> UnlockNotification {
        UnlockNotification {
            owner: self.owner@,
            unlock_timestamp: self.unlock_timestamp,
            creation_timestamp: self.creation_timestamp,
            capsule_type: self.capsule_type,
            message: self.message@,
        }
    }
}

/// The encoding of a notification: the owner's first twenty bytes
/// right-aligned in a word, three number words, the offset word, then the
/// text as a length word, its UTF-8 bytes and zeros up to a word boundary.
pub open spec fn encoded(n: UnlockNotification) -> Seq<u8> {
    let text = encode_utf8(n.message);
    zeros((WORD_LEN - OWNER_LEN) as nat) + n.owner.subrange(0, OWNER_LEN as int) + word(
        unsigned(n.unlock_timestamp),
    ) + word(unsigned(n.creation_timestamp)) + word(n.capsule_type as nat) + word(
        STRING_OFFSET as nat,
    ) + word(text.len()) + text + zeros(padding(text.len()))
}

/// Length of the encoding of a text of `text_len` bytes.
pub open spec fn encoded_len(text_len: nat) -> nat {
    6 * (WORD_LEN as nat) + text_len + padding(text_len)
}

/// Encodes a notification for a foreign 256-bit-word decoder. Total: every
/// payload has exactly one encoding.
pub fn serialize_payload(payload: &MessagePayload) -> (bytes: Vec<u8>)
    ensures
        bytes@ == encoded(payload@),
{
    let text = payload.message.as_str().as_bytes();
    let len: usize = text.len();
    let mut result: Vec<u8> = Vec::new();
    push_zeros(&mut result, WORD_LEN - OWNER_LEN);
    push_bytes(&mut result, payload.owner.bytes.as_slice(), 0, OWNER_LEN);
    push_word(&mut result, to_unsigned(payload.unlock_timestamp));
    push_word(&mut result, to_unsigned(payload.creation_timestamp));
    push_word(&mut result, payload.capsule_type as u64);
    push_word(&mut result, STRING_OFFSET as u64);
    push_word(&mut result, len as u64);
    push_bytes(&mut result, text, 0, len);
    let padding_needed: usize = (WORD_LEN - len % WORD_LEN) % WORD_LEN;
    push_zeros(&mut result, padding_needed);
    proof {
        assert(text@.subrange(0, len as int) =~= text@);
    }
    result
}

/// The encoding is a whole number of words: six, and the text rounded up.
pub proof fn lemma_encoded_len(n: UnlockNotification)
    requires
        n.owner.len() == 32,
    ensures
        encoded(n).len() == encoded_len(encode_utf8(n.message).len()),
        encoded(n).len() % 32 == 0,
        padding(encode_utf8(n.message).len()) < 32,
{
    lemma_be_bytes_len(unsigned(n.unlock_timestamp), 32);
    lemma_be_bytes_len(unsigned(n.creation_timestamp), 32);
    lemma_be_bytes_len(n.capsule_type as nat, 32);
    lemma_be_bytes_len(STRING_OFFSET as nat, 32);
    lemma_be_bytes_len(encode_utf8(n.message).len(), 32);
}

/// What a 256-bit-word decoder reads from an encoding as the tuple
/// `(address, uint64, uint64, uint8, string)`.
pub struct ForeignNotification {
    /// The twenty address bytes.
    pub owner: Seq<u8>,
    pub unlock_timestamp: nat,
    pub creation_timestamp: nat,
    pub capsule_type: nat,
    /// The bytes of the string.
    pub message: Seq<u8>,
}

/// The word that starts at byte `at` of `data`.
pub open spec fn word_at(data: Seq<u8>, at: int) -> Seq<u8> {
    data.subrange(at, at + WORD_LEN)
}

/// The reference decoder. It reads the five head words, rejects a value
/// that its type cannot hold, follows the offset word to the length word,
/// and takes that many bytes after it.
pub open spec fn decode_foreign(data: Seq<u8>) -> Option<ForeignNotification> {
    if data.len() < STRING_OFFSET {
        None
    } else {
        let owner = word_at(data, 0);
        let unlocked = be_value(word_at(data, 32));
        let created = be_value(word_at(data, 64));
        let kind = be_value(word_at(data, 96));
        let offset = be_value(word_at(data, 128));
        if owner.subrange(0, WORD_LEN - OWNER_LEN) != zeros((WORD_LEN - OWNER_LEN) as nat)
            || unlocked > u64::MAX || created > u64::MAX || kind > u8::MAX || offset + WORD_LEN
            > data.len() {
            None
        } else {
            let len = be_value(word_at(data, offset as int));
            if offset + WORD_LEN + len > data.len() {
                None
            } else {
                Some(
                    ForeignNotification {
                        owner: owner.subrange(WORD_LEN - OWNER_LEN, WORD_LEN as int),
                        unlock_timestamp: unlocked,
                        creation_timestamp: created,
                        capsule_type: kind,
                        message: data.subrange(offset + WORD_LEN, offset + WORD_LEN + len),
                    },
                )
            }
        }
    }
}

/// What a foreign decoder is meant to read from the encoding of `n`: the
/// owner's first twenty bytes, the timestamps as unsigned numbers, the kind
/// code, and the text's UTF-8 bytes.
pub open spec fn foreign_view(n: UnlockNotification) -> ForeignNotification {
    ForeignNotification {
        owner: n.owner.subrange(0, OWNER_LEN as int),
        unlock_timestamp: unsigned(n.unlock_timestamp),
        creation_timestamp: unsigned(n.creation_timestamp),
        capsule_type: n.capsule_type as nat,
        message: encode_utf8(n.message),
    }
}

/// Round trip: the reference decoder reads from the encoding of a payload
/// exactly that payload's foreign view, whatever the length of the text,
/// and the text itself is recovered from the decoded bytes.
pub proof fn lemma_decode_encoded(payload: MessagePayload)
    requires
        encode_utf8(payload.message@).len() < pow256(WORD_LEN as nat),
    ensures
        decode_foreign(encoded(payload@)) == Some(foreign_view(payload@)),
        decode_utf8(foreign_view(payload@).message) == payload.message@,
{
    let n = payload@;
    let text = encode_utf8(n.message);
    let data = encoded(n);
    lemma_encoded_len(n);
    lemma_word_holds_u64();
    lemma_be_bytes_len(unsigned(n.unlock_timestamp), 32);
    lemma_be_bytes_len(unsigned(n.creation_timestamp), 32);
    lemma_be_bytes_len(n.capsule_type as nat, 32);
    lemma_be_bytes_len(STRING_OFFSET as nat, 32);
    lemma_be_bytes_len(text.len(), 32);
    lemma_be_value_of_bytes(unsigned(n.unlock_timestamp), 32);
    lemma_be_value_of_bytes(unsigned(n.creation_timestamp), 32);
    lemma_be_value_of_bytes(n.capsule_type as nat, 32);
    lemma_be_value_of_bytes(STRING_OFFSET as nat, 32);
    lemma_be_value_of_bytes(text.len(), 32);
    assert(word_at(data, 0) =~= zeros(12) + n.owner.subrange(0, 20));
    assert(word_at(data, 0).subrange(0, 12) =~= zeros(12));
    assert(word_at(data, 0).subrange(12, 32) =~= n.owner.subrange(0, 20));
    assert(word_at(data, 32) =~= word(unsigned(n.unlock_timestamp)));
    assert(word_at(data, 64) =~= word(unsigned(n.creation_timestamp)));
    assert(word_at(data, 96) =~= word(n.capsule_type as nat));
    assert(word_at(data, 128) =~= word(STRING_OFFSET as nat));
    assert(word_at(data, 160) =~= word(text.len()));
    assert(data.subrange(192, 192 + text.len() as int) =~= text);
    encode_utf8_decode_utf8(n.message);
}

/// A longer prefix of the digits spells no smaller a number.
pub proof fn lemma_be_value_prefix(bytes: Seq<u8>, short: int, long: int)
    requires
        0 <= short <= long <= bytes.len(),
    ensures
        be_value(bytes.subrange(0, short)) <= be_value(bytes.subrange(0, long)),
    decreases long - short,
{
    if short < long {
        lemma_be_value_prefix(bytes, short, long - 1);
        assert(bytes.subrange(0, long).drop_last() =~= bytes.subrange(0, long - 1));
    }
}

/// Reads the word at `at` as a number, where 64 bits hold it.
pub fn read_word(data: &[u8], at: usize) -> (value: Option<u64>)
    requires
        at + WORD_LEN <= data@.len(),
    ensures
        match value {
            Some(v) => be_value(word_at(data@, at as int)) == v,
            None => be_value(word_at(data@, at as int)) > u64::MAX,
        },
{
    let ghost digits = word_at(data@, at as int);
    let total: usize = data.len();
    let mut acc: u64 = 0;
    let mut k: usize = 0;
    proof {
        assert(digits.subrange(0, 0) =~= Seq::<u8>::empty());
    }
    while k < WORD_LEN
        invariant
            k <= WORD_LEN,
            at + WORD_LEN <= total == data@.len(),
            digits == word_at(data@, at as int),
            acc == be_value(digits.subrange(0, k as int)),
        decreases WORD_LEN - k,
    {
        let byte = data[at + k];
        proof {
            assert(digits.subrange(0, k + 1).drop_last() =~= digits.subrange(0, k as int));
            assert(digits.subrange(0, k + 1).last() == byte);
        }
        if acc > (u64::MAX >> 8) {
            proof {
                assert((u64::MAX >> 8) == 0xff_ffff_ffff_ffffu64) by (bit_vector);
                lemma_be_value_prefix(digits, k + 1, 32);
                assert(digits.subrange(0, 32) =~= digits);
            }
            return None;
        }
        proof {
            assert((u64::MAX >> 8) == 0xff_ffff_ffff_ffffu64) by (bit_vector);
        }
        acc = acc * 256 + byte as u64;
        k += 1;
    }
    proof {
        assert(digits.subrange(0, 32) =~= digits);
    }
    Some(acc)
}

/// What [`decode_payload`] reads from an encoding.
#[derive(Clone, Debug, PartialEq, Eq)]
pub struct DecodedPayload {
    pub owner: [u8; 20],
    pub unlock_timestamp: u64,
    pub creation_timestamp: u64,
    pub capsule_type: u8,
    pub message: Vec<u8>,
}

impl View for DecodedPayload {
    type V = ForeignNotification;

    open spec fn view(&self) -> ForeignNotification {
        ForeignNotification {
            owner: self.owner@,
            unlock_timestamp: self.unlock_timestamp as nat,
            creation_timestamp: self.creation_timestamp as nat,
            capsule_type: self.capsule_type as nat,
            message: self.message@,
        }
    }
}

/// The reference decoder as a program: reads an encoding as a foreign
/// decoder does, or finds it malformed.
pub fn decode_payload(data: &[u8]) -> (decoded: Option<DecodedPayload>)
    ensures
        match decoded {
            Some(d) => decode_foreign(data@) == Some(d@),
            None => decode_foreign(data@) is None,
        },
{
    if data.len() < STRING_OFFSET {
        return None;
    }
    let mut i: usize = 0;
    while i < WORD_LEN - OWNER_LEN
        invariant
            i <= WORD_LEN - OWNER_LEN,
            data@.len() >= STRING_OFFSET,
            forall|j: int| 0 <= j < i ==> data@[j] == 0u8,
        decreases WORD_LEN - OWNER_LEN - i,
    {
        if data[i] != 0 {
            proof {
                assert(word_at(data@, 0).subrange(0, 12)[i as int] == data@[i as int]);
                assert(zeros(12)[i as int] == 0u8);
            }
            return None;
        }
        i += 1;
    }
    proof {
        assert(word_at(data@, 0).subrange(0, 12) =~= zeros(12));
    }
    let unlocked = match read_word(data, 32) {
        Some(v) => v,
        None => {
            return None;
        },
    };
    let created = match read_word(data, 64) {
        Some(v) => v,
        None => {
            return None;
        },
    };
    let kind = match read_word(data, 96) {
        Some(v) => v,
        None => {
            return None;
        },
    };
    if kind > 255 {
        return None;
    }
    let offset = match read_word(data, 128) {
        Some(v) => v,
        None => {
            return None;
        },
    };
    if offset > (data.len() - WORD_LEN) as u64 {
        return None;
    }
    let start: usize = offset as usize;
    let len = match read_word(data, start) {
        Some(v) => v,
        None => {
            return None;
        },
    };
    if len > (data.len() - WORD_LEN - start) as u64 {
        return None;
    }
    let mut owner: [u8; 20] = [0u8; 20];
    let mut j: usize = 0;
    while j < OWNER_LEN
        invariant
            j <= OWNER_LEN,
            data@.len() >= STRING_OFFSET,
            forall|m: int| 0 <= m < j ==> owner@[m] == data@[12 + m],
        decreases OWNER_LEN - j,
    {
        owner[j] = data[WORD_LEN - OWNER_LEN + j];
        j += 1;
    }
    let mut message: Vec<u8> = Vec::new();
    push_bytes(&mut message, data, start + WORD_LEN, start + WORD_LEN + len as usize);
    proof {
        assert(owner@ =~= word_at(data@, 0).subrange(12, 32));
        assert(message@ =~= data@.subrange(start + 32, start + 32 + len));
    }
    Some(
        DecodedPayload {
            owner,
            unlock_timestamp: unlocked,
            creation_timestamp: created,
            capsule_type: kind as u8,
            message,
        },
    )
}

} // verus!
