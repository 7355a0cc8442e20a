//! Firmware version buffer.
//!
//! A firmware version is a fixed 64-byte buffer holding a null-terminated
//! (or full-width) UTF-8 string. Rendering decodes the bytes up to the
//! first zero byte, or all 64 bytes if none, substituting a placeholder
//! when that prefix is not valid UTF-8; storing copies at most 63 bytes of
//! text so the buffer always ends in a zero byte.

use vstd::prelude::*;

use crate::text::{chars_of_bytes, lemma_ascii_bytes_utf8, string_from_utf8};
use vstd::string::StringSliceAdditionalSpecFns;
use vstd::utf8::{
    decode_utf8, encode_utf8, encode_utf8_decode_utf8, encode_utf8_valid_utf8, valid_utf8,
};

verus! {

/// Firmware version as reported by the hardware.
#[derive(Clone, Copy, Debug)]
pub struct FwVer(pub [u8; 64]);

/// Index of the first zero byte, or the whole length if none.
pub open spec fn fw_text_len(bs: Seq<u8>) -> int
    decreases bs.len(),
{
    if bs.len() == 0 {
        0
    } else if bs[0] == 0 {
        0
    } else {
        1 + fw_text_len(bs.drop_first())
    }
}

/// The rendered text of a buffer: the bytes before the first zero,
/// decoded as UTF-8, or a placeholder when that prefix is not a valid
/// encoding.
pub open spec fn fw_text(bs: Seq<u8>) -> Seq<char> {
    if valid_utf8(bs.take(fw_text_len(bs))) {
        decode_utf8(bs.take(fw_text_len(bs)))
    } else {
        "<invalid>"@
    }
}

/// The buffer stored for a piece of text: its first (at most) 63 bytes,
/// zero-padded to 64.
pub open spec fn fw_stored(bytes: Seq<u8>) -> Seq<u8> {
    let n = if bytes.len() < 63 {
        bytes.len() as int
    } else {
        63
    };
    bytes.take(n) + Seq::new((64 - n) as nat, |i: int| 0u8)
}

proof fn lemma_fw_text_len_at(bs: Seq<u8>, i: int)
    requires
        0 <= i <= bs.len(),
        forall|j: int| 0 <= j < i ==> #[trigger] bs[j] != 0,
        i < bs.len() ==> bs[i] == 0,
    ensures
        fw_text_len(bs) == i,
    decreases i,
{
    if bs.len() == 0 {
    } else if i == 0 {
    } else {
        assert(bs[0] != 0);
        lemma_fw_text_len_at(bs.drop_first(), i - 1);
    }
}

/// Law: a buffer holding only zero bytes renders as the empty text.
pub proof fn lemma_fw_text_all_zero(bs: Seq<u8>)
    requires
        forall|i: int| 0 <= i < bs.len() ==> #[trigger] bs[i] == 0,
    ensures
        fw_text(bs) == Seq::<char>::empty(),
{
    lemma_fw_text_len_at(bs, 0);
    assert(bs.take(0) =~= Seq::<u8>::empty());
    lemma_ascii_bytes_utf8(bs.take(0));
    assert(decode_utf8(Seq::<u8>::empty()) =~= Seq::<char>::empty());
}

/// Law: a buffer whose first `m` bytes are non-zero ASCII and whose next
/// byte (if any) is zero renders as exactly those `m` bytes, one
/// character each.
pub proof fn lemma_fw_text_ascii_prefix(bs: Seq<u8>, m: int)
    requires
        0 <= m <= bs.len(),
        forall|j: int| 0 <= j < m ==> 0 < #[trigger] bs[j] < 128,
        m < bs.len() ==> bs[m] == 0,
    ensures
        fw_text(bs) == chars_of_bytes(bs.take(m)),
{
    lemma_fw_text_len_at(bs, m);
    assert(forall|j: int| 0 <= j < m ==> #[trigger] bs.take(m)[j] < 128);
    lemma_ascii_bytes_utf8(bs.take(m));
}

/// Law: storing any text whose UTF-8 encoding is at most 63 bytes with no
/// zero byte, then rendering the buffer, yields the text unchanged.
pub proof fn lemma_fw_store_render_round_trip(s: Seq<char>)
    requires
        encode_utf8(s).len() <= 63,
        forall|i: int| 0 <= i < encode_utf8(s).len() ==> #[trigger] encode_utf8(s)[i] != 0,
    ensures
        fw_text(fw_stored(encode_utf8(s))) == s,
{
    let bytes = encode_utf8(s);
    let stored = fw_stored(bytes);
    assert(stored.len() == 64);
    assert(forall|j: int| 0 <= j < bytes.len() ==> #[trigger] stored[j] == bytes[j]);
    assert(stored[bytes.len() as int] == 0);
    lemma_fw_text_len_at(stored, bytes.len() as int);
    assert(stored.take(bytes.len() as int) =~= bytes);
    encode_utf8_valid_utf8(s);
    encode_utf8_decode_utf8(s);
}

/// Law: text of 63 or more bytes is stored truncated — the buffer renders
/// as exactly the first 63 bytes of the text, when those are non-zero
/// ASCII.
pub proof fn lemma_fw_stored_truncates(bytes: Seq<u8>)
    requires
        bytes.len() >= 63,
        forall|j: int| 0 <= j < 63 ==> 0 < #[trigger] bytes[j] < 128,
    ensures
        fw_text(fw_stored(bytes)) == chars_of_bytes(bytes.take(63)),
        fw_text(fw_stored(bytes)).len() == 63,
{
    let stored = fw_stored(bytes);
    assert(stored.len() == 64);
    assert(stored[63] == 0);
    assert(forall|j: int| 0 <= j < 63 ==> #[trigger] stored[j] == bytes[j]);
    lemma_fw_text_ascii_prefix(stored, 63);
    assert(stored.take(63) =~= bytes.take(63));
}

impl FwVer {
    /// Renders the buffer's text: the bytes before the first zero (or all
    /// 64 if none), decoded as UTF-8; a prefix that is not a valid
    /// encoding renders as the placeholder `<invalid>`.
    pub fn to_text(&self) -> (r: String)
        ensures
            r@ == fw_text(self.0@),
    {
        let mut len: usize = 0;
        while len < 64 && self.0[len] != 0
            invariant
                len <= 64,
                self.0@.len() == 64,
                forall|j: int| 0 <= j < len ==> #[trigger] self.0@[j] != 0,
            decreases 64 - len,
        {
            len += 1;
        }
        proof {
            lemma_fw_text_len_at(self.0@, len as int);
        }
        let mut out: Vec<u8> = Vec::new();
        let mut i: usize = 0;
        while i < len
            invariant
                i <= len <= 64,
                self.0@.len() == 64,
                fw_text_len(self.0@) == len,
                out@ =~= self.0@.take(i as int),
            decreases len - i,
        {
            out.push(self.0[i]);
            i += 1;
        }
        proof {
            assert(out@ =~= self.0@.take(fw_text_len(self.0@)));
        }
        match string_from_utf8(out) {
            Some(s) => s,
            None => String::from_str("<invalid>"),
        }
    }

    /// Stores a piece of text: copies at most 63 of its UTF-8 bytes into a
    /// zero-initialized buffer, silently truncating longer input.
    pub fn from_text(s: &str) -> (r: FwVer)
        ensures
            r.0@ == fw_stored(s.spec_bytes()),
    {
        let bytes = s.as_bytes();
        let n = if bytes.len() < 63 {
            bytes.len()
        } else {
            63
        };
        let mut buf = [0u8; 64];
        let mut i: usize = 0;
        while i < n
            invariant
                i <= n,
                n == if bytes@.len() < 63 {
                    bytes@.len() as int
                } else {
                    63
                },
                buf@.len() == 64,
                forall|j: int| 0 <= j < i ==> buf@[j] == #[trigger] bytes@[j],
                forall|j: int| i <= j < 64 ==> #[trigger] buf@[j] == 0,
            decreases n - i,
        {
            buf[i] = bytes[i];
            i += 1;
        }
        proof {
            assert(buf@ =~= fw_stored(bytes@));
        }
        FwVer(buf)
    }
}

} // verus!
