//! Text as the native side takes it: the bytes of the host string followed by
//! one terminator byte, with no length passed beside it.
//!
//! A native reader stops at the first terminator it meets, so a host string
//! that holds a terminator byte of its own cannot be handed over whole. Such
//! a string is refused with [`MarshalError::EmbeddedTerminator`]; it is never
//! cut short or patched.

use vstd::prelude::*;
use vstd::string::StringSliceAdditionalSpecFns;
use vstd::utf8::*;

verus! {

/// The byte that ends every native string.
pub const TERMINATOR: u8 = 0;

/// Why a host value could not be laid out for a native call.
#[derive(Clone, Copy, Debug, PartialEq, Eq, Structural)]
pub enum MarshalError {
    /// The text holds a terminator byte; `at` is the index of the first one
    /// among the text's bytes.
    EmbeddedTerminator { at: usize },
}

/// `bytes` holds a terminator byte somewhere.
pub open spec fn has_terminator(bytes: Seq<u8>) -> bool {
    exists|i: int| 0 <= i < bytes.len() && bytes[i] == TERMINATOR
}

/// `at` is the index of the first terminator byte in `bytes`.
pub open spec fn first_terminator_at(bytes: Seq<u8>, at: int) -> bool {
    &&& 0 <= at < bytes.len()
    &&& bytes[at] == TERMINATOR
    &&& forall|j: int| 0 <= j < at ==> bytes[j] != TERMINATOR
}

/// The buffer that stands for `bytes` in a native call: the same bytes, then
/// one terminator.
pub open spec fn terminated(bytes: Seq<u8>) -> Seq<u8> {
    bytes.push(TERMINATOR)
}

/// `buf` is a native string: it ends in a terminator and holds no other.
pub open spec fn is_native_text(buf: Seq<u8>) -> bool {
    first_terminator_at(buf, buf.len() - 1)
}

/// What a native reader takes from `buf`: the bytes before the first
/// terminator, or all of them where there is none.
pub open spec fn native_reading(buf: Seq<u8>) -> Seq<u8>
    decreases buf.len(),
{
    if buf.len() == 0 || buf[0] == TERMINATOR {
        Seq::empty()
    } else {
        seq![buf[0]] + native_reading(buf.drop_first())
    }
}

/// Lays `text` out for a native call.
///
/// Succeeds exactly when the text's bytes hold no terminator, which is when
/// none of its characters is NUL, and then gives those bytes followed by a
/// single terminator. Otherwise reports where the first embedded terminator
/// stands.
pub fn marshal_text(text: &str) -> (r: Result<Vec<u8>, MarshalError>)
    ensures
        match r {
            Ok(buf) => !has_terminator(text.spec_bytes()) && buf@ == terminated(text.spec_bytes()),
            Err(MarshalError::EmbeddedTerminator { at }) => first_terminator_at(
                text.spec_bytes(),
                at as int,
            ),
        },
        r is Err <==> text@.contains('\0'),
{
    proof {
        lemma_terminator_iff_nul(text@);
    }
    let bytes = text.as_bytes();
    let n: usize = bytes.len();
    let mut buf: Vec<u8> = Vec::new();
    let mut i: usize = 0;
    while i < n
        invariant
            bytes@ == text.spec_bytes(),
            has_terminator(bytes@) <==> text@.contains('\0'),
            n == bytes@.len(),
            i <= n,
            buf@ == bytes@.take(i as int),
            forall|j: int| 0 <= j < i ==> bytes@[j] != TERMINATOR,
        decreases n - i,
    {
        let b: u8 = bytes[i];
        if b == TERMINATOR {
            return Err(MarshalError::EmbeddedTerminator { at: i });
        }
        buf.push(b);
        assert(bytes@.take(i as int).push(b) == bytes@.take(i + 1));
        i += 1;
    }
    assert(bytes@.take(n as int) == bytes@);
    buf.push(TERMINATOR);
    Ok(buf)
}

/// A buffer made by [`terminated`] from bytes without a terminator is a native
/// string, and a native reader takes from it exactly the bytes it was made
/// from.
pub proof fn lemma_terminated_reads_back(bytes: Seq<u8>)
    requires
        !has_terminator(bytes),
    ensures
        is_native_text(terminated(bytes)),
        native_reading(terminated(bytes)) == bytes,
        terminated(bytes).len() == bytes.len() + 1,
    decreases bytes.len(),
{
    let buf = terminated(bytes);
    assert forall|j: int| 0 <= j < buf.len() - 1 implies buf[j] != TERMINATOR by {
        assert(buf[j] == bytes[j]);
    }
    if bytes.len() == 0 {
        assert(native_reading(buf) == bytes);
    } else {
        let rest = bytes.drop_first();
        assert(bytes[0] != TERMINATOR);
        assert forall|j: int| 0 <= j < rest.len() implies rest[j] != TERMINATOR by {
            assert(rest[j] == bytes[j + 1]);
        }
        lemma_terminated_reads_back(rest);
        assert(buf.drop_first() == terminated(rest));
        assert(seq![buf[0]] + rest == bytes);
    }
}

/// Had bytes with an embedded terminator been handed over all the same, the
/// native reader would have taken only what stands before it.
pub proof fn lemma_embedded_terminator_cuts(bytes: Seq<u8>, at: int)
    requires
        first_terminator_at(bytes, at),
    ensures
        native_reading(terminated(bytes)) == bytes.take(at),
        native_reading(terminated(bytes)).len() < bytes.len(),
    decreases at,
{
    let buf = terminated(bytes);
    if at == 0 {
        assert(buf[0] == bytes[0]);
        assert(bytes.take(0) == Seq::<u8>::empty());
    } else {
        let rest = bytes.drop_first();
        assert(bytes[0] != TERMINATOR);
        assert(buf[0] == bytes[0]);
        assert(rest[at - 1] == bytes[at]);
        assert forall|j: int| 0 <= j < at - 1 implies rest[j] != TERMINATOR by {
            assert(rest[j] == bytes[j + 1]);
        }
        lemma_embedded_terminator_cuts(rest, at - 1);
        assert(buf.drop_first() == terminated(rest));
        assert(seq![bytes[0]] + rest.take(at - 1) == bytes.take(at));
    }
}

/// The encoding of one character holds a terminator byte exactly when the
/// character is NUL.
pub proof fn lemma_char_terminator(c: char)
    ensures
        has_terminator(encode_scalar(c as u32)) <==> c == '\0',
{
    let v: u32 = c as u32;
    let enc = encode_scalar(v);
    char_is_scalar(c);
    assert(v <= 0x7F ==> (((v & 0x7F) as u8 == 0u8) <==> v == 0)) by (bit_vector);
    assert((0xC0u8 | ((v >> 6) & 0x1F) as u8) != 0u8) by (bit_vector);
    assert((0xE0u8 | ((v >> 12) & 0x0F) as u8) != 0u8) by (bit_vector);
    assert((0xF0u8 | ((v >> 18) & 0x7) as u8) != 0u8) by (bit_vector);
    assert((0x80u8 | (v & 0x3F) as u8) != 0u8) by (bit_vector);
    assert((0x80u8 | ((v >> 6) & 0x3F) as u8) != 0u8) by (bit_vector);
    assert((0x80u8 | ((v >> 12) & 0x3F) as u8) != 0u8) by (bit_vector);
    if v == 0 {
        assert(enc[0] == TERMINATOR);
    }
}

/// A text's bytes hold a terminator exactly when one of its characters is
/// NUL: no other character's encoding has a zero byte in it.
pub proof fn lemma_terminator_iff_nul(chars: Seq<char>)
    ensures
        has_terminator(encode_utf8(chars)) <==> chars.contains('\0'),
    decreases chars.len(),
{
    if chars.len() > 0 {
        let head = encode_scalar(chars[0] as u32);
        let rest = chars.drop_first();
        let tail = encode_utf8(rest);
        let all = encode_utf8(chars);
        assert(all == head + tail);
        lemma_char_terminator(chars[0]);
        lemma_terminator_iff_nul(rest);
        if has_terminator(all) {
            let i = choose|i: int| 0 <= i < all.len() && all[i] == TERMINATOR;
            if i < head.len() {
                assert(head[i] == TERMINATOR);
                assert(chars[0] == '\0');
            } else {
                assert(tail[i - head.len()] == TERMINATOR);
                let k = choose|k: int| 0 <= k < rest.len() && rest[k] == '\0';
                assert(chars[k + 1] == '\0');
            }
        }
        if chars.contains('\0') {
            let k = choose|k: int| 0 <= k < chars.len() && chars[k] == '\0';
            if k == 0 {
                let i = choose|i: int| 0 <= i < head.len() && head[i] == TERMINATOR;
                assert(all[i] == TERMINATOR);
            } else {
                assert(rest[k - 1] == '\0');
                let i = choose|i: int| 0 <= i < tail.len() && tail[i] == TERMINATOR;
                assert(all[head.len() + i] == TERMINATOR);
            }
        }
    }
}

} // verus!
