//! Copying strings into C buffers.

use vstd::prelude::*;
use vstd::utf8::encode_utf8;

verus! {

/// How many bytes of a string of `src_len` bytes a C buffer of `dst_len`
/// bytes takes, one byte being kept for the terminator.
pub open spec fn copied_len(src_len: nat, dst_len: nat) -> nat
    recommends
        dst_len > 0,
{
    if src_len < dst_len {
        src_len
    } else {
        (dst_len - 1) as nat
    }
}

/// How many bytes of a C buffer of `dst_len` bytes a copy of a string of
/// `src_len` bytes writes, the terminator among them.
pub open spec fn written_len_spec(src_len: nat, dst_len: nat) -> nat {
    if src_len < dst_len {
        src_len + 1
    } else {
        dst_len
    }
}

/// What a C buffer with the contents `dst` holds once `src` was copied into
/// it: as much of `src` as fits, the terminator, and behind it the bytes that
/// were there before. A buffer of no bytes stays as it is.
pub open spec fn cstr_written(src: Seq<u8>, dst: Seq<u8>) -> Seq<u8> {
    if dst.len() == 0 {
        dst
    } else {
        let n = copied_len(src.len(), dst.len()) as int;
        src.take(n) + seq![0u8] + dst.skip(n + 1)
    }
}

/// The bytes that C code reads out of a buffer: those before the first zero.
pub open spec fn cstr_read(buf: Seq<u8>) -> Seq<u8>
    decreases buf.len(),
{
    if buf.len() == 0 || buf[0] == 0 {
        Seq::empty()
    } else {
        seq![buf[0]] + cstr_read(buf.drop_first())
    }
}

/// Says how many bytes of a C buffer of `dst_len` bytes `copy_cstr` writes for
/// `src`.
pub fn written_len(src: &str, dst_len: usize) -> (len: usize)
    ensures
        len == written_len_spec(encode_utf8(src@).len(), dst_len as nat),
        len <= dst_len,
        len <= encode_utf8(src@).len() + 1,
        len == dst_len || len == encode_utf8(src@).len() + 1,
{
    let bytes: &[u8] = src.as_bytes();
    if bytes.len() < dst_len {
        bytes.len() + 1
    } else {
        dst_len
    }
}

/// Copies `src` into the C buffer `dst`, cut to the buffer's length and
/// terminated by a zero byte. Without a buffer nothing happens.
pub fn copy_cstr(src: &str, dst: Option<&mut [u8]>)
    ensures
        dst matches Some(d) ==> final(d)@ == cstr_written(encode_utf8(src@), d@),
        dst matches Some(d) ==> final(d)@.len() == d@.len(),
        dst matches Some(d) ==> forall|i: int|
            0 <= i < d@.len() ==> #[trigger] final(d)@[i] == if i < encode_utf8(src@).len() && i
                < d@.len() - 1 {
                encode_utf8(src@)[i]
            } else if i == encode_utf8(src@).len() || i == d@.len() - 1 && i <= encode_utf8(
                src@,
            ).len() {
                0
            } else {
                d@[i]
            },
{
    if let Some(d) = dst {
        let bytes: &[u8] = src.as_bytes();
        let dst_len: usize = d.len();
        if dst_len == 0 {
            return;
        }
        let len: usize = if bytes.len() < dst_len {
            bytes.len()
        } else {
            dst_len - 1
        };
        let ghost before = d@;
        let mut i: usize = 0;
        while i < len
            invariant
                i <= len < dst_len,
                len <= bytes@.len(),
                d@.len() == dst_len,
                before.len() == dst_len,
                d@ == bytes@.take(i as int) + before.skip(i as int),
            decreases len - i,
        {
            d[i] = bytes[i];
            i += 1;
        }
        d[len] = 0;
        assert(d@ == cstr_written(bytes@, before));
    }
}

} // verus!
