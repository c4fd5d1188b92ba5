//! The postcard wire format of the values the manifest is made of. postcard
//! writes unsigned integers as LEB128 varints and strings as a varint byte
//! length followed by their UTF-8 bytes; a struct is its fields in order.
use vstd::prelude::*;
use vstd::utf8::encode_utf8;

verus! {

/// LEB128: seven bits per byte, least significant group first, the high bit
/// set on every byte but the last.
pub open spec fn varint(n: nat) -> Seq<u8>
    decreases n,
{
    if n < 128 {
        seq![n as u8]
    } else {
        seq![(n % 128 + 128) as u8] + varint(n / 128)
    }
}

/// A string: its UTF-8 byte length as a varint, then the bytes.
pub open spec fn str_bytes(s: Seq<char>) -> Seq<u8> {
    varint(encode_utf8(s).len()) + encode_utf8(s)
}

/// `rest` is what is left of `bytes` after a non-empty prefix was consumed.
pub open spec fn strict_suffix(rest: Seq<u8>, bytes: Seq<u8>) -> bool {
    rest.len() < bytes.len() && rest == bytes.subrange(bytes.len() - rest.len(), bytes.len() as int)
}

pub proof fn lemma_strict_suffix_trans(c: Seq<u8>, b: Seq<u8>, a: Seq<u8>)
    requires
        strict_suffix(c, b),
        strict_suffix(b, a),
    ensures
        strict_suffix(c, a),
{
    assert(c =~= a.subrange(a.len() - c.len(), a.len() as int));
}

/// What `postcard::take_from_bytes::<String>` yields for `bytes`: the decoded
/// string and the unread remainder, or postcard's error.
pub uninterp spec fn postcard_take_str(bytes: Seq<u8>) -> Result<(Seq<char>, Seq<u8>), postcard::Error>;

/// What `postcard::take_from_bytes::<u32>` yields for `bytes`.
pub uninterp spec fn postcard_take_u32(bytes: Seq<u8>) -> Result<(u32, Seq<u8>), postcard::Error>;

/// What `postcard::take_from_bytes::<u64>` yields for `bytes`.
pub uninterp spec fn postcard_take_u64(bytes: Seq<u8>) -> Result<(u64, Seq<u8>), postcard::Error>;

/// `postcard::to_allocvec` on a `str`. Trusted: serializing into a growable
/// vector cannot fail, and the bytes are the length varint followed by the
/// string's UTF-8 encoding (postcard's `serialize_str`).
#[verifier::external_body]
pub(crate) fn encode_str(s: &str) -> (r: Result<Vec<u8>, postcard::Error>)
    ensures
        r is Ok,
        r.unwrap()@ == str_bytes(s@),
{
    postcard::to_allocvec(s)
}

/// `postcard::to_allocvec` on a `u32`. Trusted: infallible, and the bytes are
/// the value's LEB128 varint.
#[verifier::external_body]
pub(crate) fn encode_u32(x: u32) -> (r: Result<Vec<u8>, postcard::Error>)
    ensures
        r is Ok,
        r.unwrap()@ == varint(x as nat),
{
    postcard::to_allocvec(&x)
}

/// `postcard::to_allocvec` on a `u64`. Trusted: infallible, and the bytes are
/// the value's LEB128 varint.
#[verifier::external_body]
pub(crate) fn encode_u64(x: u64) -> (r: Result<Vec<u8>, postcard::Error>)
    ensures
        r is Ok,
        r.unwrap()@ == varint(x as nat),
{
    postcard::to_allocvec(&x)
}

/// `postcard::take_from_bytes::<String>`. Trusted: the result is the named
/// [`postcard_take_str`]; on success at least one byte was consumed and the
/// remainder is the tail of `bytes`; and bytes that start with the encoding of
/// a string decode to that string and leave the rest. Which error a malformed
/// input gives is left to the name.
#[verifier::external_body]
pub(crate) fn take_str(bytes: &[u8]) -> (r: Result<(String, &[u8]), postcard::Error>)
    ensures
        r is Ok ==> postcard_take_str(bytes@) == Ok::<(Seq<char>, Seq<u8>), postcard::Error>((r.unwrap().0@, r.unwrap().1@)),
        r is Ok ==> strict_suffix(r.unwrap().1@, bytes@),
        r is Err ==> postcard_take_str(bytes@) == Err::<(Seq<char>, Seq<u8>), postcard::Error>(r->Err_0),
        forall|s: Seq<char>, rest: Seq<u8>|
            #[trigger] (str_bytes(s) + rest) == bytes@ ==> (r is Ok && r.unwrap().0@ == s
                && r.unwrap().1@ == rest),
{
    postcard::take_from_bytes::<String>(bytes)
}

/// `postcard::take_from_bytes::<u32>`. Trusted as [`take_str`], with the
/// value's varint in place of the string's encoding.
#[verifier::external_body]
pub(crate) fn take_u32(bytes: &[u8]) -> (r: Result<(u32, &[u8]), postcard::Error>)
    ensures
        r is Ok ==> postcard_take_u32(bytes@) == Ok::<(u32, Seq<u8>), postcard::Error>((r.unwrap().0, r.unwrap().1@)),
        r is Ok ==> strict_suffix(r.unwrap().1@, bytes@),
        r is Err ==> postcard_take_u32(bytes@) == Err::<(u32, Seq<u8>), postcard::Error>(r->Err_0),
        forall|x: u32, rest: Seq<u8>|
            #[trigger] (varint(x as nat) + rest) == bytes@ ==> (r is Ok && r.unwrap().0 == x
                && r.unwrap().1@ == rest),
{
    postcard::take_from_bytes::<u32>(bytes)
}

/// `postcard::take_from_bytes::<u64>`. Trusted as [`take_u32`].
#[verifier::external_body]
pub(crate) fn take_u64(bytes: &[u8]) -> (r: Result<(u64, &[u8]), postcard::Error>)
    ensures
        r is Ok ==> postcard_take_u64(bytes@) == Ok::<(u64, Seq<u8>), postcard::Error>((r.unwrap().0, r.unwrap().1@)),
        r is Ok ==> strict_suffix(r.unwrap().1@, bytes@),
        r is Err ==> postcard_take_u64(bytes@) == Err::<(u64, Seq<u8>), postcard::Error>(r->Err_0),
        forall|x: u64, rest: Seq<u8>|
            #[trigger] (varint(x as nat) + rest) == bytes@ ==> (r is Ok && r.unwrap().0 == x
                && r.unwrap().1@ == rest),
{
    postcard::take_from_bytes::<u64>(bytes)
}

} // verus!
