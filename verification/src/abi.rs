//! The calling convention shared by host and guest.
use vstd::prelude::*;
use vstd::utf8::{decode_utf8, encode_utf8, encode_utf8_decode_utf8};
use crate::text::{chars_vec, ascii_alnum, ascii_upper, is_ascii_alnum, push_char, to_ascii_upper};

verus! {

/// Version of the host/guest calling convention.
pub const ABI_VERSION: u32 = 1;

/// Prefix of every export the `#[offload]` expansion generates.
pub const EXPORT_PREFIX: &'static str = "__offload_";

/// Guest export that allocates an argument buffer.
pub const ALLOC_EXPORT: &'static str = "__offload_alloc";

/// Guest export that frees a buffer.
pub const FREE_EXPORT: &'static str = "__offload_free";

/// Guest export that reports the guest's calling-convention version.
pub const ABI_VERSION_EXPORT: &'static str = "__offload_abi_version";

/// The guest's exported linear memory.
pub const MEMORY_EXPORT: &'static str = "memory";

/// Name of the custom section that holds the manifest.
pub const MANIFEST_SECTION: &'static str = "offload-manifest";

/// Environment variable that points at the most recently built guest.
pub const GUEST_PATH_ENV: &'static str = "OFFLOAD_GUEST_PATH";

/// Alignment of every buffer the guest hands out.
pub const BUFFER_ALIGN: usize = 8;

/// The upper half of a packed return word holds the pointer, the lower half the length.
pub open spec fn spec_pack_ret(ptr: u32, len: u32) -> u64 {
    ((ptr as u64) << 32u64) | (len as u64)
}

/// Packs a guest buffer (pointer, length) into the single `u64` an export returns.
pub fn pack_ret(ptr: u32, len: u32) -> (packed: u64)
    ensures
        packed == spec_pack_ret(ptr, len),
        packed as int == ptr as int * 0x1_0000_0000 + len as int,
{
    let packed = ((ptr as u64) << 32u64) | (len as u64);
    assert(((ptr as u64) << 32u64) | (len as u64) == (ptr as u64) * 0x1_0000_0000u64 + (len as u64))
        by (bit_vector);
    packed
}

/// The (pointer, length) a packed return word stands for.
pub open spec fn spec_unpack_ret(packed: u64) -> (u32, u32) {
    ((packed as int / 0x1_0000_0000) as u32, (packed as int % 0x1_0000_0000) as u32)
}

/// Splits a packed return word back into (pointer, length).
pub fn unpack_ret(packed: u64) -> (parts: (u32, u32))
    ensures
        parts == spec_unpack_ret(packed),
{
    let ptr = (packed >> 32u64) as u32;
    let len = packed as u32;
    assert((packed >> 32u64) as u32 == packed / 0x1_0000_0000u64) by (bit_vector);
    assert(packed as u32 == packed % 0x1_0000_0000u64) by (bit_vector);
    (ptr, len)
}

/// Unpacking undoes packing: every (pointer, length) pair survives the trip.
pub proof fn lemma_unpack_pack(ptr: u32, len: u32)
    ensures
        spec_unpack_ret(spec_pack_ret(ptr, len)) == (ptr, len),
{
    assert(((ptr as u64) << 32u64) | (len as u64) == (ptr as u64) * 0x1_0000_0000u64 + (len as u64))
        by (bit_vector);
}

/// Packing undoes unpacking: every return word is the packing of its parts.
pub proof fn lemma_pack_unpack(packed: u64)
    ensures
        spec_pack_ret(spec_unpack_ret(packed).0, spec_unpack_ret(packed).1) == packed,
{
    let ptr = (packed / 0x1_0000_0000u64) as u32;
    let len = (packed % 0x1_0000_0000u64) as u32;
    assert(((ptr as u64) << 32u64) | (len as u64) == (ptr as u64) * 0x1_0000_0000u64 + (len as u64))
        by (bit_vector);
}


/// FNV-1a 64-bit offset basis.
pub const FNV_OFFSET_BASIS: u64 = 0xcbf2_9ce4_8422_2325u64;

/// FNV-1a 64-bit prime.
pub const FNV_PRIME: u64 = 0x0000_0100_0000_01b3u64;

/// One FNV-1a round: xor in the byte, then multiply modulo 2^64.
pub open spec fn fnv1a_step(hash: u64, byte: u8) -> u64 {
    ((hash ^ (byte as u64)) as nat * FNV_PRIME as nat % 0x1_0000_0000_0000_0000nat) as u64
}

/// FNV-1a over a byte sequence, folding from the left.
pub open spec fn fnv1a(bytes: Seq<u8>) -> u64
    decreases bytes.len(),
{
    if bytes.len() == 0 {
        FNV_OFFSET_BASIS
    } else {
        fnv1a_step(fnv1a(bytes.drop_last()), bytes.last())
    }
}

/// The hash is FNV-1a over every byte in order: the empty signature hashes
/// to the offset basis, and one more byte at the end, wherever it falls,
/// xors into the hash of what came before, which is then multiplied by the
/// FNV prime modulo 2^64.
pub proof fn lemma_fnv1a_folds_every_byte(s: Seq<u8>, b: u8)
    ensures
        fnv1a(Seq::empty()) == FNV_OFFSET_BASIS,
        fnv1a(s.push(b)) as nat == ((fnv1a(s) ^ (b as u64)) as nat * FNV_PRIME as nat)
            % 0x1_0000_0000_0000_0000nat,
{
    assert(s.push(b).drop_last() =~= s);
}

/// Hash of a normalized function signature (64-bit FNV-1a).
pub fn sig_hash(bytes: &[u8]) -> (hash: u64)
    ensures
        hash == fnv1a(bytes@),
{
    let mut hash: u64 = FNV_OFFSET_BASIS;
    let mut index: usize = 0;
    while index < bytes.len()
        invariant
            index <= bytes@.len(),
            hash == fnv1a(bytes@.take(index as int)),
        decreases bytes@.len() - index,
    {
        assert(bytes@.take(index + 1).drop_last() =~= bytes@.take(index as int));
        hash = hash ^ (bytes[index] as u64);
        hash = hash.wrapping_mul(FNV_PRIME);
        index += 1;
    }
    assert(bytes@.take(index as int) =~= bytes@);
    hash
}

/// The character an environment-variable suffix uses in place of `c`.
pub open spec fn env_suffix_char(c: char) -> char {
    if is_ascii_alnum(c) {
        ascii_upper(c)
    } else {
        '_'
    }
}

/// Upper-cased ASCII letters and digits, everything else `_`.
pub open spec fn spec_env_suffix(package: Seq<char>) -> Seq<char> {
    package.map_values(|c: char| env_suffix_char(c))
}

/// The suffix that names the per-package guest path variable.
pub fn guest_path_env_suffix(package: &str) -> (suffix: String)
    ensures
        suffix@ == spec_env_suffix(package@),
{
    let chars = chars_vec(package);
    let mut out = String::new();
    let n = chars.len();
    let mut i: usize = 0;
    while i < n
        invariant
            chars@ == package@,
            n == package@.len(),
            i <= n,
            out@ =~= spec_env_suffix(package@.take(i as int)),
        decreases n - i,
    {
        let c = chars[i];
        let mapped = if ascii_alnum(c) {
            to_ascii_upper(c)
        } else {
            '_'
        };
        push_char(&mut out, mapped);
        i += 1;
        assert(spec_env_suffix(package@.take(i as int)) =~= spec_env_suffix(package@.take(i - 1)).push(mapped));
    }
    assert(package@.take(n as int) =~= package@);
    out
}


/// The per-package guest path variable: `OFFLOAD_GUEST_PATH_<SUFFIX>`.
pub fn guest_path_env_var(package: &str) -> (name: String)
    ensures
        name@ == GUEST_PATH_ENV@ + seq!['_'] + spec_env_suffix(package@),
{
    let mut name = GUEST_PATH_ENV.to_owned();
    push_char(&mut name, '_');
    let suffix = guest_path_env_suffix(package);
    name.append(suffix.as_str());
    name
}

/// Whether two strings are equal, compared byte by byte.
pub fn str_eq(a: &str, b: &str) -> (equal: bool)
    ensures
        equal == (a@ == b@),
{
    let (x, y) = (a.as_bytes(), b.as_bytes());
    proof {
        encode_utf8_decode_utf8(a@);
        encode_utf8_decode_utf8(b@);
    }
    if x.len() != y.len() {
        return false;
    }
    let mut index: usize = 0;
    while index < x.len()
        invariant
            x@ == encode_utf8(a@),
            y@ == encode_utf8(b@),
            x@.len() == y@.len(),
            index <= x@.len(),
            forall|k: int| 0 <= k < index ==> x@[k] == y@[k],
        decreases x@.len() - index,
    {
        if x[index] != y[index] {
            return false;
        }
        index += 1;
    }
    assert(x@ =~= y@);
    true
}

} // verus!
