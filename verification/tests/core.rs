use offload::abi::{pack_ret, unpack_ret};
use offload::compat::AnCompatible;

#[test]
fn pack_unpack_roundtrip() {
    for (ptr, len) in [
        (0u32, 0u32),
        (8, 0),
        (0x1000, 1),
        (u32::MAX, u32::MAX),
        (0xdead_beef, 0x1234_5678),
    ] {
        assert_eq!(unpack_ret(pack_ret(ptr, len)), (ptr, len));
    }
}

#[test]
fn pack_layout_is_ptr_high_len_low() {
    assert_eq!(pack_ret(1, 2), (1u64 << 32) | 2);
}

fn assert_an<T: AnCompatible>() {}

#[test]
fn representative_an_compatible_types_compile() {
    assert_an::<Vec<Option<(String, u64)>>>();
    assert_an::<Box<[Result<i32, char>; 2]>>();
}
