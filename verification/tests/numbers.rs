use cloud_hypervisor_command_builder::{u64_to_string, ByteSize};

#[test]
fn decimal_rendering_exact() {
    assert_eq!(u64_to_string(0), "0");
    assert_eq!(u64_to_string(7), "7");
    assert_eq!(u64_to_string(10), "10");
    assert_eq!(u64_to_string(305), "305");
    assert_eq!(u64_to_string(4_000_000_000), "4000000000");
    assert_eq!(u64_to_string(u64::MAX), "18446744073709551615");
}

#[test]
fn byte_size_constructors_scale_si() {
    assert_eq!(ByteSize::b(123).0, 123);
    assert_eq!(ByteSize::kb(2).0, 2_000);
    assert_eq!(ByteSize::mb(2).0, 2_000_000);
    assert_eq!(ByteSize::gb(2).0, 2_000_000_000);
}
