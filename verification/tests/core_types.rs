use aya::btf::{TypeGraph, TypeNode};
use aya::cursor::{read_u16, read_u32, read_u64, Endianness};
use aya::generated::bpf_attach_type;
use aya::insn::{i16_from_bits, i32_from_bits, i32_to_bits};
use aya::pin::PinError;
use aya::programs::CgroupSockAttachType;

#[test]
fn attach_type_parsing() {
    assert!(matches!(
        CgroupSockAttachType::try_from("post_bind4"),
        Ok(CgroupSockAttachType::PostBind4)
    ));
    assert!(matches!(
        CgroupSockAttachType::try_from("post_bind6"),
        Ok(CgroupSockAttachType::PostBind6)
    ));
    assert!(matches!(
        CgroupSockAttachType::try_from("sock_create"),
        Ok(CgroupSockAttachType::SockCreate)
    ));
    assert!(matches!(
        CgroupSockAttachType::try_from("sock_release"),
        Ok(CgroupSockAttachType::SockRelease)
    ));
    let err = CgroupSockAttachType::try_from("bind9").unwrap_err();
    assert_eq!(err.0, "bind9");
}

#[test]
fn attach_type_default_and_kernel_code() {
    assert!(matches!(
        CgroupSockAttachType::default(),
        CgroupSockAttachType::SockCreate
    ));
    assert_eq!(
        bpf_attach_type::from(CgroupSockAttachType::PostBind6),
        bpf_attach_type::BPF_CGROUP_INET6_POST_BIND
    );
    assert_eq!(
        bpf_attach_type::from(CgroupSockAttachType::SockRelease),
        bpf_attach_type::BPF_CGROUP_INET_SOCK_RELEASE
    );
}

#[test]
fn pin_error_carries_its_context() {
    let e = PinError::AlreadyPinned { name: "sock_map".to_string() };
    assert!(matches!(e, PinError::AlreadyPinned { name } if name == "sock_map"));
    let e = PinError::SyscallError { name: "bpf_obj_pin".to_string(), code: 13 };
    assert!(matches!(e, PinError::SyscallError { code: 13, .. }));
}

#[test]
fn cursor_reads_both_byte_orders() {
    let b = vec![0x01u8, 0x02, 0x03, 0x04, 0x05, 0x06, 0x07, 0x08];
    assert_eq!(read_u16(&b, 0, Endianness::Little), 0x0201);
    assert_eq!(read_u16(&b, 0, Endianness::Big), 0x0102);
    assert_eq!(read_u32(&b, 0, Endianness::Little), 0x04030201);
    assert_eq!(read_u32(&b, 0, Endianness::Big), 0x01020304);
    assert_eq!(read_u64(&b, 0, Endianness::Little), 0x0807060504030201);
    assert_eq!(read_u64(&b, 0, Endianness::Big), 0x0102030405060708);
}

#[test]
fn bit_pattern_casts() {
    assert_eq!(i32_from_bits(0xFFFF_FFFF), -1);
    assert_eq!(i32_from_bits(0x7FFF_FFFF), i32::MAX);
    assert_eq!(i32_to_bits(-1), 0xFFFF_FFFF);
    assert_eq!(i32_to_bits(5), 5);
    assert_eq!(i16_from_bits(0xFFFF), -1);
    assert_eq!(i16_from_bits(0x7FFF), i16::MAX);
}

#[test]
fn string_table_lookup() {
    let mut g = TypeGraph::new();
    g.strings.extend_from_slice(b"foo\0ba");
    assert_eq!(g.string_at(0), Vec::<u8>::new());
    assert_eq!(g.string_at(1), b"foo".to_vec());
    // An entry missing its terminator ends at the table's edge.
    assert_eq!(g.string_at(5), b"ba".to_vec());
    // An offset past the table resolves to the empty string.
    assert_eq!(g.string_at(900), Vec::<u8>::new());
    assert_eq!(g.types.len(), 1);
    assert!(matches!(g.types[0], TypeNode::Void));
}
