use sk_lookup::context::{decode, BpfSkLookup, IpAddr, SkLookupContext, AF_INET6};

fn region(family: u32) -> BpfSkLookup {
    BpfSkLookup {
        family,
        protocol: 6,
        local_ip4: 0x7F000001,
        local_ip6: [1, 0, 0, 0],
        local_port: 443,
        remote_ip4: 0x0A000002,
        remote_ip6: [2, 0, 0, 1],
        remote_port: 55555,
    }
}

#[test]
fn family_10_decodes_to_v6() {
    assert_eq!(AF_INET6, 10);
    assert_eq!(decode(10, 0, [1, 2, 3, 4]), IpAddr::V6([1, 2, 3, 4]));
    assert_eq!(
        decode(10, 0xDEADBEEF, [0, 0, 0, 0]),
        IpAddr::V6([0, 0, 0, 0])
    );
}

#[test]
fn every_other_family_decodes_to_v4() {
    for family in [0u32, 1, 2, 6, 9, 11, 17, u32::MAX] {
        assert_eq!(
            decode(family, 0x7F000001, [1, 2, 3, 4]),
            IpAddr::V4(0x7F000001)
        );
    }
}

#[test]
fn v4_region_local_ip() {
    let ctx = SkLookupContext::new(region(2));
    assert_eq!(ctx.local_ip(), IpAddr::V4(0x7F000001));
    assert_eq!(ctx.remote_ip(), IpAddr::V4(0x0A000002));
}

#[test]
fn v6_region_local_ip() {
    let ctx = SkLookupContext::new(region(10));
    assert_eq!(ctx.local_ip(), IpAddr::V6([1, 0, 0, 0]));
    assert_eq!(ctx.remote_ip(), IpAddr::V6([2, 0, 0, 1]));
}

#[test]
fn ports_and_protocol_come_back_raw() {
    let ctx = SkLookupContext::new(region(2));
    assert_eq!(ctx.protocol(), 6);
    assert_eq!(ctx.local_port(), 443);
    assert_eq!(ctx.remote_port(), 55555);
}

#[test]
fn out_of_range_raw_values_are_not_validated() {
    let mut r = region(2);
    r.protocol = 0xFFFF_FFFF;
    r.local_port = 0x0001_0000;
    let ctx = SkLookupContext::new(r);
    assert_eq!(ctx.protocol(), 0xFFFF_FFFF);
    assert_eq!(ctx.local_port(), 0x0001_0000);
}
