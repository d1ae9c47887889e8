use rusty_faker_core::ipv6::format_ipv6;
use rusty_faker_core::net::{exclude_networks, excluded_networks, pool, private_networks, Net, PoolKind};
use rusty_faker_core::Generator;

fn parse_quad(s: &str) -> u32 {
    let parts: Vec<u32> = s.split('.').map(|p| p.parse::<u32>().unwrap()).collect();
    assert_eq!(parts.len(), 4, "{s}");
    assert!(parts.iter().all(|&p| p <= 255), "{s}");
    (parts[0] << 24) | (parts[1] << 16) | (parts[2] << 8) | parts[3]
}

fn parse_net(s: &str) -> Net {
    let (addr, prefix) = s.split_once('/').unwrap();
    Net { addr: parse_quad(addr), prefix: prefix.parse().unwrap() }
}

fn in_any(addr: u32, nets: &[Net]) -> bool {
    nets.iter().any(|n| addr >= n.addr && addr <= n.last())
}

/// A textual IPv6 address: at most eight hexadecimal groups, at most one `::`.
fn looks_like_ipv6(s: &str) -> bool {
    if let Some(rest) = s.strip_prefix("::ffff:") {
        if rest.contains('.') {
            return rest.split('.').count() == 4 && rest.split('.').all(|p| p.parse::<u8>().is_ok());
        }
    }
    let doubles = s.matches("::").count();
    if doubles > 1 {
        return false;
    }
    let groups: Vec<&str> = s.split(':').filter(|g| !g.is_empty()).collect();
    let ok_groups = groups.iter().all(|g| g.len() <= 4 && g.chars().all(|c| c.is_ascii_hexdigit()));
    ok_groups && (if doubles == 1 { groups.len() < 8 } else { groups.len() == 8 })
}

#[test]
fn exclusion_matches_python_address_exclude() {
    // ipaddress.ip_network('10.0.0.0/8').address_exclude(ip_network('10.1.0.0/16'))
    let out = parse_net("10.0.0.0/8").exclude(parse_net("10.1.0.0/16"));
    assert_eq!(out.len(), 8);
    assert_eq!(out.iter().map(|n| n.size()).sum::<u64>(), (1 << 24) - (1 << 16));
}

#[test]
fn ipv4_pools_respect_exclusions() {
    let excluded = excluded_networks();
    let private = private_networks();
    let mut g = Generator::seeded("en_US", 6).unwrap();
    for _ in 0..2000 {
        let any = parse_quad(&g.ipv4(false, None, None));
        assert!(!in_any(any, &excluded));
        let private_addr = parse_quad(&g.ipv4_private(false, None));
        assert!(in_any(private_addr, &private));
        let public = parse_quad(&g.ipv4_public(false, Some("b")));
        assert!(!in_any(public, &private) && !in_any(public, &excluded));
        assert!((0x8000_0000..0xC000_0000).contains(&public));
        let network = g.ipv4(true, None, None);
        let net = parse_net(&network);
        assert_eq!(net.addr & !(u32::MAX.checked_shl(32 - u32::from(net.prefix)).unwrap_or(0)), 0, "{network}");
    }
}

#[test]
fn internet_formats() {
    let mut g = Generator::seeded("en_US", 6).unwrap();
    for _ in 0..500 {
        let email = g.email(true, None);
        let (user, domain) = email.split_once('@').unwrap();
        assert!(!user.is_empty() && domain.starts_with("example."), "{email}");
        let free = g.email(false, None);
        assert!(free.contains('@') && !free.contains(' ') && free == free.to_lowercase(), "{free}");
        assert_eq!(g.mac_address(false).len(), 17);
        assert!(looks_like_ipv6(&g.ipv6(false)));
        let url = g.url(None);
        assert!(url.starts_with("http") && url.ends_with('/'), "{url}");
        assert_eq!(g.url(Some(&[])).get(..3), Some("://"));
        assert!(g.domain_name(2).unwrap().matches('.').count() == 2);
        assert!(g.hostname(0).contains('-'));
        assert!(!g.slug(None).unwrap().contains(' '));
    }
    assert_eq!(g.slug(Some("Hello World!")).unwrap(), "hello-world");
    assert!(g.nic_handle("X").is_err());
    assert!(g.dga(Some(2020), Some(1), Some(1), Some("com"), Some(10)).unwrap().ends_with(".com"));
    assert_eq!(g.image_url(Some(10), Some(20), Some("x/{width}/{height}")), "x/10/20");
}

#[test]
fn ipv6_text_follows_rfc5952() {
    assert_eq!(format_ipv6(0x2001_0db8_0000_0000_0000_0000_0000_0001), "2001:db8::1");
    assert_eq!(format_ipv6(0x2001_0db8_0000_0001_0000_0000_0000_0001), "2001:db8:0:1::1");
    assert_eq!(format_ipv6(0x2001_0db8_0001_0000_0001_0001_0001_0001), "2001:db8:1:0:1:1:1:1");
    assert_eq!(format_ipv6(0), "::");
    assert_eq!(format_ipv6(1), "::1");
    assert_eq!(format_ipv6(0x0000_0000_0000_0000_0000_ffff_c000_0280), "::ffff:192.0.2.128");
    assert_eq!(format_ipv6(0x1_0000_0000), "::1:0:0");
    assert_eq!(format_ipv6(u128::MAX), "ffff:ffff:ffff:ffff:ffff:ffff:ffff:ffff");
}

#[test]
fn ipv6_networks_have_prefixes() {
    let mut g = Generator::seeded("en_US", 31).unwrap();
    for _ in 0..200 {
        let net = g.ipv6(true);
        let (addr, prefix) = net.split_once('/').unwrap();
        assert!(looks_like_ipv6(addr), "{net}");
        assert!(prefix.parse::<u32>().unwrap() <= 128);
    }
}

#[test]
fn network_arithmetic() {
    let n = Net::new(192, 168, 0, 0, 16);
    assert_eq!(n.size(), 65_536);
    assert_eq!(n.last(), 0xC0A8_FFFF);
    let (low, high) = n.split();
    assert_eq!(low, Net::new(192, 168, 0, 0, 17));
    assert_eq!(high, Net::new(192, 168, 128, 0, 17));
    assert!(n.contains(low) && !low.contains(n) && low.overlaps(n) && !low.overlaps(high));
    assert_eq!(Net::new(0, 0, 0, 0, 0).size(), 1 << 32);
    assert!(n.exclude(n).is_empty());
}

#[test]
fn excluding_networks_is_set_difference() {
    let out = exclude_networks(vec![Net::new(10, 0, 0, 0, 8)], &vec![Net::new(10, 1, 0, 0, 16), Net::new(10, 0, 0, 0, 9)]);
    let total: u64 = out.iter().map(|n| n.size()).sum();
    assert_eq!(total, 1 << 23);
    assert!(!in_any(0x0A01_0203, &out) && !in_any(0x0A00_0001, &out) && in_any(0x0A80_0001, &out));
    // An excluded network that only overlaps drops the whole network.
    let dropped = exclude_networks(vec![Net::new(10, 1, 0, 0, 16)], &vec![Net::new(10, 0, 0, 0, 8)]);
    assert!(dropped.is_empty());
}

#[test]
fn ports_codes_and_ids() {
    let mut g = Generator::seeded("en_US", 17).unwrap();
    for _ in 0..200 {
        assert!(g.port_number(true, false, false) < 1024);
        let user = g.port_number(false, true, false);
        assert!((1024..=49151).contains(&user));
        assert!(g.port_number(false, false, true) >= 49152);
        assert!((100..=599).contains(&g.http_status_code(true)));
        let mac = g.mac_address(true);
        assert_eq!(u8::from_str_radix(&mac[..2], 16).unwrap() % 2, 1, "{mac}");
        assert_eq!(g.ipv4_network_class().is_ascii_lowercase(), true);
    }
    assert_eq!(g.nic_handles(2, "FAKE").unwrap().len(), 2);
    let ripe = g.ripe_id();
    assert!(ripe.starts_with("ORG-") && ripe.ends_with("-RIPE") && !ripe.chars().any(|c| c.is_ascii_lowercase()), "{ripe}");
    assert_eq!(g.domain_name(0).unwrap_err().message(), "levels must be greater than or equal to 1");
}

#[test]
fn pool_totals_count_each_address_once() {
    assert_eq!(pool(PoolKind::All, 0).total(), 3_720_148_992);
    assert_eq!(pool(PoolKind::Private, 1).total(), 16_777_216);
    assert_eq!(pool(PoolKind::Private, 2).total(), 1_048_576);
    assert_eq!(pool(PoolKind::Private, 3).total(), 65_536);
    assert_eq!(pool(PoolKind::Public, 2).total(), 1_072_627_712);
}

#[test]
fn image_url_and_dga_with_every_argument_draw_nothing() {
    let mut a = Generator::seeded("en_US", 12).unwrap();
    let mut b = Generator::seeded("en_US", 12).unwrap();
    assert_eq!(a.image_url(Some(10), Some(20), Some("x/{width}/{height}")), "x/10/20");
    let s = a.dga(Some(2020), Some(1), Some(1), Some("com"), Some(10)).unwrap();
    assert_eq!(s.len(), 14);
    assert!(s.ends_with(".com"));
    assert_eq!(format!("{:?}", a.rng()), format!("{:?}", b.rng()));
    assert_eq!(a.name(), b.name());
}
