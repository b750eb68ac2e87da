use meerkat::addresses::{import_slug, listen_address, public_address, service_url};

#[test]
fn slug_is_text_after_last_slash() {
    assert_eq!(import_slug("/ip4/1.2.3.4/tcp/9000/p2p/QmPeer/s2"), "s2");
    assert_eq!(import_slug("plain"), "plain");
    assert_eq!(import_slug("ends/with/"), "");
    assert_eq!(import_slug(""), "");
    assert_eq!(import_slug("/ünïcode"), "ünïcode");
}

#[test]
fn slug_matches_split_last() {
    for url in ["a/b/c", "abc", "/", "//x", "x//", "a/é/ß"] {
        assert_eq!(import_slug(url), url.split('/').last().unwrap());
    }
}

#[test]
fn listen_addresses() {
    assert_eq!(listen_address(true, 9000), "/ip4/127.0.0.1/tcp/9000");
    assert_eq!(listen_address(false, 0), "/ip4/0.0.0.0/tcp/0");
    assert_eq!(listen_address(false, 65535), "/ip4/0.0.0.0/tcp/65535");
}

#[test]
fn public_address_replaces_unspecified_and_loopback() {
    assert_eq!(
        public_address("/ip4/0.0.0.0/tcp/9000", "10.0.0.5", "QmPeer"),
        "/ip4/10.0.0.5/tcp/9000/p2p/QmPeer"
    );
    assert_eq!(
        public_address("/ip4/127.0.0.1/tcp/9100", "192.168.1.2", "id"),
        "/ip4/192.168.1.2/tcp/9100/p2p/id"
    );
    assert_eq!(public_address("/ip4/8.8.8.8/tcp/1", "1.1.1.1", "p"), "/ip4/8.8.8.8/tcp/1/p2p/p");
}

#[test]
fn public_address_matches_std_replace() {
    for (addr, ip) in [
        ("0.0.0.0.0.0.0", "X"),
        ("127.0.0.1127.0.0.1", "Y"),
        ("0.0.0.0/127.0.0.1/0.0.0", "Z"),
        ("", "W"),
        ("0.0.0.", "V"),
        ("a0.0.0.0b", "127.0.0.1"),
    ] {
        let expected = format!("{}/p2p/{}", addr.replace("0.0.0.0", ip).replace("127.0.0.1", ip), "peer");
        assert_eq!(public_address(addr, ip, "peer"), expected);
    }
}

#[test]
fn service_urls() {
    assert_eq!(service_url("/ip4/1.2.3.4/tcp/9/p2p/Qm", "svc"), "/ip4/1.2.3.4/tcp/9/p2p/Qm/svc");
}

#[test]
fn slug_is_a_slashless_suffix() {
    for url in ["a/b/c", "xyz", "a/", "/only"] {
        let s = import_slug(url);
        assert!(url.ends_with(&s));
        assert!(!s.contains('/'));
    }
}
