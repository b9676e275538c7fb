use lxc_builder::digest::{sha512_hex_of, Sha512Stream};

#[test]
fn sha512_of_abc() {
    assert_eq!(
        sha512_hex_of(b"abc"),
        "ddaf35a193617abacc417349ae20413112e6fa4e89a97ea20a9eeee64b55d39a2192992a274fc1a836ba3c23a3feebbd454d4423643ce80e2a9ac94fa54ca49f"
    );
}

#[test]
fn sha512_of_nothing() {
    assert_eq!(
        Sha512Stream::new().finish(),
        "cf83e1357eefb8bdf1542850d66d8007d620e4050b5715dc83f4a921d36ce9ce47d0d13c5d85f2b0ff8318d2877eec2f63b931bd47417a81a538327af927da3e"
    );
}

#[test]
fn chunks_hash_like_the_whole() {
    let data: Vec<u8> = (0..1000u32).map(|i| (i % 251) as u8).collect();
    let mut s = Sha512Stream::new();
    for c in data.chunks(77) {
        s.update(c);
    }
    let d = s.finish();
    assert_eq!(d.len(), 128);
    assert_eq!(d, sha512_hex_of(&data));
    assert!(d.chars().all(|c| c.is_ascii_hexdigit() && !c.is_ascii_uppercase()));
}
