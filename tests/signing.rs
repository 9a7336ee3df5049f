use kline_ladder::signing::generate_post_signature;

#[test]
fn signature_is_hmac_sha256_of_the_concatenation() {
    // HMAC-SHA256 with key "Jefe" over "what do ya want for nothing?"
    let sig = generate_post_signature("what do ya", " want ", "for", " nothing?", "Jefe");
    assert_eq!(sig, "5bdcc146bf60754e6a042426089575c75a003f089d2739839dec58b964ec3843");
}

#[test]
fn signing_twice_gives_the_same_digest() {
    let a = generate_post_signature("1700000000000", "key", "10000", "{\"category\":\"linear\"}", "secret");
    let b = generate_post_signature("1700000000000", "key", "10000", "{\"category\":\"linear\"}", "secret");
    assert_eq!(a, b);
    assert_eq!(a.len(), 64);
    assert!(a.chars().all(|c| c.is_ascii_digit() || ('a'..='f').contains(&c)));
}

#[test]
fn changing_any_input_changes_the_digest() {
    let base = generate_post_signature("1", "k", "10000", "{}", "s");
    assert_ne!(base, generate_post_signature("2", "k", "10000", "{}", "s"));
    assert_ne!(base, generate_post_signature("1", "K", "10000", "{}", "s"));
    assert_ne!(base, generate_post_signature("1", "k", "5000", "{}", "s"));
    assert_ne!(base, generate_post_signature("1", "k", "10000", "[]", "s"));
    assert_ne!(base, generate_post_signature("1", "k", "10000", "{}", "S"));
}
