use ping_dispatch::text::mention;

#[test]
fn mention_wraps_identifier() {
    assert_eq!(mention(42), "<@42>");
    assert_eq!(mention(123456789012345678), "<@123456789012345678>");
}

#[test]
fn mention_of_single_digit() {
    assert_eq!(mention(0), "<@0>");
    assert_eq!(mention(7), "<@7>");
    assert_eq!(mention(9), "<@9>");
}

#[test]
fn mention_keeps_inner_zeros() {
    assert_eq!(mention(10), "<@10>");
    assert_eq!(mention(1000), "<@1000>");
    assert_eq!(mention(10203), "<@10203>");
}

#[test]
fn mention_of_largest_identifier() {
    assert_eq!(mention(u64::MAX), "<@18446744073709551615>");
}

#[test]
fn mention_agrees_with_decimal_formatting() {
    let mut id: u64 = 1;
    for _ in 0..64 {
        assert_eq!(mention(id), format!("<@{}>", id));
        assert_eq!(mention(id.wrapping_sub(1)), format!("<@{}>", id.wrapping_sub(1)));
        id = id.wrapping_mul(3).wrapping_add(7);
    }
}
