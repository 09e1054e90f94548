use vibing::features::club::{club_path, decimal_text};

#[test]
fn club_path_of_an_id() {
    assert_eq!(club_path(42), "/api/v1/club/42");
}

#[test]
fn decimal_text_edges() {
    assert_eq!(decimal_text(0), "0");
    assert_eq!(decimal_text(7), "7");
    assert_eq!(decimal_text(10), "10");
    assert_eq!(decimal_text(1005), "1005");
    assert_eq!(decimal_text(u32::MAX), "4294967295");
}
