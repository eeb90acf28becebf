use filesend::cors::CORS;
use filesend::ident::{id_to_string, share_url};

#[test]
fn id_spelling_zero() {
    assert_eq!(id_to_string(0), "00000000-0000-0000-0000-000000000000");
}

#[test]
fn id_spelling_known_value() {
    let id: u128 = 0x0123_4567_89ab_cdef_0123_4567_89ab_cdef;
    assert_eq!(id_to_string(id), "01234567-89ab-cdef-0123-456789abcdef");
}

#[test]
fn id_spelling_all_ones() {
    assert_eq!(id_to_string(u128::MAX), "ffffffff-ffff-ffff-ffff-ffffffffffff");
}

#[test]
fn share_url_known_value() {
    let id: u128 = 0x0123_4567_89ab_cdef_0123_4567_89ab_cdef;
    assert_eq!(
        share_url(id),
        "https://filesend.rs/send/01234567-89ab-cdef-0123-456789abcdef"
    );
}

#[test]
fn cross_origin_headers() {
    let h = CORS::header_pairs();
    assert_eq!(h.len(), 4);
    assert_eq!(h[0], ("Access-Control-Allow-Origin", "*"));
    assert_eq!(h[1], ("Access-Control-Allow-Methods", "POST, GET, PATCH, OPTIONS"));
    assert_eq!(h[2], ("Access-Control-Allow-Headers", "*"));
    assert_eq!(h[3], ("Access-Control-Allow-Credentials", "true"));
}
