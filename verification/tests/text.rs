use novaos::text::{push_bool, push_decimal, push_decimal_line, push_hex, push_hex_line, push_text_line};

#[test]
fn decimal_rendering_matches_display() {
    for value in [0u64, 7, 10, 99, 100, 131072, 4_000_000_007, u64::MAX] {
        let mut s = String::from("v=");
        push_decimal(&mut s, value);
        assert_eq!(s, format!("v={}", value));
    }
}

#[test]
fn hex_rendering_matches_alternate_lower_hex() {
    for value in [0u64, 0xa, 0xf, 0x10, 0x4000_0000, 0xdead_beef, u64::MAX] {
        let mut s = String::new();
        push_hex(&mut s, value);
        assert_eq!(s, format!("{:#x}", value));
    }
}

#[test]
fn report_lines_end_with_newline() {
    let mut s = String::new();
    push_text_line(&mut s, "kind", "demo");
    push_decimal_line(&mut s, "count", 12);
    push_hex_line(&mut s, "base", 0x1000);
    push_bool(&mut s, false);
    assert_eq!(s, "kind=demo\ncount=12\nbase=0x1000\nfalse");
}
