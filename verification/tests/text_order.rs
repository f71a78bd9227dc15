use rasm::text::{compare, decimal_text, Placement};

#[test]
fn compare_orders_by_first_difference() {
    assert_eq!(compare("src/a.asm", "src/sub/c.s"), Placement::Before);
    assert_eq!(compare("src/sub/c.s", "src/a.asm"), Placement::After);
    assert_eq!(compare("src/a.asm", "src/a.asm"), Placement::Same);
}

#[test]
fn compare_puts_a_prefix_first() {
    assert_eq!(compare("src/a", "src/a.asm"), Placement::Before);
    assert_eq!(compare("", "a"), Placement::Before);
    assert_eq!(compare("a", ""), Placement::After);
    assert_eq!(compare("", ""), Placement::Same);
}

#[test]
fn compare_is_by_code_point() {
    assert_eq!(compare("B", "a"), Placement::Before);
    assert_eq!(compare("z", "é"), Placement::Before);
    assert_eq!(compare("é", "日"), Placement::Before);
}

#[test]
fn decimal_text_writes_numerals() {
    assert_eq!(decimal_text(0), "0");
    assert_eq!(decimal_text(7), "7");
    assert_eq!(decimal_text(10), "10");
    assert_eq!(decimal_text(2024), "2024");
    assert_eq!(decimal_text(1234567890), "1234567890");
}
