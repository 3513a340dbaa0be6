use svgico::ceiling::ceil_div_u64;

#[test]
fn ceil_div_rounds_up() {
    assert_eq!(ceil_div_u64(0, 5), 0);
    assert_eq!(ceil_div_u64(1, 5), 1);
    assert_eq!(ceil_div_u64(5, 5), 1);
    assert_eq!(ceil_div_u64(6, 5), 2);
    assert_eq!(ceil_div_u64(256 * 50, 100), 128);
    assert_eq!(ceil_div_u64(256, 3), 86);
}
