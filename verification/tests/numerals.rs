use comfyui_openai_api::text::decimal_text;

#[test]
fn numerals_are_decimal() {
    for number in [0, 1, 9, 10, 19, 100, 101, 65535, 4294967295, usize::MAX] {
        assert_eq!(decimal_text(number), format!("{}", number));
    }
}
