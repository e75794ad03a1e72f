use vulkan_quad::text::{holds_text, integer_to_string, natural_to_string};

#[test]
fn integers_are_written_as_std_writes_them() {
    for value in [0i32, 1, 9, 10, 42, 100, 65535, i32::MAX, -1, -10, -1_000_001_004, i32::MIN] {
        assert_eq!(integer_to_string(value), value.to_string());
    }
}

#[test]
fn naturals_are_written_in_decimal() {
    assert_eq!(natural_to_string(0), "0");
    assert_eq!(natural_to_string(7), "7");
    assert_eq!(natural_to_string(1234567890), "1234567890");
    assert_eq!(natural_to_string(u64::MAX), "18446744073709551615");
}

#[test]
fn holds_text_finds_whole_strings_only() {
    let names = vec![String::from("alpha"), String::from("beta")];
    assert!(holds_text(&names, "alpha"));
    assert!(holds_text(&names, "beta"));
    assert!(!holds_text(&names, "alph"));
    assert!(!holds_text(&names, ""));
    assert!(!holds_text(&Vec::new(), "alpha"));
}
