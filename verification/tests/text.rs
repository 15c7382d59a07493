use todo_rs::text::integer_to_text;
use todo_rs::text::natural_to_text;
use todo_rs::text::pad_right;
use todo_rs::text::repeat_text;

#[test]
fn natural_numbers_are_written_in_decimal() {
    assert_eq!(natural_to_text(0), "0");
    assert_eq!(natural_to_text(7), "7");
    assert_eq!(natural_to_text(10), "10");
    assert_eq!(natural_to_text(9999), "9999");
    assert_eq!(natural_to_text(u64::MAX), "18446744073709551615");
}

#[test]
fn integers_are_written_as_display_writes_them() {
    let samples: Vec<i64> = vec![0, 1, -1, 9, 10, -10, 42, 9999, -123456789, i64::MAX, i64::MIN];
    for number in samples {
        assert_eq!(integer_to_text(number), format!("{}", number));
    }
    assert_eq!(integer_to_text(i64::MIN), "-9223372036854775808");
    assert_eq!(integer_to_text(i64::MAX), "9223372036854775807");
}

#[test]
fn repeat_text_writes_the_unit_count_times() {
    assert_eq!(repeat_text("-", 0), "");
    assert_eq!(repeat_text("-", 3), "---");
    assert_eq!(repeat_text("ab", 2), "abab");
    assert_eq!(repeat_text("-", 60), "-".repeat(60));
}

#[test]
fn pad_right_fills_short_texts_with_spaces() {
    assert_eq!(pad_right("ID", 8), "ID      ");
    assert_eq!(pad_right("", 3), "   ");
    assert_eq!(pad_right("false", 8), format!("{:<8}", "false"));
}

#[test]
fn pad_right_keeps_texts_that_fill_the_column() {
    assert_eq!(pad_right("12345678", 8), "12345678");
    assert_eq!(pad_right("123456789", 8), "123456789");
    assert_eq!(pad_right("abc", 0), "abc");
}

#[test]
fn pad_right_counts_characters_not_bytes() {
    assert_eq!(pad_right("né", 4), "né  ");
    assert_eq!(pad_right("日本", 3), format!("{:<3}", "日本"));
}
