use sndb_utils::{InputBuffer, SeekFrom};

#[test]
fn test_writing() {
    let mut buf = InputBuffer::new();

    buf.write("abcd");
    assert_eq!(buf.to_string(), "abcd|");

    buf.write("e");
    assert_eq!(buf.to_string(), "abcde|");

    buf.seek(SeekFrom::Current(-2));
    buf.write("0");
    assert_eq!(buf.to_string(), "abc0|de");

    buf.write("xyz");
    assert_eq!(buf.to_string(), "abc0xyz|de");
}

#[test]
fn test_delete() {
    let mut buf = InputBuffer::new();

    buf.write("abcd");
    buf.delete();
    assert_eq!(buf.to_string(), "abcd|");

    buf.seek(SeekFrom::Start(2));
    buf.delete();
    assert_eq!(buf.to_string(), "ab|d");
}

#[test]
fn test_backspace() {
    let mut buf = InputBuffer::new();

    buf.write("abcd");
    buf.backspace();
    assert_eq!(buf.to_string(), "abc|");

    buf.seek(SeekFrom::Start(0));
    buf.backspace();
    assert_eq!(buf.to_string(), "|abc");
}

#[test]
fn test_prefix() {
    let mut buf = InputBuffer::new();
    buf.write("ab_d");
    assert_eq!(buf.prefix(), "ab");

    buf.seek(SeekFrom::Start(2));
    buf.delete();
    buf.write("-");
    assert_eq!(buf.prefix(), "ab");

    buf.backspace();
    assert_eq!(buf.prefix(), "abd");
}

#[test]
fn test_apply_prefix() {
    let mut buf = InputBuffer::new();
    buf.write("abcd-1");

    buf.seek(SeekFrom::Current(-3));
    buf.apply_prefix("12345");
    assert_eq!(buf.to_string(), "1abc|d-1");

    buf.apply_prefix("789");
    assert_eq!(buf.to_string(), "1abc|d-1");

    buf.seek(SeekFrom::End(0));
    buf.apply_prefix("9xxxxx");
    assert_eq!(buf.to_string(), "91abcd-1|");
}

#[test]
fn prefix_examples() {
    let mut a = InputBuffer::new();
    a.write("ab_d");
    assert_eq!(a.prefix(), "ab");
    let mut b = InputBuffer::new();
    b.write("abcd");
    assert_eq!(b.prefix(), "abcd");
    let c = InputBuffer::new();
    assert_eq!(c.prefix(), "");
}

#[test]
fn apply_prefix_example_shifts_cursor_by_prepended_length() {
    let mut buf = InputBuffer::new();
    buf.write("abcd-1");
    buf.seek(SeekFrom::End(-3));
    assert_eq!(buf.position(), 3);
    buf.apply_prefix("12345");
    assert_eq!(buf.text_string(), "1abcd-1");
    assert_eq!(buf.position(), 4);
    buf.apply_prefix("789");
    assert_eq!(buf.text_string(), "1abcd-1");
    assert_eq!(buf.position(), 4);
}

#[test]
fn apply_prefix_twice_same_argument() {
    let mut buf = InputBuffer::new();
    buf.write("12-7");
    buf.apply_prefix("98765");
    let once = buf.text_string();
    assert_eq!(once, "98712-7");
    buf.apply_prefix("98765");
    assert_eq!(buf.text_string(), once);
}

#[test]
fn apply_prefix_with_delimiter_in_prepended_text_prepends_again() {
    let mut buf = InputBuffer::new();
    buf.write("xy");
    buf.apply_prefix("a-bcdef");
    assert_eq!(buf.text_string(), "a-bcdxy");
    buf.apply_prefix("a-bcdef");
    assert_eq!(buf.text_string(), "a-bcdea-bcdxy");
}

#[test]
fn trim_prefix_takes_start_of_other() {
    let mut buf = InputBuffer::new();
    buf.write("ab-1");
    assert_eq!(buf.trim_prefix("12345"), "123");
    assert_eq!(buf.trim_prefix("1"), "");
    assert_eq!(buf.trim_prefix("12"), "");
}

#[test]
fn seeks_are_clamped() {
    let mut buf = InputBuffer::new();
    buf.write("abc");
    buf.seek(SeekFrom::Current(-10));
    assert_eq!(buf.position(), 0);
    buf.seek(SeekFrom::Start(99));
    assert_eq!(buf.position(), 3);
    buf.seek(SeekFrom::End(5));
    assert_eq!(buf.position(), 3);
    buf.seek(SeekFrom::End(-1));
    assert_eq!(buf.position(), 2);
    buf.seek(SeekFrom::Current(1));
    assert_eq!(buf.position(), 3);
}

#[test]
fn edits_keep_cursor_on_character_boundaries() {
    let mut buf = InputBuffer::new();
    buf.write("añ€x");
    assert_eq!(buf.len(), 4);
    buf.seek(SeekFrom::Current(-1));
    buf.backspace();
    assert_eq!(buf.text_string(), "añx");
    assert_eq!(buf.position(), 2);
    buf.seek(SeekFrom::Start(1));
    buf.delete();
    assert_eq!(buf.text_string(), "ax");
    assert_eq!(buf.to_string(), "a|x");
    buf.insert_char('é');
    assert_eq!(buf.to_string(), "aé|x");
    assert!(buf.position() <= buf.len());
    buf.seek(SeekFrom::Start(0));
    buf.backspace();
    assert_eq!(buf.position(), 0);
    buf.seek(SeekFrom::End(0));
    buf.delete();
    assert_eq!(buf.to_string(), "aéx|");
}

#[test]
fn empty_insert_is_a_no_op() {
    let mut buf = InputBuffer::new();
    buf.write("ab");
    buf.write("");
    assert_eq!(buf.to_string(), "ab|");
    assert!(!buf.is_empty());
    assert!(InputBuffer::new().is_empty());
}
