use ytdl_watch::diagnostics::{decimal_bytes_i32, diagnostics_content};

fn bv(s: &str) -> Vec<u8> {
    s.as_bytes().to_vec()
}

#[test]
fn exit_codes_render_in_decimal() {
    assert_eq!(decimal_bytes_i32(0), bv("0"));
    assert_eq!(decimal_bytes_i32(1), bv("1"));
    assert_eq!(decimal_bytes_i32(10), bv("10"));
    assert_eq!(decimal_bytes_i32(255), bv("255"));
    assert_eq!(decimal_bytes_i32(i32::MAX), bv("2147483647"));
    assert_eq!(decimal_bytes_i32(-1), bv("-1"));
    assert_eq!(decimal_bytes_i32(i32::MIN), bv("-2147483648"));
}

#[test]
fn diagnostics_record_names_code_and_stderr() {
    let content = diagnostics_content(1, &bv("boom"));
    assert_eq!(content, bv("Exited with error code: 1\n\nboom\n"));
}

#[test]
fn diagnostics_record_with_empty_stderr() {
    let content = diagnostics_content(101, &bv(""));
    assert_eq!(content, bv("Exited with error code: 101\n\n\n"));
}

#[test]
fn rerunning_a_failure_gives_the_same_shape() {
    let first = diagnostics_content(1, &bv("no such url"));
    let second = diagnostics_content(1, &bv("no such url"));
    assert_eq!(first, second);

    // Different captured text, same layout: identical through the code and
    // the blank line, then the stderr bytes, then one final newline.
    let other = diagnostics_content(1, &bv("timeout"));
    let head = bv("Exited with error code: 1\n\n");
    assert_eq!(&first[..head.len()], &head[..]);
    assert_eq!(&other[..head.len()], &head[..]);
    assert_eq!(first.last(), Some(&b'\n'));
    assert_eq!(other.last(), Some(&b'\n'));
}
