use fun_ops::strings::{string_length, OwnedString};
use fun_ops::{
    fun_rust_echo_string, fun_rust_get_string, fun_rust_print_string, fun_rust_string_free,
};

#[test]
fn greeting_is_terminated() {
    let s = fun_rust_get_string();
    assert_eq!(s.as_bytes(), b"Hello from Rust ops!\0");
    assert_eq!(s.len(), 21);
    assert_eq!(string_length(s.as_bytes()), 20);
}

#[test]
fn greeting_is_the_same_on_each_call() {
    let first = fun_rust_get_string();
    let second = fun_rust_get_string();
    assert_eq!(first, second);
    assert_eq!(first.as_ptr(), second.as_ptr());
}

#[test]
fn string_length_stops_at_the_first_zero() {
    assert_eq!(string_length(&[0]), 0);
    assert_eq!(string_length(&[0, 65, 0]), 0);
    assert_eq!(string_length(&[65, 66, 0]), 2);
    assert_eq!(string_length(&[65, 66, 0, 67, 0]), 2);
    assert_eq!(string_length(&[255, 0]), 1);
}

#[test]
fn echo_copies_every_byte() {
    let input = b"stack machine\0";
    let out = fun_rust_echo_string(Some(&input[..]));
    assert_eq!(out.as_bytes(), &input[..]);
    assert_eq!(fun_rust_string_free(Some(out)), 14);
}

#[test]
fn echo_keeps_bytes_that_are_no_text() {
    let input: [u8; 6] = [0xff, 0xfe, 0x41, 0x80, 0xc3, 0];
    let out = fun_rust_echo_string(Some(&input[..]));
    assert_eq!(out.as_bytes(), &[0xff, 0xfe, 0x41, 0x80, 0xc3, 0][..]);
    assert_eq!(fun_rust_string_free(Some(out)), 6);
}

#[test]
fn echo_stops_at_the_terminator() {
    let input: [u8; 6] = [72, 105, 0, 1, 2, 0];
    let out = fun_rust_echo_string(Some(&input[..]));
    assert_eq!(out.as_bytes(), &[72, 105, 0][..]);
    assert_eq!(fun_rust_string_free(Some(out)), 3);
}

#[test]
fn echo_of_the_empty_string() {
    let out = fun_rust_echo_string(Some(&[0u8][..]));
    assert_eq!(out.as_bytes(), &[0u8][..]);
    assert_eq!(fun_rust_string_free(Some(out)), 1);
}

#[test]
fn echo_of_null_is_the_empty_string() {
    let out = fun_rust_echo_string(None);
    assert_eq!(out.as_bytes(), &[0u8][..]);
    assert_eq!(out.as_bytes().len(), 1);
    assert_eq!(fun_rust_string_free(Some(out)), 1);
}

#[test]
fn echo_makes_a_buffer_of_its_own() {
    let mut input = vec![97, 98, 99, 0];
    let out = fun_rust_echo_string(Some(&input[..]));
    input[0] = 120;
    assert_eq!(out.as_bytes(), &[97, 98, 99, 0][..]);
    assert_eq!(out.into_vec(), vec![97, 98, 99, 0]);
}

#[test]
fn free_of_null_releases_nothing() {
    assert_eq!(fun_rust_string_free(None), 0);
}

#[test]
fn print_sends_the_string_and_a_newline() {
    let (line, status) = fun_rust_print_string(b"hello\0");
    assert_eq!(line, b"hello\n".to_vec());
    assert_eq!(status, 0);
    let (line, status) = fun_rust_print_string(&[0xff, 0x0a, 0, 65]);
    assert_eq!(line, vec![0xff, 0x0a, 0x0a]);
    assert_eq!(status, 0);
    let (line, status) = fun_rust_print_string(&[0]);
    assert_eq!(line, vec![10]);
    assert_eq!(status, 0);
}

#[test]
fn print_of_the_greeting() {
    let (line, status) = fun_rust_print_string(fun_rust_get_string().as_bytes());
    assert_eq!(line, b"Hello from Rust ops!\n".to_vec());
    assert_eq!(status, 0);
}

#[test]
fn from_vec_takes_only_a_terminated_buffer() {
    assert!(OwnedString::from_vec(Vec::new()).is_none());
    assert!(OwnedString::from_vec(vec![1, 2, 3]).is_none());
    assert!(OwnedString::from_vec(vec![1, 0, 3, 0]).is_none());
    assert!(OwnedString::from_vec(vec![0, 0]).is_none());
    let owned = OwnedString::from_vec(vec![1, 2, 0]);
    assert!(owned.is_some());
    assert_eq!(fun_rust_string_free(owned), 3);
    let owned = OwnedString::from_vec(vec![0]);
    assert!(owned.is_some());
    assert_eq!(fun_rust_string_free(owned), 1);
}

#[test]
fn from_vec_and_into_vec_keep_the_bytes() {
    let bytes = vec![200, 201, 0];
    let owned = OwnedString::from_vec(bytes.clone());
    assert!(owned.is_some());
    if let Some(owned) = owned {
        assert_eq!(owned.as_bytes(), &bytes[..]);
        assert_eq!(owned.into_vec(), bytes);
    }
}
