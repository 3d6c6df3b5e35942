use sibyl::Error;
use sibyl::err::{get_oracle_error, Diag};
use sibyl::text::{push_decimal, push_digits, push_zero_padded5, same_text};

#[test]
fn oracle_error_displays_code_and_message() {
    let e = Error::from_diagnostics(0, 942, "table or view does not exist\n");
    assert_eq!(e.to_string(), "ORA-00942: table or view does not exist");
}

#[test]
fn oracle_message_with_prefix_is_kept() {
    let e = Error::from_diagnostics(0, 1017, "ORA-01017: invalid username/password; logon denied\n");
    assert_eq!(e.to_string(), "ORA-01017: invalid username/password; logon denied");
}

#[test]
fn undiagnosed_errors_describe_the_status() {
    assert_eq!(get_oracle_error(-1, 100, "ignored"), (100, String::from("No Data")));
    assert_eq!(get_oracle_error(-1, 99, "ignored"), (99, String::from("Need Data")));
    assert_eq!(get_oracle_error(-1, -2, "ignored"), (-2, String::from("Error -2")));
    let e = Error::from_diagnostics(-1, -1, "");
    assert_eq!(e.to_string(), "ORA--0001: Error -1");
}

#[test]
fn interface_errors_show_their_message() {
    let e = Error::new("cannot convert");
    assert_eq!(e.to_string(), "cannot convert");
    let e = Error::msg(String::from("pool is empty"));
    assert_eq!(e.to_string(), "pool is empty");
}

#[test]
fn errors_compare_by_code_or_message() {
    let a = Error::from_diagnostics(0, 942, "one text");
    let b = Error::from_diagnostics(0, 942, "another text");
    let c = Error::from_diagnostics(0, 1017, "one text");
    assert!(a.eq(&b));
    assert!(!a.eq(&c));
    assert!(Error::new("x").eq(&Error::new("x")));
    assert!(!Error::new("x").eq(&Error::new("y")));
    assert!(!Error::new("x").eq(&a));
}

#[test]
fn diagnostics_name_their_handle() {
    let d = Diag::env(7, -1);
    assert_eq!((d.handle, d.htype, d.rc), (7, 1, -1));
    let d = Diag::oci(8, -2);
    assert_eq!((d.handle, d.htype, d.rc), (8, 2, -2));
}

#[test]
fn numbers_are_written_in_decimal() {
    let mut s = String::new();
    push_digits(&mut s, 0);
    push_digits(&mut s, 1234567890);
    assert_eq!(s, "01234567890");
    let mut s = String::new();
    push_decimal(&mut s, i64::MIN);
    assert_eq!(s, "-9223372036854775808");
    let mut s = String::new();
    push_zero_padded5(&mut s, 42);
    push_zero_padded5(&mut s, 123456);
    push_zero_padded5(&mut s, -7);
    assert_eq!(s, "00042123456-0007");
}

#[test]
fn texts_compare_by_characters() {
    assert!(same_text("abc", "abc"));
    assert!(!same_text("abc", "abd"));
    assert!(!same_text("abc", "ab"));
    assert!(same_text("", ""));
}

#[test]
fn trailing_white_space_is_cut_from_messages() {
    let e = Error::from_diagnostics(0, 1, "unique constraint violated \t\r\n\u{3000}");
    assert_eq!(e.to_string(), "ORA-00001: unique constraint violated");
    let e = Error::from_diagnostics(0, 1, " \n");
    assert_eq!(e.to_string(), "ORA-00001: ");
}
