use escrow::pad_name;
use escrow::TrimAsciiWhitespace;

fn trim_of(bytes: &[u8]) -> Vec<u8> {
    bytes.trim_ascii_whitespace().to_vec()
}

#[test]
fn trim_removes_both_ends() {
    assert_eq!(trim_of(b"  swap-test  "), b"swap-test".to_vec());
    assert_eq!(trim_of(b"swap-test "), b"swap-test".to_vec());
    assert_eq!(trim_of(b" swap-test"), b"swap-test".to_vec());
}

#[test]
fn trim_keeps_what_has_no_whitespace_at_its_ends() {
    assert_eq!(trim_of(b"swap-test"), b"swap-test".to_vec());
    assert_eq!(trim_of(b"x"), b"x".to_vec());
}

#[test]
fn trim_keeps_inner_whitespace() {
    assert_eq!(trim_of(b" a b\tc "), b"a b\tc".to_vec());
}

#[test]
fn trim_of_nothing_but_whitespace_is_empty() {
    assert_eq!(trim_of(b""), Vec::<u8>::new());
    assert_eq!(trim_of(b" "), Vec::<u8>::new());
    assert_eq!(trim_of(b" \t\n\x0c\r "), Vec::<u8>::new());
}

#[test]
fn trim_knows_the_five_whitespace_bytes() {
    assert_eq!(trim_of(b"\t\n\x0c\r a \r\x0c\n\t"), b"a".to_vec());
    // vertical tab, zero and the no-break space's byte are no ASCII whitespace
    assert_eq!(trim_of(b"\x0ba\x0b"), b"\x0ba\x0b".to_vec());
    assert_eq!(trim_of(b"\x00a\x00"), b"\x00a\x00".to_vec());
    assert_eq!(trim_of(b"\xa0a\xa0"), b"\xa0a\xa0".to_vec());
}

#[test]
fn trim_agrees_with_std_on_every_byte() {
    for b in 0u8..=255 {
        let s = [b, b'x', b];
        assert_eq!(trim_of(&s), s.trim_ascii().to_vec());
        let lone = [b];
        assert_eq!(trim_of(&lone), lone.trim_ascii().to_vec());
    }
}

#[test]
fn trim_single_kept_byte_between_runs() {
    assert_eq!(trim_of(b"   z   "), b"z".to_vec());
    assert_eq!(trim_of(b"z   "), b"z".to_vec());
    assert_eq!(trim_of(b"   z"), b"z".to_vec());
}

#[test]
fn trim_on_a_vec() {
    let v: Vec<u8> = b"  label ".to_vec();
    assert_eq!(v.trim_ascii_whitespace(), b"label");
    let blank: Vec<u8> = b"   ".to_vec();
    assert_eq!(blank.trim_ascii_whitespace(), b"");
}

#[test]
fn trim_is_idempotent() {
    let once = trim_of(b" \t a  b \n");
    assert_eq!(trim_of(&once), once);
}

#[test]
fn pad_fills_with_spaces() {
    assert_eq!(pad_name(b"swap-test"), *b"swap-test ");
    assert_eq!(pad_name(b""), *b"          ");
    assert_eq!(pad_name(b"a"), *b"a         ");
    assert_eq!(pad_name(b"0123456789"), *b"0123456789");
}

#[test]
fn trim_undoes_pad() {
    let names: [&[u8]; 4] = [b"swap-test", b"a", b"0123456789", b"a b"];
    for name in names {
        let tag = pad_name(name);
        let stored: &[u8] = &tag;
        assert_eq!(stored.trim_ascii_whitespace(), name);
    }
    let blank = pad_name(b"");
    let stored: &[u8] = &blank;
    assert_eq!(stored.trim_ascii_whitespace(), b"");
}
