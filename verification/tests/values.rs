use chargectl::decimal::{encode, parse};
use chargectl::error::{ChargeError, IoFailure};
use chargectl::sysfs::{read_threshold, write_threshold};

#[test]
fn thresholds_are_written_as_decimal_digits() {
    assert_eq!(write_threshold(0), b"0".to_vec());
    assert_eq!(write_threshold(7), b"7".to_vec());
    assert_eq!(write_threshold(10), b"10".to_vec());
    assert_eq!(write_threshold(42), b"42".to_vec());
    assert_eq!(write_threshold(99), b"99".to_vec());
    assert_eq!(write_threshold(100), b"100".to_vec());
    assert_eq!(write_threshold(109), b"109".to_vec());
    assert_eq!(write_threshold(255), b"255".to_vec());
}

#[test]
fn encode_agrees_with_the_standard_formatter() {
    for value in 0..=255u8 {
        assert_eq!(encode(value), format!("{value}").into_bytes());
    }
}

#[test]
fn thresholds_are_read_from_what_the_kernel_writes() {
    assert_eq!(read_threshold(Ok(b"50\n".to_vec())), Ok(50));
    assert_eq!(read_threshold(Ok(b"80".to_vec())), Ok(80));
    assert_eq!(read_threshold(Ok(b"0\n".to_vec())), Ok(0));
    assert_eq!(read_threshold(Ok(b"100\n".to_vec())), Ok(100));
}

#[test]
fn white_space_around_a_threshold_is_dropped() {
    assert_eq!(read_threshold(Ok(b"  75 \n".to_vec())), Ok(75));
    assert_eq!(read_threshold(Ok(b"\t\r\n75\x0b\x0c".to_vec())), Ok(75));
    assert_eq!(read_threshold(Ok(b"\n\n1".to_vec())), Ok(1));
}

#[test]
fn a_plus_sign_and_leading_zeros_are_taken() {
    assert_eq!(read_threshold(Ok(b"+5\n".to_vec())), Ok(5));
    assert_eq!(read_threshold(Ok(b"0050".to_vec())), Ok(50));
    assert_eq!(read_threshold(Ok(b"+000100".to_vec())), Ok(100));
    assert_eq!(read_threshold(Ok(b"0000000000000000000000007".to_vec())), Ok(7));
}

#[test]
fn what_is_no_percentage_is_malformed() {
    let malformed = Err(ChargeError::MalformedKernelValue);
    assert_eq!(read_threshold(Ok(Vec::new())), malformed);
    assert_eq!(read_threshold(Ok(b"\n".to_vec())), malformed);
    assert_eq!(read_threshold(Ok(b"abc".to_vec())), malformed);
    assert_eq!(read_threshold(Ok(b"5 0".to_vec())), malformed);
    assert_eq!(read_threshold(Ok(b"50%".to_vec())), malformed);
    assert_eq!(read_threshold(Ok(b"-1".to_vec())), malformed);
    assert_eq!(read_threshold(Ok(b"+".to_vec())), malformed);
    assert_eq!(read_threshold(Ok(b"++5".to_vec())), malformed);
    assert_eq!(read_threshold(Ok(b"+ 5".to_vec())), malformed);
    assert_eq!(read_threshold(Ok(b"5.0".to_vec())), malformed);
    assert_eq!(read_threshold(Ok(b"0x10".to_vec())), malformed);
    assert_eq!(read_threshold(Ok(vec![0xff, 0xfe])), malformed);
    assert_eq!(read_threshold(Ok(vec![0xc2, 0xa0, b'5'])), malformed);
}

#[test]
fn a_number_over_one_hundred_is_malformed() {
    let malformed = Err(ChargeError::MalformedKernelValue);
    assert_eq!(read_threshold(Ok(b"101".to_vec())), malformed);
    assert_eq!(read_threshold(Ok(b"255".to_vec())), malformed);
    assert_eq!(read_threshold(Ok(b"256".to_vec())), malformed);
    assert_eq!(read_threshold(Ok(b"1000".to_vec())), malformed);
    assert_eq!(read_threshold(Ok(b"99999999999999999999999999".to_vec())), malformed);
    assert_eq!(read_threshold(Ok(b"1000x".to_vec())), malformed);
}

#[test]
fn a_failed_read_keeps_its_failure() {
    assert_eq!(
        read_threshold(Err(IoFailure::PermissionDenied)),
        Err(ChargeError::Io(IoFailure::PermissionDenied))
    );
    assert_eq!(
        read_threshold(Err(IoFailure::NotFound)),
        Err(ChargeError::Io(IoFailure::NotFound))
    );
    assert_eq!(
        read_threshold(Err(IoFailure::Other("No such device (os error 19)".to_string()))),
        Err(ChargeError::Io(IoFailure::Other("No such device (os error 19)".to_string())))
    );
}

#[test]
fn every_percentage_reads_back_as_written() {
    for value in 0..=100u8 {
        assert_eq!(read_threshold(Ok(write_threshold(value))), Ok(value));
        assert_eq!(parse(&encode(value)), Some(value));
    }
    for value in 101..=255u8 {
        assert_eq!(parse(&encode(value)), None);
    }
}

#[test]
fn parse_agrees_with_the_standard_parser_on_short_texts() {
    let alphabet: [u8; 6] = [b'0', b'1', b'9', b'+', b' ', b'\n'];
    let mut texts: Vec<Vec<u8>> = vec![Vec::new()];
    let mut from = 0;
    for _ in 0..4 {
        let upto = texts.len();
        for i in from..upto {
            for byte in alphabet {
                let mut longer = texts[i].clone();
                longer.push(byte);
                texts.push(longer);
            }
        }
        from = upto;
    }
    for text in texts {
        let expected = match String::from_utf8(text.clone()) {
            Ok(s) => s.trim().parse::<u8>().ok().filter(|v| *v <= 100),
            Err(_) => None,
        };
        assert_eq!(parse(&text), expected, "{text:?}");
    }
}
