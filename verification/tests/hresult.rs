use overlapped_file::status::{classify, Completion};
use windows_core::{Error, HRESULT};

fn samples() -> Vec<u32> {
    let mut samples = vec![
        0,
        1,
        2,
        3,
        5,
        38,
        997,
        0xFFFF,
        0x1_0000,
        0x1_0005,
        0x7FFF_FFFF,
        0x8000_0000,
        0x8000_0001,
        0x8007_0005,
        0xC000_0011,
        0xFFFF_FFFF,
        u32::from_be_bytes(*b"S_OK"),
    ];
    let mut next: u32 = 0x9E37_79B9;
    for _ in 0..2000 {
        next = next.wrapping_mul(1_664_525).wrapping_add(1_013_904_223);
        samples.push(next);
    }
    samples
}

#[test]
fn a_code_becomes_the_stated_hresult() {
    for code in samples() {
        let expected = if code == 0 || code >= 0x8000_0000 {
            code
        } else {
            (code & 0xFFFF) | 0x8007_0000
        };
        assert_eq!(HRESULT::from_win32(code).0 as u32, expected, "code {:#x}", code);
    }
}

#[test]
fn access_denied_becomes_the_well_known_hresult() {
    assert_eq!(HRESULT::from_win32(5).0 as u32, 0x8007_0005);
    assert_eq!(HRESULT::from_win32(0).0, 0);
    assert_eq!(HRESULT::from_win32(0xC000_0011).0 as u32, 0xC000_0011);
}

#[test]
fn an_error_gives_its_hresult_back() {
    let reserved = u32::from_be_bytes(*b"S_OK");
    assert_eq!(reserved, 0x535F_4F4B);
    for bits in samples() {
        let expected = if bits == reserved { 0 } else { bits };
        assert_eq!(Error::from(HRESULT(bits as i32)).code().0 as u32, expected, "{:#x}", bits);
    }
}

#[test]
fn an_hresult_is_a_failure_where_its_top_bit_is_set() {
    for bits in samples() {
        assert_eq!(HRESULT(bits as i32).is_err(), bits >= 0x8000_0000, "{:#x}", bits);
    }
}

#[test]
fn classification_agrees_with_the_error_of_the_outside_crate() {
    for status in samples() {
        let failed = Error::from(HRESULT::from_win32(status)).code().is_err();
        let meaning = classify(status);
        if status == 0xC000_0011 || status == 38 {
            assert_eq!(meaning, Completion::EndOfFile);
            assert!(failed);
        } else {
            assert_eq!(failed, matches!(meaning, Completion::Failed(_)), "{:#x}", status);
            assert_eq!(!failed, meaning == Completion::Success, "{:#x}", status);
        }
    }
}
