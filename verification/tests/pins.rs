use raspecio::error::Error;
use raspecio::pins::{check_pins, is_allowed, ALLOWED_PINS};

#[test]
fn the_allow_list_is_the_ten_output_lines() {
    assert_eq!(ALLOWED_PINS, [5, 6, 12, 13, 16, 17, 19, 20, 21, 26]);
    for pin in 0..=255u8 {
        let listed = [5u8, 6, 12, 13, 16, 17, 19, 20, 21, 26].contains(&pin);
        assert_eq!(is_allowed(pin), listed, "pin {}", pin);
    }
}

#[test]
fn pin_99_is_not_allowed() {
    assert!(!is_allowed(99));
    assert!(!is_allowed(27));
    assert!(!is_allowed(0));
}

#[test]
fn a_group_is_accepted_only_as_a_whole() {
    assert_eq!(check_pins(&vec![5, 6, 26]), Ok(()));
    assert_eq!(check_pins(&vec![]), Ok(()));
    assert_eq!(check_pins(&vec![5, 99, 6]), Err(Error::InvalidPin));
    assert_eq!(check_pins(&vec![99]), Err(Error::InvalidPin));
    assert_eq!(check_pins(&vec![5, 6, 27]), Err(Error::InvalidPin));
}
