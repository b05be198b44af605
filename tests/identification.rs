use parts_flow::validation::{validate_plate, validate_vin, validate_vin_checksum};

const VIN: &str = "1M8GDM9AXKP042788";

#[test]
fn known_vin_is_valid() {
    assert!(validate_vin_checksum(VIN));
    assert!(validate_vin(VIN));
}

#[test]
fn any_single_change_to_another_value_is_detected() {
    let alphabet: Vec<char> = "0123456789ABCDEFGHJKLMNPRSTUVWXYZ".chars().collect();
    let valid: Vec<char> = VIN.chars().collect();
    for i in 0..17 {
        for &c in alphabet.iter() {
            if c == valid[i] {
                continue;
            }
            let mut changed = valid.clone();
            changed[i] = c;
            let s: String = changed.iter().collect();
            let same_value = i != 8 && value(c) == value(valid[i]);
            assert_eq!(validate_vin_checksum(&s), same_value, "{}", s);
        }
    }
}

fn value(c: char) -> u32 {
    match c {
        '0'..='9' => c as u32 - '0' as u32,
        'A'..='H' => c as u32 - 'A' as u32 + 1,
        'J'..='N' => c as u32 - 'J' as u32 + 1,
        'P' => 7,
        'R' => 9,
        'S'..='Z' => c as u32 - 'S' as u32 + 2,
        _ => 100,
    }
}

#[test]
fn lowercase_letters_count_as_capitals() {
    assert!(validate_vin_checksum("1m8gdm9aXkp042788"));
}

#[test]
fn excluded_letters_are_refused() {
    assert!(!validate_vin_checksum("1M8GDM9AXKP04278I"));
    assert!(!validate_vin_checksum("1M8GDM9AXKP04278O"));
    assert!(!validate_vin_checksum("1M8GDM9AXKP04278Q"));
}

#[test]
fn check_digit_ten_needs_x() {
    assert!(!validate_vin_checksum("1M8GDM9A0KP042788"));
}

#[test]
fn plate_passes_the_identification_check() {
    assert!(validate_vin("AB1234"));
    assert!(!validate_vin_checksum("AB1234"));
    assert!(!validate_vin("ab1234"));
}

#[test]
fn plate_is_valid() {
    assert!(validate_plate("AB1234"));
    assert!(validate_vin("AB1234"));
    assert!(!validate_plate("ab1234"));
    assert!(!validate_plate("AB-234"));
}

#[test]
fn sixteen_characters_are_invalid() {
    assert!(!validate_vin("1M8GDM9AXKP04278"));
    assert!(!validate_vin("AAAAAAAAAAAAAAAA"));
    assert!(!validate_vin(""));
}
