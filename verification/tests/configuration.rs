use serial_console::config::{parse_data_bits, parse_parity, parse_stop_bits};
use serial_console::{
    get_available_baud_rates, DataBits, Parity, PortSettings, SerialConfig, StopBits,
    READ_TIMEOUT_MS,
};

fn config(baud_rate: u32, data_bits: u8, stop_bits: u8, parity: &str) -> SerialConfig {
    SerialConfig { baud_rate, data_bits, stop_bits, parity: parity.to_string() }
}

#[test]
fn unrecognized_config_values_fall_back() {
    assert_eq!(parse_parity("xyz"), Parity::Off);
    assert_eq!(parse_stop_bits(3), StopBits::One);
    assert_eq!(parse_data_bits(9), DataBits::Eight);
    assert_eq!(
        config(9600, 9, 3, "xyz").settings(),
        PortSettings {
            baud_rate: 9600,
            data_bits: DataBits::Eight,
            stop_bits: StopBits::One,
            parity: Parity::Off,
            timeout_ms: 100,
        }
    );
}

#[test]
fn parity_is_read_from_its_name() {
    assert_eq!(parse_parity("none"), Parity::Off);
    assert_eq!(parse_parity("odd"), Parity::Odd);
    assert_eq!(parse_parity("even"), Parity::Even);
}

#[test]
fn parity_names_are_matched_exactly() {
    for text in ["", "Odd", "EVEN", "odd ", " even", "mark", "space", "o", "evenn"] {
        assert_eq!(parse_parity(text), Parity::Off, "{:?}", text);
    }
}

#[test]
fn stop_bits_are_one_unless_two() {
    for count in 0..=255u8 {
        let expected = if count == 2 { StopBits::Two } else { StopBits::One };
        assert_eq!(parse_stop_bits(count), expected, "{}", count);
    }
}

#[test]
fn data_bits_are_eight_unless_five_to_seven() {
    for count in 0..=255u8 {
        let expected = match count {
            5 => DataBits::Five,
            6 => DataBits::Six,
            7 => DataBits::Seven,
            _ => DataBits::Eight,
        };
        assert_eq!(parse_data_bits(count), expected, "{}", count);
    }
}

#[test]
fn baud_rate_is_passed_through() {
    for baud_rate in [0, 1, 75, 9600, 250_000, 1_234_567, u32::MAX] {
        assert_eq!(config(baud_rate, 8, 1, "none").settings().baud_rate, baud_rate);
    }
}

#[test]
fn timeout_is_fixed() {
    assert_eq!(READ_TIMEOUT_MS, 100);
    assert_eq!(config(300, 5, 2, "odd").settings().timeout_ms, 100);
    assert_eq!(config(921600, 0, 0, "").settings().timeout_ms, 100);
}

#[test]
fn baud_rate_catalog_is_the_standard_list() {
    assert_eq!(
        get_available_baud_rates(),
        vec![300, 1200, 2400, 4800, 9600, 19200, 38400, 57600, 115200, 230400, 460800, 921600]
    );
}
