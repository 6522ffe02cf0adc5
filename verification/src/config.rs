//! The settings a serial port is opened with, and how a request's loosely
//! typed fields are turned into them.

use vstd::prelude::*;
use crate::text::same_text;

verus! {

/// Parity checking of a serial line.
#[derive(Debug, Clone, Copy, PartialEq, Eq)]
pub enum Parity {
    /// No parity bit is sent.
    Off,
    Odd,
    Even,
}

/// Number of stop bits after each character.
#[derive(Debug, Clone, Copy, PartialEq, Eq)]
pub enum StopBits {
    One,
    Two,
}

/// Number of data bits in each character.
#[derive(Debug, Clone, Copy, PartialEq, Eq)]
pub enum DataBits {
    Five,
    Six,
    Seven,
    Eight,
}

/// The read timeout of every session, in milliseconds.
pub const READ_TIMEOUT_MS: u64 = 100;

/// What a caller asks a port to be opened with. The fields are taken as they
/// come: a value that names no setting selects the default for its field.
#[derive(Debug, PartialEq, Eq)]
pub struct SerialConfig {
    pub baud_rate: u32,
    pub data_bits: u8,
    pub stop_bits: u8,
    pub parity: String,
}

/// What a port is opened with.
#[derive(Debug, Clone, Copy, PartialEq, Eq)]
pub struct PortSettings {
    /// Symbols per second, handed to the driver as given.
    pub baud_rate: u32,
    pub data_bits: DataBits,
    pub stop_bits: StopBits,
    pub parity: Parity,
    /// How long a read waits for data, in milliseconds.
    pub timeout_ms: u64,
}

/// The parity that a request's text selects: `odd` and `even` select
/// themselves, `none` and every other text select no parity.
pub open spec fn parity_of(text: Seq<char>) -> Parity {
    if text == "odd"@ {
        Parity::Odd
    } else if text == "even"@ {
        Parity::Even
    } else {
        Parity::Off
    }
}

/// The stop bits that a request's number selects: 2 selects two, 1 and every
/// other number select one.
pub open spec fn stop_bits_of(count: u8) -> StopBits {
    if count == 2 {
        StopBits::Two
    } else {
        StopBits::One
    }
}

/// The data bits that a request's number selects: 5, 6 and 7 select
/// themselves, 8 and every other number select eight.
pub open spec fn data_bits_of(count: u8) -> DataBits {
    if count == 5 {
        DataBits::Five
    } else if count == 6 {
        DataBits::Six
    } else if count == 7 {
        DataBits::Seven
    } else {
        DataBits::Eight
    }
}

/// The settings that a request selects.
pub open spec fn settings_of(config: SerialConfig) -> PortSettings {
    PortSettings {
        baud_rate: config.baud_rate,
        data_bits: data_bits_of(config.data_bits),
        stop_bits: stop_bits_of(config.stop_bits),
        parity: parity_of(config.parity@),
        timeout_ms: READ_TIMEOUT_MS,
    }
}

/// Reads a parity from a request's text.
pub fn parse_parity(text: &str) -> (parity: Parity)
    ensures
        parity == parity_of(text@),
{
    if same_text(text, "odd") {
        Parity::Odd
    } else if same_text(text, "even") {
        Parity::Even
    } else {
        Parity::Off
    }
}

/// Reads the stop bits from a request's number.
pub fn parse_stop_bits(count: u8) -> (stop_bits: StopBits)
    ensures
        stop_bits == stop_bits_of(count),
{
    match count {
        2 => StopBits::Two,
        _ => StopBits::One,
    }
}

/// Reads the data bits from a request's number.
pub fn parse_data_bits(count: u8) -> (data_bits: DataBits)
    ensures
        data_bits == data_bits_of(count),
{
    match count {
        5 => DataBits::Five,
        6 => DataBits::Six,
        7 => DataBits::Seven,
        _ => DataBits::Eight,
    }
}

impl SerialConfig {
    /// The settings that this request selects, with the fixed read timeout.
    pub fn settings(&self) -> (settings: PortSettings)
        ensures
            settings == settings_of(*self),
    {
        PortSettings {
            baud_rate: self.baud_rate,
            data_bits: parse_data_bits(self.data_bits),
            stop_bits: parse_stop_bits(self.stop_bits),
            parity: parse_parity(self.parity.as_str()),
            timeout_ms: READ_TIMEOUT_MS,
        }
    }
}

/// A field of a request that names no setting selects the field's default,
/// whatever else the request holds: no parity, one stop bit, eight data bits.
/// The baud rate and the timeout do not depend on the other fields.
pub proof fn lemma_unrecognized_falls_back(config: SerialConfig)
    ensures
        config.parity@ != "none"@ && config.parity@ != "odd"@ && config.parity@ != "even"@
            ==> settings_of(config).parity == Parity::Off,
        config.stop_bits != 1 && config.stop_bits != 2 ==> settings_of(config).stop_bits
            == StopBits::One,
        !(5 <= config.data_bits <= 8) ==> settings_of(config).data_bits == DataBits::Eight,
        settings_of(config).baud_rate == config.baud_rate,
        settings_of(config).timeout_ms == 100,
{
}

/// A field of a request that names a setting selects it.
pub proof fn lemma_recognized_is_kept(config: SerialConfig)
    ensures
        config.parity@ == "none"@ ==> settings_of(config).parity == Parity::Off,
        config.parity@ == "odd"@ ==> settings_of(config).parity == Parity::Odd,
        config.parity@ == "even"@ ==> settings_of(config).parity == Parity::Even,
        config.stop_bits == 1 ==> settings_of(config).stop_bits == StopBits::One,
        config.stop_bits == 2 ==> settings_of(config).stop_bits == StopBits::Two,
        config.data_bits == 5 ==> settings_of(config).data_bits == DataBits::Five,
        config.data_bits == 6 ==> settings_of(config).data_bits == DataBits::Six,
        config.data_bits == 7 ==> settings_of(config).data_bits == DataBits::Seven,
        config.data_bits == 8 ==> settings_of(config).data_bits == DataBits::Eight,
{
    reveal_strlit("none");
    reveal_strlit("odd");
    reveal_strlit("even");
    assert("odd"@.len() == 3);
    assert("none"@.len() == 4);
    assert("even"@.len() == 4);
    assert("none"@[0] == 'n');
    assert("even"@[0] == 'e');
}

/// The standard baud rates, in rising order.
pub open spec fn standard_baud_rates() -> Seq<u32> {
    seq![300, 1200, 2400, 4800, 9600, 19200, 38400, 57600, 115200, 230400, 460800, 921600]
}

/// The standard baud rates, for a user to pick from. The list is advice only:
/// a port is opened with whatever rate the request holds.
pub fn get_available_baud_rates() -> (rates: Vec<u32>)
    ensures
        rates@ == standard_baud_rates(),
{
    let rates = vec![300, 1200, 2400, 4800, 9600, 19200, 38400, 57600, 115200, 230400, 460800, 921600];
    assert(rates@ =~= standard_baud_rates());
    rates
}

} // verus!
