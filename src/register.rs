//! Register values of the sensor and their bit fields.
use vstd::prelude::*;

verus! {

/// Serial interface mode of the sensor: bit 4 of `DEVICE_CONFIG`.
#[derive(Clone, Copy, PartialEq, Eq, Structural, Debug)]
pub enum SpiMode {
    Mode0Mode3,
    Mode1Mode2,
}

/// Soft reset request: bit 0 of `DEVICE_CONFIG`.
#[derive(Clone, Copy, PartialEq, Eq, Structural, Debug)]
pub enum SoftResetConfig {
    Normal,
    /// Resets the device; wait 1 ms before any other access.
    EableReset,
}

/// Numeric code of an SPI mode.
pub open spec fn spi_mode_code(m: SpiMode) -> u8 {
    match m {
        SpiMode::Mode0Mode3 => 0,
        SpiMode::Mode1Mode2 => 1,
    }
}

/// SPI mode that a numeric code names, if any.
pub open spec fn spi_mode_of(code: u8) -> Option<SpiMode> {
    if code == 0 {
        Some(SpiMode::Mode0Mode3)
    } else if code == 1 {
        Some(SpiMode::Mode1Mode2)
    } else {
        None
    }
}

/// Numeric code of a soft reset setting.
pub open spec fn soft_reset_code(s: SoftResetConfig) -> u8 {
    match s {
        SoftResetConfig::Normal => 0,
        SoftResetConfig::EableReset => 1,
    }
}

/// Soft reset setting that a numeric code names, if any.
pub open spec fn soft_reset_of(code: u8) -> Option<SoftResetConfig> {
    if code == 0 {
        Some(SoftResetConfig::Normal)
    } else if code == 1 {
        Some(SoftResetConfig::EableReset)
    } else {
        None
    }
}

impl SpiMode {
    /// The numeric code of this mode.
    pub fn code(self) -> (r: u8)
        ensures
            r == spi_mode_code(self),
    {
        match self {
            SpiMode::Mode0Mode3 => 0,
            SpiMode::Mode1Mode2 => 1,
        }
    }

    /// The mode with numeric code `value`; `None` for an unrecognized code.
    pub fn n(value: u8) -> (r: Option<SpiMode>)
        ensures
            r == spi_mode_of(value),
    {
        if value == 0 {
            Some(SpiMode::Mode0Mode3)
        } else if value == 1 {
            Some(SpiMode::Mode1Mode2)
        } else {
            None
        }
    }
}

impl SoftResetConfig {
    /// The numeric code of this setting.
    pub fn code(self) -> (r: u8)
        ensures
            r == soft_reset_code(self),
    {
        match self {
            SoftResetConfig::Normal => 0,
            SoftResetConfig::EableReset => 1,
        }
    }

    /// The setting with numeric code `value`; `None` for an unrecognized code.
    pub fn n(value: u8) -> (r: Option<SoftResetConfig>)
        ensures
            r == soft_reset_of(value),
    {
        if value == 0 {
            Some(SoftResetConfig::Normal)
        } else if value == 1 {
            Some(SoftResetConfig::EableReset)
        } else {
            None
        }
    }
}

/// A bank of the register address space: an address names a register only
/// within its bank.
#[derive(Clone, Copy, PartialEq, Eq, Structural, Debug)]
pub enum Bank {
    Bank0,
    Bank1,
    Bank2,
    Bank3,
    Bank4,
}

/// The number written to the bank select register to select a bank.
pub open spec fn bank_code(bank: Bank) -> u8 {
    match bank {
        Bank::Bank0 => 0,
        Bank::Bank1 => 1,
        Bank::Bank2 => 2,
        Bank::Bank3 => 3,
        Bank::Bank4 => 4,
    }
}

impl Bank {
    /// The number written to the bank select register to select this bank.
    pub fn code(self) -> (r: u8)
        ensures
            r == bank_code(self),
    {
        match self {
            Bank::Bank0 => 0,
            Bank::Bank1 => 1,
            Bank::Bank2 => 2,
            Bank::Bank3 => 3,
            Bank::Bank4 => 4,
        }
    }
}

/// Address of the bank select register, the same in every bank.
pub const BANK_SEL_ADDRESS: u8 = 0x76;

/// A register of the sensor: where it lives and how its value reads as a byte.
///
/// Which operations a register allows is told by the capability traits that
/// its type implements, so an access that it does not allow does not compile.
pub trait Register: Sized {
    spec fn spec_bank() -> Bank;

    spec fn spec_address() -> u8;

    spec fn spec_bits(&self) -> u8;

    /// The bank that holds the register.
    fn bank() -> (r: Bank)
        ensures
            r == Self::spec_bank(),
    ;

    /// The address of the register within its bank: seven bits.
    fn address() -> (r: u8)
        ensures
            r == Self::spec_address(),
            r < 0x80,
    ;

    /// The register value as a byte.
    fn bits(&self) -> (r: u8)
        ensures
            r == self.spec_bits(),
    ;

    /// The register value that a byte holds.
    fn from_bits(bits: u8) -> (r: Self)
        ensures
            r.spec_bits() == bits,
    ;
}

/// A register that can be read one byte at a time.
pub trait ByteReadable: Register {}

/// A register that can be written.
pub trait Writable: Register {}

/// The byte of the `DEVICE_CONFIG` register.
pub struct DeviceConfig(pub u8);

/// Address of `DEVICE_CONFIG` in bank 0.
pub const DEVICE_CONFIG_ADDRESS: u8 = 0x75;

impl Register for DeviceConfig {
    open spec fn spec_bank() -> Bank {
        Bank::Bank0
    }

    open spec fn spec_address() -> u8 {
        DEVICE_CONFIG_ADDRESS
    }

    open spec fn spec_bits(&self) -> u8 {
        self.0
    }

    fn bank() -> (r: Bank) {
        Bank::Bank0
    }

    fn address() -> (r: u8) {
        DEVICE_CONFIG_ADDRESS
    }

    fn bits(&self) -> (r: u8) {
        self.0
    }

    fn from_bits(bits: u8) -> (r: Self) {
        DeviceConfig(bits)
    }
}

impl ByteReadable for DeviceConfig {}

impl Writable for DeviceConfig {}

/// The byte that packs an SPI mode at bit 4 and a soft reset setting at bit 0.
pub open spec fn device_config_byte(spi_mode: SpiMode, soft_reset_config: SoftResetConfig) -> u8 {
    (spi_mode_code(spi_mode) * 16 + soft_reset_code(soft_reset_config)) as u8
}

/// The fields that a `DEVICE_CONFIG` byte holds; the other bits are ignored.
pub open spec fn device_config_fields(byte: u8) -> (SpiMode, SoftResetConfig) {
    (
        if (byte / 16) % 2 == 0 { SpiMode::Mode0Mode3 } else { SpiMode::Mode1Mode2 },
        if byte % 2 == 0 { SoftResetConfig::Normal } else { SoftResetConfig::EableReset },
    )
}

impl DeviceConfig {
    /// Packs the two fields into a register value.
    pub fn pack(spi_mode: SpiMode, soft_reset_config: SoftResetConfig) -> (r: DeviceConfig)
        ensures
            r.0 == device_config_byte(spi_mode, soft_reset_config),
    {
        let m = spi_mode.code();
        let s = soft_reset_config.code();
        assert((m << 4u8) | s == m * 16 + s) by (bit_vector)
            requires
                m <= 1,
                s <= 1,
        ;
        DeviceConfig((m << 4u8) | s)
    }

    /// Unpacks the two fields of the register value.
    pub fn depack(&self) -> (r: (SpiMode, SoftResetConfig))
        ensures
            r == device_config_fields(self.0),
    {
        let b = self.0;
        assert((b >> 4u8) & 1 == (b / 16) % 2) by (bit_vector);
        assert(b & 1 == b % 2) by (bit_vector);
        (SpiMode::n((b >> 4u8) & 1).unwrap(), SoftResetConfig::n(b & 1).unwrap())
    }
}

/// Packing a value and unpacking it gives back the fields that were packed.
pub proof fn lemma_device_config_round_trip(spi_mode: SpiMode, soft_reset_config: SoftResetConfig)
    ensures
        device_config_fields(device_config_byte(spi_mode, soft_reset_config)) == (
            spi_mode,
            soft_reset_config,
        ),
{
}

} // verus!
