//! Register access to the sensor over 16-bit bus words.
//!
//! A bus word carries the register address in its high byte, whose bit 7 is
//! set for a read and clear for a write, and the value written (or nothing,
//! for a read) in its low byte. The reply to a read carries the register value
//! in its low byte.
use vstd::prelude::*;
use crate::register::{
    bank_code, Bank, ByteReadable, Register, Writable, BANK_SEL_ADDRESS,
};

verus! {

/// The word that reads the register at `address` (seven bits).
pub open spec fn read_word(address: u8) -> u16 {
    ((address + 0x80) * 0x100) as u16
}

/// The word that writes `value` to the register at `address` (seven bits).
pub open spec fn write_word(address: u8, value: u8) -> u16 {
    (address * 0x100 + value) as u16
}

/// The register value that the reply to a read carries.
pub open spec fn reply_value(reply: u16) -> u8 {
    (reply % 0x100) as u8
}

/// An access to a register outside the bank that is selected.
#[derive(Clone, Copy, PartialEq, Eq, Structural, Debug)]
pub struct BankMismatch {
    pub selected: Bank,
    pub required: Bank,
}

/// The sensor, as seen from the bus: which bank is selected.
pub struct Icm42688 {
    bank: Bank,
}

impl View for Icm42688 {
    type V = Bank;

    closed spec fn view(&self) -> Bank {
        self.bank
    }
}

/// The bus word that reads `address`.
fn make_read_word(address: u8) -> (r: u16)
    requires
        address < 0x80,
    ensures
        r == read_word(address),
{
    let a = address as u16;
    assert((a | 0x80) << 8u16 == (a + 0x80) * 0x100) by (bit_vector)
        requires
            a < 0x80,
    ;
    (a | 0x80) << 8u16
}

/// The bus word that writes `value` to `address`.
fn make_write_word(address: u8, value: u8) -> (r: u16)
    requires
        address < 0x80,
    ensures
        r == write_word(address, value),
{
    let a = address as u16;
    let v = value as u16;
    assert((a << 8u16) | v == a * 0x100 + v) by (bit_vector)
        requires
            a < 0x80,
            v < 0x100,
    ;
    (a << 8u16) | v
}

impl Icm42688 {
    /// The sensor after reset, with bank 0 selected.
    pub fn new() -> (r: Icm42688)
        ensures
            r@ == Bank::Bank0,
    {
        Icm42688 { bank: Bank::Bank0 }
    }

    /// The bank that is selected.
    pub fn bank(&self) -> (r: Bank)
        ensures
            r == self@,
    {
        self.bank
    }

    /// Selects `bank`: returns the word that writes it to the bank select
    /// register, to be exchanged before any access to a register of `bank`.
    pub fn select_bank(&mut self, bank: Bank) -> (r: u16)
        ensures
            r == write_word(BANK_SEL_ADDRESS, bank_code(bank)),
            final(self)@ == bank,
    {
        self.bank = bank;
        make_write_word(BANK_SEL_ADDRESS, bank.code())
    }

    /// The word that reads register `R`, or the mismatch when the selected
    /// bank is not the bank of `R`.
    pub fn register_read<R: ByteReadable>(&self) -> (r: Result<u16, BankMismatch>)
        ensures
            self@ == R::spec_bank() ==> r == Ok::<u16, BankMismatch>(
                read_word(R::spec_address()),
            ),
            self@ != R::spec_bank() ==> r == Err::<u16, BankMismatch>(
                BankMismatch { selected: self@, required: R::spec_bank() },
            ),
    {
        let required = R::bank();
        if self.bank == required {
            Ok(make_read_word(R::address()))
        } else {
            Err(BankMismatch { selected: self.bank, required })
        }
    }

    /// The word that writes `value` to its register, or the mismatch when the
    /// selected bank is not the bank of the register.
    pub fn register_write<R: Writable>(&self, value: &R) -> (r: Result<u16, BankMismatch>)
        ensures
            self@ == R::spec_bank() ==> r == Ok::<u16, BankMismatch>(
                write_word(R::spec_address(), value.spec_bits()),
            ),
            self@ != R::spec_bank() ==> r == Err::<u16, BankMismatch>(
                BankMismatch { selected: self@, required: R::spec_bank() },
            ),
    {
        let required = R::bank();
        if self.bank == required {
            Ok(make_write_word(R::address(), value.bits()))
        } else {
            Err(BankMismatch { selected: self.bank, required })
        }
    }

    /// The value of register `R` that the reply to its read carries.
    pub fn register_value<R: ByteReadable>(reply: u16) -> (r: R)
        ensures
            r.spec_bits() == reply_value(reply),
    {
        assert(reply & 0xff == reply % 0x100) by (bit_vector);
        R::from_bits((reply & 0xff) as u8)
    }
}

} // verus!
