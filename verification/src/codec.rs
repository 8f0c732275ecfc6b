//! Command frames and response decoding of the supported converter chips.
//!
//! A chip is described by its [`ChipProfile`]. For each logical channel the
//! profile gives the three bytes that select the channel, and for each
//! response the unsigned conversion code that the bytes carry. Nothing here
//! touches a bus.

use vstd::prelude::*;
use crate::error::Error;

verus! {

/// Start bit and single-ended bit of a serial converter's command.
pub const START_SINGLE_ENDED: u8 = 0x06;

/// Set in the selector byte of an eight-channel chip for channels 4 to 7.
pub const UPPER_BANK: u8 = 0x20;

/// Address of the configuration register of a register-addressed chip.
pub const CONFIG_REGISTER: u8 = 0x01;

/// Configuration word of a register-addressed chip before a channel is chosen:
/// start one conversion, then power down.
pub const CONFIG_BASE: u16 = 0x8583;

/// The voltage, in microvolts, that the full-scale code of a register-addressed
/// chip stands for.
pub const FULL_SCALE_MICROVOLTS: u32 = 4_096_000;

/// The full-scale code of a register-addressed chip.
pub const FULL_SCALE_CODE: u16 = 0x7FFF;

/// Which byte of a four-channel chip's frame carries the channel selector.
#[derive(Debug, Clone, Copy, PartialEq, Eq, Structural)]
pub enum SelectorByte {
    /// The selector shares the first byte with the start marker.
    First,
    /// The first byte is the bare start marker, the selector is the second byte.
    Second,
}

/// A supported converter chip.
#[derive(Debug, Clone, Copy, PartialEq, Eq, Structural)]
pub enum ChipProfile {
    /// Four channels, 12-bit codes, command and response over a serial bus.
    FamilyA(SelectorByte),
    /// Eight channels, 12-bit codes, command and response over a serial bus.
    FamilyB,
    /// Four channels, one conversion per configuration-register write,
    /// 16-bit codes read back from the addressed bus.
    Register,
}

/// The two selector bits of `channel`, in the top two bits of a byte:
/// `channel` modulo 4, times 64.
pub open spec fn selector(channel: int) -> u8 {
    ((channel % 4) * 64) as u8
}

/// The bank flag of `channel` on an eight-channel chip.
pub open spec fn bank(channel: int) -> u8 {
    if channel < 4 {
        0u8
    } else {
        UPPER_BANK
    }
}

/// The configuration word that starts one conversion on `channel`: the base
/// word with the multiplexer field, bits 12 to 14, set to 4 plus the channel.
pub open spec fn config_word(channel: int) -> u16 {
    (CONFIG_BASE + 0x4000 + (channel % 4) * 0x1000) as u16
}

/// The 12-bit code of a serial response: the low nibble of the second byte
/// above the third byte. The first byte carries nothing.
pub open spec fn twelve_bit(second: u8, third: u8) -> u16 {
    ((second % 16) * 256 + third) as u16
}

/// The 16-bit code of a register read: the first byte above the second.
pub open spec fn sixteen_bit(first: u8, second: u8) -> u16 {
    (first * 256 + second) as u16
}

/// The voltage that `code` of a register-addressed chip stands for, in whole
/// microvolts: the code's share of the full scale, rounded down.
pub open spec fn scaled_microvolts(code: u16) -> int {
    code * FULL_SCALE_MICROVOLTS / (FULL_SCALE_CODE as int)
}

impl ChipProfile {
    /// How many channels the chip has.
    pub open spec fn channel_count(self) -> nat {
        match self {
            ChipProfile::FamilyA(_) => 4,
            ChipProfile::FamilyB => 8,
            ChipProfile::Register => 4,
        }
    }

    /// How many bytes a response of the chip has.
    pub open spec fn response_len(self) -> nat {
        match self {
            ChipProfile::Register => 2,
            _ => 3,
        }
    }

    /// The command frame of `channel`.
    ///
    /// The marker and the selector, and the selector and the bank flag, have
    /// no bit in common, so their sum is their bitwise or.
    pub open spec fn frame(self, channel: int) -> [u8; 3] {
        match self {
            ChipProfile::FamilyA(SelectorByte::First) => [
                (START_SINGLE_ENDED + selector(channel)) as u8,
                0u8,
                0u8,
            ],
            ChipProfile::FamilyA(SelectorByte::Second) => [
                START_SINGLE_ENDED,
                selector(channel),
                0u8,
            ],
            ChipProfile::FamilyB => [
                START_SINGLE_ENDED,
                (selector(channel) + bank(channel)) as u8,
                0u8,
            ],
            ChipProfile::Register => [
                CONFIG_REGISTER,
                (config_word(channel) / 256) as u8,
                (config_word(channel) % 256) as u8,
            ],
        }
    }

    /// The conversion code that `response` carries, if it has the length of a
    /// response of this chip.
    pub open spec fn decoded(self, response: Seq<u8>) -> Option<u16> {
        if response.len() != self.response_len() {
            None
        } else {
            match self {
                ChipProfile::Register => Some(sixteen_bit(response[0], response[1])),
                _ => Some(twelve_bit(response[1], response[2])),
            }
        }
    }

    /// The number of channels of the chip.
    pub fn channels(&self) -> (n: usize)
        ensures
            n == self.channel_count(),
    {
        match self {
            ChipProfile::FamilyA(_) => 4,
            ChipProfile::FamilyB => 8,
            ChipProfile::Register => 4,
        }
    }

    /// The command frame that selects `channel`, or `None` if the chip has no
    /// such channel.
    pub fn encode(&self, channel: usize) -> (frame: Option<[u8; 3]>)
        ensures
            channel < self.channel_count() ==> frame == Some(self.frame(channel as int)),
            channel >= self.channel_count() ==> frame is None,
    {
        if channel >= self.channels() {
            return None;
        }
        let index: u8 = (channel % 4) as u8;
        let select: u8 = index << 6;
        assert(select == index * 64) by (bit_vector)
            requires
                select == index << 6,
                index < 4,
        ;
        match self {
            ChipProfile::FamilyA(SelectorByte::First) => {
                let first: u8 = START_SINGLE_ENDED | select;
                assert(first == 6 + index * 64) by (bit_vector)
                    requires
                        first == 0x06u8 | select,
                        select == index * 64,
                        index < 4,
                ;
                Some([first, 0u8, 0u8])
            },
            ChipProfile::FamilyA(SelectorByte::Second) => Some([START_SINGLE_ENDED, select, 0u8]),
            ChipProfile::FamilyB => {
                let flag: u8 = if channel < 4 {
                    0u8
                } else {
                    UPPER_BANK
                };
                let second: u8 = select | flag;
                assert(second == select + flag) by (bit_vector)
                    requires
                        second == select | flag,
                        select == index * 64,
                        index < 4,
                        flag == 0 || flag == 0x20,
                ;
                Some([START_SINGLE_ENDED, second, 0u8])
            },
            ChipProfile::Register => {
                let mux: u16 = 0x4000u16 | ((index as u16) << 12);
                let word: u16 = CONFIG_BASE | mux;
                let high: u8 = (word >> 8) as u8;
                let low: u8 = (word & 0xFF) as u8;
                assert(word == 0x8583 + 0x4000 + index * 0x1000 && high == word / 256 && low
                    == word % 256) by (bit_vector)
                    requires
                        mux == 0x4000u16 | ((index as u16) << 12),
                        word == 0x8583u16 | mux,
                        high == (word >> 8) as u8,
                        low == (word & 0xFF) as u8,
                        index < 4,
                ;
                Some([CONFIG_REGISTER, high, low])
            },
        }
    }

    /// The conversion code that `response` carries.
    ///
    /// A response of the wrong length is a failed transaction.
    pub fn decode(&self, response: &[u8]) -> (code: Result<u16, Error>)
        ensures
            match self.decoded(response@) {
                Some(value) => code == Ok::<u16, Error>(value),
                None => code == Err::<u16, Error>(Error::DeviceIoFailure),
            },
    {
        match self {
            ChipProfile::Register => {
                if response.len() != 2 {
                    return Err(Error::DeviceIoFailure);
                }
                let first: u8 = response[0];
                let second: u8 = response[1];
                let value: u16 = ((first as u16) << 8) | (second as u16);
                assert(value == first * 256 + second) by (bit_vector)
                    requires
                        value == ((first as u16) << 8) | (second as u16),
                ;
                Ok(value)
            },
            _ => {
                if response.len() != 3 {
                    return Err(Error::DeviceIoFailure);
                }
                let second: u8 = response[1];
                let third: u8 = response[2];
                let value: u16 = (((second & 0x0F) as u16) << 8) | (third as u16);
                assert(value == (second % 16) * 256 + third) by (bit_vector)
                    requires
                        value == (((second & 0x0F) as u16) << 8) | (third as u16),
                ;
                Ok(value)
            },
        }
    }
}

/// The voltage that `code` of a register-addressed chip stands for, in whole
/// microvolts.
pub fn microvolts(code: u16) -> (voltage: u32)
    ensures
        voltage == scaled_microvolts(code),
{
    let scaled: u64 = (code as u64) * (FULL_SCALE_MICROVOLTS as u64);
    (scaled / (FULL_SCALE_CODE as u64)) as u32
}

/// No two channels of a chip have the same command frame.
pub proof fn lemma_frames_distinct(profile: ChipProfile, first: int, second: int)
    requires
        0 <= first < profile.channel_count(),
        0 <= second < profile.channel_count(),
        first != second,
    ensures
        profile.frame(first) != profile.frame(second),
{
    let a = profile.frame(first);
    let b = profile.frame(second);
    match profile {
        ChipProfile::FamilyA(SelectorByte::First) => {
            assert(a[0] != b[0]);
        },
        ChipProfile::FamilyA(SelectorByte::Second) => {
            assert(a[1] != b[1]);
        },
        ChipProfile::FamilyB => {
            assert(a[1] != b[1]);
        },
        ChipProfile::Register => {
            assert(a[1] != b[1]);
        },
    }
}

/// On an eight-channel chip, channel `channel + 4` has the selector bits of
/// `channel`, and its frame differs from that of `channel` in the bank flag
/// alone.
pub proof fn lemma_upper_bank(channel: int)
    requires
        0 <= channel < 4,
    ensures
        selector(channel + 4) == selector(channel),
        ChipProfile::FamilyB.frame(channel)[0] == ChipProfile::FamilyB.frame(channel + 4)[0],
        ChipProfile::FamilyB.frame(channel)[1] == selector(channel),
        ChipProfile::FamilyB.frame(channel + 4)[1] == selector(channel) + UPPER_BANK,
        ChipProfile::FamilyB.frame(channel)[2] == ChipProfile::FamilyB.frame(channel + 4)[2],
        ChipProfile::FamilyB.frame(channel) != ChipProfile::FamilyB.frame(channel + 4),
{
    let a = ChipProfile::FamilyB.frame(channel);
    let b = ChipProfile::FamilyB.frame(channel + 4);
    assert(a[1] != b[1]);
}

/// The arithmetic of a frame is the bit pattern that the chip reads: the
/// start marker or-ed with the selector, the selector being the channel's low
/// two bits shifted to the top of the byte, or-ed with the bank flag.
pub proof fn lemma_frame_bits(channel: u8)
    requires
        channel < 8,
    ensures
        selector(channel as int) == (channel & 3) << 6,
        START_SINGLE_ENDED + selector(channel as int) == START_SINGLE_ENDED | selector(
            channel as int,
        ),
        selector(channel as int) + bank(channel as int) == selector(channel as int) | bank(
            channel as int,
        ),
{
    let select = selector(channel as int);
    let flag = bank(channel as int);
    assert(select == (channel % 4) * 64);
    assert(select == (channel & 3) << 6) by (bit_vector)
        requires
            select == (channel % 4) * 64,
    ;
    assert(0x06u8 + select == 0x06u8 | select) by (bit_vector)
        requires
            select == (channel & 3) << 6,
    ;
    assert(select + flag == select | flag) by (bit_vector)
        requires
            select == (channel & 3) << 6,
            flag == 0 || flag == 0x20,
    ;
}

/// A serial response carries a 12-bit code: the second byte masked with
/// `0x0F` and shifted up by eight bits, or-ed with the third byte. It is at
/// most 4095.
pub proof fn lemma_twelve_bit(second: u8, third: u8)
    ensures
        twelve_bit(second, third) == (((second & 0x0F) as u16) << 8) | (third as u16),
        twelve_bit(second, third) <= 4095,
{
    let value = twelve_bit(second, third);
    assert(value == (second % 16) * 256 + third);
    assert(value == (((second & 0x0F) as u16) << 8) | (third as u16)) by (bit_vector)
        requires
            value == (second % 16) * 256 + third,
    ;
}

/// A register read carries a 16-bit code: the first byte shifted up by eight
/// bits, or-ed with the second.
pub proof fn lemma_sixteen_bit(first: u8, second: u8)
    ensures
        sixteen_bit(first, second) == ((first as u16) << 8) | (second as u16),
{
    let value = sixteen_bit(first, second);
    assert(value == first * 256 + second);
    assert(value == ((first as u16) << 8) | (second as u16)) by (bit_vector)
        requires
            value == first * 256 + second,
    ;
}

/// Whatever a chip answers, a code that is decoded from a serial response is
/// at most 4095.
pub proof fn lemma_serial_code_range(profile: ChipProfile, response: Seq<u8>)
    requires
        !(profile is Register),
        profile.decoded(response) is Some,
    ensures
        profile.decoded(response)->0 <= 4095,
{
    lemma_twelve_bit(response[1], response[2]);
}

} // verus!
