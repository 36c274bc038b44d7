//! LED usage page (0x08).

use crate::digest::{encode_u8, fnv_digest, fnv_hash, le_bytes_u8};
use core::cmp::Ordering;
use vstd::prelude::*;
use vstd::std_specs::cmp::{PartialOrdSpec, PartialOrdSpecImpl};
use vstd::std_specs::convert::FromSpecImpl;

verus! {

/// Usages of the LED page. Codes are 8 bits wide; every code
/// without a usage of its own resolves to [`Leds::Undefined`].
///
/// The usages are declared by ascending code, so that the derived total
/// order is the order of the codes, as the partial order is.
#[derive(Debug, Clone, Copy, PartialEq, Eq, Structural, Ord)]
pub enum Leds {
    Undefined,
    NumLock,
    CapsLock,
    ScrollLock,
    Compose,
    Kana,
    Power,
    Shift,
    DoNotDisturb,
    Mute,
    ToneEnable,
    HighCutFilter,
    LowCutFilter,
    EqualizerEnable,
    SoundFieldOn,
    SurroundFieldOn,
    Repeat,
    Stereo,
    SamplingRateDetect,
    Spinning,
    CAV,
    CLV,
    RecordingFormatDetect,
    OffHook,
    Ring,
    MessageWaiting,
    DataMode,
    BatteryOperation,
    BatteryOK,
    BatteryLow,
    Speaker,
    HeadSet,
    Hold,
    Microphone,
    Coverage,
    NightMode,
    SendCalls,
    CallPickup,
    Conference,
    StandBy,
    CameraOn,
    CameraOff,
    OnLine,
    OffLine,
    Busy,
    Ready,
    PaperOut,
    PaperJam,
    Remote,
    Forward,
    Reverse,
    Stop,
    Rewind,
    FastForward,
    Play,
    Pause,
    Record,
    Error,
    UsageSelectedIndicator,
    UsageInUseIndicator,
    UsageMultiModeIndicator,
    IndicatorOn,
    IndicatorFlash,
    IndicatorSlowBlink,
    IndicatorFastBlink,
    IndicatorOff,
    FlashOnTime,
    SlowBlinkOnTime,
    SlowBlinkOffTime,
    FastBlinkOnTime,
    FastBlinkOffTime,
    UsageIndicatorColor,
    Red,
    Green,
    Amber,
    GenericIndicator,
}

impl Leds {
    /// The wire code bound to a usage.
    pub open spec fn code(self) -> u8 {
        match self {
            Leds::Undefined => 0x00,
            Leds::NumLock => 0x01,
            Leds::CapsLock => 0x02,
            Leds::ScrollLock => 0x03,
            Leds::Compose => 0x04,
            Leds::Kana => 0x05,
            Leds::Power => 0x06,
            Leds::Shift => 0x07,
            Leds::DoNotDisturb => 0x08,
            Leds::Mute => 0x09,
            Leds::ToneEnable => 0x0A,
            Leds::HighCutFilter => 0x0B,
            Leds::LowCutFilter => 0x0C,
            Leds::EqualizerEnable => 0x0D,
            Leds::SoundFieldOn => 0x0E,
            Leds::SurroundFieldOn => 0x0F,
            Leds::Repeat => 0x10,
            Leds::Stereo => 0x11,
            Leds::SamplingRateDetect => 0x12,
            Leds::Spinning => 0x13,
            Leds::CAV => 0x14,
            Leds::CLV => 0x15,
            Leds::RecordingFormatDetect => 0x16,
            Leds::OffHook => 0x17,
            Leds::Ring => 0x18,
            Leds::MessageWaiting => 0x19,
            Leds::DataMode => 0x1A,
            Leds::BatteryOperation => 0x1B,
            Leds::BatteryOK => 0x1C,
            Leds::BatteryLow => 0x1D,
            Leds::Speaker => 0x1E,
            Leds::HeadSet => 0x1F,
            Leds::Hold => 0x20,
            Leds::Microphone => 0x21,
            Leds::Coverage => 0x22,
            Leds::NightMode => 0x23,
            Leds::SendCalls => 0x24,
            Leds::CallPickup => 0x25,
            Leds::Conference => 0x26,
            Leds::StandBy => 0x27,
            Leds::CameraOn => 0x28,
            Leds::CameraOff => 0x29,
            Leds::OnLine => 0x2A,
            Leds::OffLine => 0x2B,
            Leds::Busy => 0x2C,
            Leds::Ready => 0x2D,
            Leds::PaperOut => 0x2E,
            Leds::PaperJam => 0x2F,
            Leds::Remote => 0x30,
            Leds::Forward => 0x31,
            Leds::Reverse => 0x32,
            Leds::Stop => 0x33,
            Leds::Rewind => 0x34,
            Leds::FastForward => 0x35,
            Leds::Play => 0x36,
            Leds::Pause => 0x37,
            Leds::Record => 0x38,
            Leds::Error => 0x39,
            Leds::UsageSelectedIndicator => 0x3A,
            Leds::UsageInUseIndicator => 0x3B,
            Leds::UsageMultiModeIndicator => 0x3C,
            Leds::IndicatorOn => 0x3D,
            Leds::IndicatorFlash => 0x3E,
            Leds::IndicatorSlowBlink => 0x3F,
            Leds::IndicatorFastBlink => 0x40,
            Leds::IndicatorOff => 0x41,
            Leds::FlashOnTime => 0x42,
            Leds::SlowBlinkOnTime => 0x43,
            Leds::SlowBlinkOffTime => 0x44,
            Leds::FastBlinkOnTime => 0x45,
            Leds::FastBlinkOffTime => 0x46,
            Leds::UsageIndicatorColor => 0x47,
            Leds::Red => 0x48,
            Leds::Green => 0x49,
            Leds::Amber => 0x4A,
            Leds::GenericIndicator => 0x4B,
        }
    }

    /// The usage a wire code stands for: the one bound to it, or the
    /// fallback where no usage is.
    pub open spec fn resolve(code: u8) -> Leds {
        if exists|usage: Leds| usage.code() == code {
            choose|usage: Leds| usage.code() == code
        } else {
            Leds::Undefined
        }
    }

    /// True of every usage but the fallback.
    pub open spec fn is_named(self) -> bool {
        self != Leds::Undefined
    }

    /// The little-endian bytes of a usage's code.
    pub open spec fn le_bytes(self) -> Seq<u8> {
        le_bytes_u8(self.code())
    }

    /// The hash of a usage: the digest of the little-endian bytes of its
    /// code, and of nothing else.
    pub open spec fn digest(self) -> u32 {
        fnv_digest(self.le_bytes())
    }

    /// Classifies a wire code: gives the usage bound to it, or the fallback
    /// for a code that is reserved or unassigned. Every code is accepted.
    pub fn from_code(code: u8) -> (usage: Leds)
        ensures
            usage == Leds::resolve(code),
            usage.code() == code || usage == Leds::Undefined,
    {
        let usage = match code {
            0x01 => Leds::NumLock,
            0x02 => Leds::CapsLock,
            0x03 => Leds::ScrollLock,
            0x04 => Leds::Compose,
            0x05 => Leds::Kana,
            0x06 => Leds::Power,
            0x07 => Leds::Shift,
            0x08 => Leds::DoNotDisturb,
            0x09 => Leds::Mute,
            0x0A => Leds::ToneEnable,
            0x0B => Leds::HighCutFilter,
            0x0C => Leds::LowCutFilter,
            0x0D => Leds::EqualizerEnable,
            0x0E => Leds::SoundFieldOn,
            0x0F => Leds::SurroundFieldOn,
            0x10 => Leds::Repeat,
            0x11 => Leds::Stereo,
            0x12 => Leds::SamplingRateDetect,
            0x13 => Leds::Spinning,
            0x14 => Leds::CAV,
            0x15 => Leds::CLV,
            0x16 => Leds::RecordingFormatDetect,
            0x17 => Leds::OffHook,
            0x18 => Leds::Ring,
            0x19 => Leds::MessageWaiting,
            0x1A => Leds::DataMode,
            0x1B => Leds::BatteryOperation,
            0x1C => Leds::BatteryOK,
            0x1D => Leds::BatteryLow,
            0x1E => Leds::Speaker,
            0x1F => Leds::HeadSet,
            0x20 => Leds::Hold,
            0x21 => Leds::Microphone,
            0x22 => Leds::Coverage,
            0x23 => Leds::NightMode,
            0x24 => Leds::SendCalls,
            0x25 => Leds::CallPickup,
            0x26 => Leds::Conference,
            0x27 => Leds::StandBy,
            0x28 => Leds::CameraOn,
            0x29 => Leds::CameraOff,
            0x2A => Leds::OnLine,
            0x2B => Leds::OffLine,
            0x2C => Leds::Busy,
            0x2D => Leds::Ready,
            0x2E => Leds::PaperOut,
            0x2F => Leds::PaperJam,
            0x30 => Leds::Remote,
            0x31 => Leds::Forward,
            0x32 => Leds::Reverse,
            0x33 => Leds::Stop,
            0x34 => Leds::Rewind,
            0x35 => Leds::FastForward,
            0x36 => Leds::Play,
            0x37 => Leds::Pause,
            0x38 => Leds::Record,
            0x39 => Leds::Error,
            0x3A => Leds::UsageSelectedIndicator,
            0x3B => Leds::UsageInUseIndicator,
            0x3C => Leds::UsageMultiModeIndicator,
            0x3D => Leds::IndicatorOn,
            0x3E => Leds::IndicatorFlash,
            0x3F => Leds::IndicatorSlowBlink,
            0x40 => Leds::IndicatorFastBlink,
            0x41 => Leds::IndicatorOff,
            0x42 => Leds::FlashOnTime,
            0x43 => Leds::SlowBlinkOnTime,
            0x44 => Leds::SlowBlinkOffTime,
            0x45 => Leds::FastBlinkOnTime,
            0x46 => Leds::FastBlinkOffTime,
            0x47 => Leds::UsageIndicatorColor,
            0x48 => Leds::Red,
            0x49 => Leds::Green,
            0x4A => Leds::Amber,
            0x4B => Leds::GenericIndicator,
            _ => Leds::Undefined,
        };
        proof {
            if usage.code() == code {
                Leds::lemma_round_trip(usage);
            } else {
                assert forall|other: Leds| other.code() != code by {}
            }
        }
        usage
    }

    /// The wire code of a usage.
    pub fn to_code(self) -> (code: u8)
        ensures
            code == self.code(),
    {
        match self {
            Leds::Undefined => 0x00,
            Leds::NumLock => 0x01,
            Leds::CapsLock => 0x02,
            Leds::ScrollLock => 0x03,
            Leds::Compose => 0x04,
            Leds::Kana => 0x05,
            Leds::Power => 0x06,
            Leds::Shift => 0x07,
            Leds::DoNotDisturb => 0x08,
            Leds::Mute => 0x09,
            Leds::ToneEnable => 0x0A,
            Leds::HighCutFilter => 0x0B,
            Leds::LowCutFilter => 0x0C,
            Leds::EqualizerEnable => 0x0D,
            Leds::SoundFieldOn => 0x0E,
            Leds::SurroundFieldOn => 0x0F,
            Leds::Repeat => 0x10,
            Leds::Stereo => 0x11,
            Leds::SamplingRateDetect => 0x12,
            Leds::Spinning => 0x13,
            Leds::CAV => 0x14,
            Leds::CLV => 0x15,
            Leds::RecordingFormatDetect => 0x16,
            Leds::OffHook => 0x17,
            Leds::Ring => 0x18,
            Leds::MessageWaiting => 0x19,
            Leds::DataMode => 0x1A,
            Leds::BatteryOperation => 0x1B,
            Leds::BatteryOK => 0x1C,
            Leds::BatteryLow => 0x1D,
            Leds::Speaker => 0x1E,
            Leds::HeadSet => 0x1F,
            Leds::Hold => 0x20,
            Leds::Microphone => 0x21,
            Leds::Coverage => 0x22,
            Leds::NightMode => 0x23,
            Leds::SendCalls => 0x24,
            Leds::CallPickup => 0x25,
            Leds::Conference => 0x26,
            Leds::StandBy => 0x27,
            Leds::CameraOn => 0x28,
            Leds::CameraOff => 0x29,
            Leds::OnLine => 0x2A,
            Leds::OffLine => 0x2B,
            Leds::Busy => 0x2C,
            Leds::Ready => 0x2D,
            Leds::PaperOut => 0x2E,
            Leds::PaperJam => 0x2F,
            Leds::Remote => 0x30,
            Leds::Forward => 0x31,
            Leds::Reverse => 0x32,
            Leds::Stop => 0x33,
            Leds::Rewind => 0x34,
            Leds::FastForward => 0x35,
            Leds::Play => 0x36,
            Leds::Pause => 0x37,
            Leds::Record => 0x38,
            Leds::Error => 0x39,
            Leds::UsageSelectedIndicator => 0x3A,
            Leds::UsageInUseIndicator => 0x3B,
            Leds::UsageMultiModeIndicator => 0x3C,
            Leds::IndicatorOn => 0x3D,
            Leds::IndicatorFlash => 0x3E,
            Leds::IndicatorSlowBlink => 0x3F,
            Leds::IndicatorFastBlink => 0x40,
            Leds::IndicatorOff => 0x41,
            Leds::FlashOnTime => 0x42,
            Leds::SlowBlinkOnTime => 0x43,
            Leds::SlowBlinkOffTime => 0x44,
            Leds::FastBlinkOnTime => 0x45,
            Leds::FastBlinkOffTime => 0x46,
            Leds::UsageIndicatorColor => 0x47,
            Leds::Red => 0x48,
            Leds::Green => 0x49,
            Leds::Amber => 0x4A,
            Leds::GenericIndicator => 0x4B,
        }
    }

    /// The little-endian bytes of the usage's code, as fed to a hasher.
    pub fn to_le_bytes(self) -> (bytes: [u8; 1])
        ensures
            bytes@ == self.le_bytes(),
    {
        encode_u8(self.to_code())
    }

    /// Hashes the usage: the 32-bit Fowler-Noll-Vo digest of the
    /// little-endian bytes of its code.
    pub fn hash(&self) -> (digest: u32)
        ensures
            digest == self.digest(),
    {
        let bytes = self.to_le_bytes();
        fnv_hash(bytes.as_slice())
    }

    /// Distinct usages have distinct wire codes, the fallback included.
    pub proof fn lemma_codes_distinct(a: Leds, b: Leds)
        ensures
            a != b ==> a.code() != b.code(),
    {
    }

    /// A usage's own code resolves back to that usage. This holds of the
    /// fallback too, whose code is 0.
    pub proof fn lemma_round_trip(usage: Leds)
        ensures
            Leds::resolve(usage.code()) == usage,
    {
        let found = choose|other: Leds| other.code() == usage.code();
        Leds::lemma_codes_distinct(found, usage);
    }

    /// A code that no named usage is bound to resolves to the fallback.
    pub proof fn lemma_unbound_is_fallback(code: u8)
        requires
            forall|usage: Leds| usage.is_named() ==> usage.code() != code,
        ensures
            Leds::resolve(code) == Leds::Undefined,
    {
        if exists|usage: Leds| usage.code() == code {
            let found = choose|usage: Leds| usage.code() == code;
            assert(!found.is_named());
        }
    }

    /// Every code resolves to the usage bound to it or to the fallback.
    pub proof fn lemma_resolve_total(code: u8)
        ensures
            Leds::resolve(code).code() == code || Leds::resolve(code) == Leds::Undefined,
    {
    }

    /// Usages are ordered as their codes are.
    pub proof fn lemma_order_follows_code(a: Leds, b: Leds)
        ensures
            PartialOrdSpec::partial_cmp_spec(&a, &b) == Some(Ordering::Less) <==> a.code() < b.code(),
            PartialOrdSpec::partial_cmp_spec(&a, &b) == Some(Ordering::Equal) <==> a.code() == b.code(),
            PartialOrdSpec::partial_cmp_spec(&a, &b) == Some(Ordering::Greater) <==> a.code() > b.code(),
            PartialOrdSpec::partial_cmp_spec(&a, &b) == Some(Ordering::Equal) <==> a == b,
    {
        Leds::lemma_codes_distinct(a, b);
    }

    /// Two usages are equal exactly when their hashes and their codes
    /// are: equal codes always hash alike.
    pub proof fn lemma_hash_follows_equality(a: Leds, b: Leds)
        ensures
            a == b <==> (a.digest() == b.digest() && a.code() == b.code()),
            a.code() == b.code() ==> a.digest() == b.digest(),
    {
        Leds::lemma_codes_distinct(a, b);
    }
}

impl Default for Leds {
    /// The fallback usage, for use where no code is known yet.
    fn default() -> (usage: Leds)
        ensures
            usage == Leds::Undefined,
    {
        Leds::Undefined
    }
}

impl PartialOrd for Leds {
    /// Compares two usages by their wire codes.
    fn partial_cmp(&self, other: &Leds) -> (order: Option<Ordering>) {
        let left = self.to_code();
        let right = other.to_code();
        if left < right {
            Some(Ordering::Less)
        } else if left == right {
            Some(Ordering::Equal)
        } else {
            Some(Ordering::Greater)
        }
    }
}

impl PartialOrdSpecImpl for Leds {
    open spec fn obeys_partial_cmp_spec() -> bool {
        true
    }

    open spec fn partial_cmp_spec(&self, other: &Leds) -> Option<Ordering> {
        if self.code() < other.code() {
            Some(Ordering::Less)
        } else if self.code() == other.code() {
            Some(Ordering::Equal)
        } else {
            Some(Ordering::Greater)
        }
    }
}

impl From<u8> for Leds {
    /// Classifies a wire code, as [`Leds::from_code`] does.
    fn from(code: u8) -> (usage: Leds) {
        Leds::from_code(code)
    }
}

impl FromSpecImpl<u8> for Leds {
    open spec fn obeys_from_spec() -> bool {
        true
    }

    open spec fn from_spec(code: u8) -> Leds {
        Leds::resolve(code)
    }
}

impl From<Leds> for u8 {
    /// The wire code of a usage, as [`Leds::to_code`] gives it.
    fn from(usage: Leds) -> (code: u8) {
        usage.to_code()
    }
}

impl FromSpecImpl<Leds> for u8 {
    open spec fn obeys_from_spec() -> bool {
        true
    }

    open spec fn from_spec(usage: Leds) -> u8 {
        usage.code()
    }
}

} // verus!
