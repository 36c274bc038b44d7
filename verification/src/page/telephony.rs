//! Telephony Device usage page (0x0B).

use crate::digest::{encode_u8, fnv_digest, fnv_hash, le_bytes_u8};
use core::cmp::Ordering;
use vstd::prelude::*;
use vstd::std_specs::cmp::{PartialOrdSpec, PartialOrdSpecImpl};
use vstd::std_specs::convert::FromSpecImpl;

verus! {

/// Usages of the Telephony Device page. Codes are 8 bits wide; every code
/// without a usage of its own resolves to [`Telephony::Unassigned`].
///
/// The usages are declared by ascending code, so that the derived total
/// order is the order of the codes, as the partial order is.
#[derive(Debug, Clone, Copy, PartialEq, Eq, Structural, Ord)]
pub enum Telephony {
    Unassigned,
    Phone,
    AnsweringMachine,
    MessageControls,
    Handset,
    Headset,
    TelephonyKeyPad,
    ProgrammableButton,
    HookSwitch,
    Flash,
    Feature,
    Hold,
    Redial,
    Transfer,
    Drop,
    Park,
    ForwardCalls,
    AlternateFunction,
    Line,
    SpeakerPhone,
    Conference,
    RingEnable,
    RingSelect,
    PhoneMute,
    CallerID,
    Send,
    SpeedDial,
    StoreNumber,
    RecallNumber,
    PhoneDirectory,
    VoiceMail,
    ScreenCalls,
    DoNotDisturb,
    Message,
    AnswerOnOff,
    InsideDialTone,
    OutsideDialTone,
    InsideRingTone,
    OutsideRingTone,
    PriorityRingTone,
    InsideRingback,
    PriorityRingback,
    LineBusyTone,
    ReorderTone,
    CallWaitingTone,
    ConfirmationTone1,
    ConfirmationTone2,
    TonesOff,
    OutsideRingback,
    Ringer,
    PhoneKey0,
    PhoneKey1,
    PhoneKey2,
    PhoneKey3,
    PhoneKey4,
    PhoneKey5,
    PhoneKey6,
    PhoneKey7,
    PhoneKey8,
    PhoneKey9,
    PhoneKeyStar,
    PhoneKeyPound,
    PhoneKeyA,
    PhoneKeyB,
    PhoneKeyC,
    PhoneKeyD,
}

impl Telephony {
    /// The wire code bound to a usage.
    pub open spec fn code(self) -> u8 {
        match self {
            Telephony::Unassigned => 0x00,
            Telephony::Phone => 0x01,
            Telephony::AnsweringMachine => 0x02,
            Telephony::MessageControls => 0x03,
            Telephony::Handset => 0x04,
            Telephony::Headset => 0x05,
            Telephony::TelephonyKeyPad => 0x06,
            Telephony::ProgrammableButton => 0x07,
            Telephony::HookSwitch => 0x20,
            Telephony::Flash => 0x21,
            Telephony::Feature => 0x22,
            Telephony::Hold => 0x23,
            Telephony::Redial => 0x24,
            Telephony::Transfer => 0x25,
            Telephony::Drop => 0x26,
            Telephony::Park => 0x27,
            Telephony::ForwardCalls => 0x28,
            Telephony::AlternateFunction => 0x29,
            Telephony::Line => 0x2A,
            Telephony::SpeakerPhone => 0x2B,
            Telephony::Conference => 0x2C,
            Telephony::RingEnable => 0x2D,
            Telephony::RingSelect => 0x2E,
            Telephony::PhoneMute => 0x2F,
            Telephony::CallerID => 0x30,
            Telephony::Send => 0x31,
            Telephony::SpeedDial => 0x50,
            Telephony::StoreNumber => 0x51,
            Telephony::RecallNumber => 0x52,
            Telephony::PhoneDirectory => 0x53,
            Telephony::VoiceMail => 0x70,
            Telephony::ScreenCalls => 0x71,
            Telephony::DoNotDisturb => 0x72,
            Telephony::Message => 0x73,
            Telephony::AnswerOnOff => 0x74,
            Telephony::InsideDialTone => 0x90,
            Telephony::OutsideDialTone => 0x91,
            Telephony::InsideRingTone => 0x92,
            Telephony::OutsideRingTone => 0x93,
            Telephony::PriorityRingTone => 0x94,
            Telephony::InsideRingback => 0x95,
            Telephony::PriorityRingback => 0x96,
            Telephony::LineBusyTone => 0x97,
            Telephony::ReorderTone => 0x98,
            Telephony::CallWaitingTone => 0x99,
            Telephony::ConfirmationTone1 => 0x9A,
            Telephony::ConfirmationTone2 => 0x9B,
            Telephony::TonesOff => 0x9C,
            Telephony::OutsideRingback => 0x9D,
            Telephony::Ringer => 0x9E,
            Telephony::PhoneKey0 => 0xB0,
            Telephony::PhoneKey1 => 0xB1,
            Telephony::PhoneKey2 => 0xB2,
            Telephony::PhoneKey3 => 0xB3,
            Telephony::PhoneKey4 => 0xB4,
            Telephony::PhoneKey5 => 0xB5,
            Telephony::PhoneKey6 => 0xB6,
            Telephony::PhoneKey7 => 0xB7,
            Telephony::PhoneKey8 => 0xB8,
            Telephony::PhoneKey9 => 0xB9,
            Telephony::PhoneKeyStar => 0xBA,
            Telephony::PhoneKeyPound => 0xBB,
            Telephony::PhoneKeyA => 0xBC,
            Telephony::PhoneKeyB => 0xBD,
            Telephony::PhoneKeyC => 0xBE,
            Telephony::PhoneKeyD => 0xBF,
        }
    }

    /// The usage a wire code stands for: the one bound to it, or the
    /// fallback where no usage is.
    pub open spec fn resolve(code: u8) -> Telephony {
        if exists|usage: Telephony| usage.code() == code {
            choose|usage: Telephony| usage.code() == code
        } else {
            Telephony::Unassigned
        }
    }

    /// True of every usage but the fallback.
    pub open spec fn is_named(self) -> bool {
        self != Telephony::Unassigned
    }

    /// The little-endian bytes of a usage's code.
    pub open spec fn le_bytes(self) -> Seq<u8> {
        le_bytes_u8(self.code())
    }

    /// The hash of a usage: the digest of the little-endian bytes of its
    /// code, and of nothing else.
    pub open spec fn digest(self) -> u32 {
        fnv_digest(self.le_bytes())
    }

    /// Classifies a wire code: gives the usage bound to it, or the fallback
    /// for a code that is reserved or unassigned. Every code is accepted.
    pub fn from_code(code: u8) -> (usage: Telephony)
        ensures
            usage == Telephony::resolve(code),
            usage.code() == code || usage == Telephony::Unassigned,
    {
        let usage = match code {
            0x01 => Telephony::Phone,
            0x02 => Telephony::AnsweringMachine,
            0x03 => Telephony::MessageControls,
            0x04 => Telephony::Handset,
            0x05 => Telephony::Headset,
            0x06 => Telephony::TelephonyKeyPad,
            0x07 => Telephony::ProgrammableButton,
            0x20 => Telephony::HookSwitch,
            0x21 => Telephony::Flash,
            0x22 => Telephony::Feature,
            0x23 => Telephony::Hold,
            0x24 => Telephony::Redial,
            0x25 => Telephony::Transfer,
            0x26 => Telephony::Drop,
            0x27 => Telephony::Park,
            0x28 => Telephony::ForwardCalls,
            0x29 => Telephony::AlternateFunction,
            0x2A => Telephony::Line,
            0x2B => Telephony::SpeakerPhone,
            0x2C => Telephony::Conference,
            0x2D => Telephony::RingEnable,
            0x2E => Telephony::RingSelect,
            0x2F => Telephony::PhoneMute,
            0x30 => Telephony::CallerID,
            0x31 => Telephony::Send,
            0x50 => Telephony::SpeedDial,
            0x51 => Telephony::StoreNumber,
            0x52 => Telephony::RecallNumber,
            0x53 => Telephony::PhoneDirectory,
            0x70 => Telephony::VoiceMail,
            0x71 => Telephony::ScreenCalls,
            0x72 => Telephony::DoNotDisturb,
            0x73 => Telephony::Message,
            0x74 => Telephony::AnswerOnOff,
            0x90 => Telephony::InsideDialTone,
            0x91 => Telephony::OutsideDialTone,
            0x92 => Telephony::InsideRingTone,
            0x93 => Telephony::OutsideRingTone,
            0x94 => Telephony::PriorityRingTone,
            0x95 => Telephony::InsideRingback,
            0x96 => Telephony::PriorityRingback,
            0x97 => Telephony::LineBusyTone,
            0x98 => Telephony::ReorderTone,
            0x99 => Telephony::CallWaitingTone,
            0x9A => Telephony::ConfirmationTone1,
            0x9B => Telephony::ConfirmationTone2,
            0x9C => Telephony::TonesOff,
            0x9D => Telephony::OutsideRingback,
            0x9E => Telephony::Ringer,
            0xB0 => Telephony::PhoneKey0,
            0xB1 => Telephony::PhoneKey1,
            0xB2 => Telephony::PhoneKey2,
            0xB3 => Telephony::PhoneKey3,
            0xB4 => Telephony::PhoneKey4,
            0xB5 => Telephony::PhoneKey5,
            0xB6 => Telephony::PhoneKey6,
            0xB7 => Telephony::PhoneKey7,
            0xB8 => Telephony::PhoneKey8,
            0xB9 => Telephony::PhoneKey9,
            0xBA => Telephony::PhoneKeyStar,
            0xBB => Telephony::PhoneKeyPound,
            0xBC => Telephony::PhoneKeyA,
            0xBD => Telephony::PhoneKeyB,
            0xBE => Telephony::PhoneKeyC,
            0xBF => Telephony::PhoneKeyD,
            _ => Telephony::Unassigned,
        };
        proof {
            if usage.code() == code {
                Telephony::lemma_round_trip(usage);
            } else {
                assert forall|other: Telephony| other.code() != code by {}
            }
        }
        usage
    }

    /// The wire code of a usage.
    pub fn to_code(self) -> (code: u8)
        ensures
            code == self.code(),
    {
        match self {
            Telephony::Unassigned => 0x00,
            Telephony::Phone => 0x01,
            Telephony::AnsweringMachine => 0x02,
            Telephony::MessageControls => 0x03,
            Telephony::Handset => 0x04,
            Telephony::Headset => 0x05,
            Telephony::TelephonyKeyPad => 0x06,
            Telephony::ProgrammableButton => 0x07,
            Telephony::HookSwitch => 0x20,
            Telephony::Flash => 0x21,
            Telephony::Feature => 0x22,
            Telephony::Hold => 0x23,
            Telephony::Redial => 0x24,
            Telephony::Transfer => 0x25,
            Telephony::Drop => 0x26,
            Telephony::Park => 0x27,
            Telephony::ForwardCalls => 0x28,
            Telephony::AlternateFunction => 0x29,
            Telephony::Line => 0x2A,
            Telephony::SpeakerPhone => 0x2B,
            Telephony::Conference => 0x2C,
            Telephony::RingEnable => 0x2D,
            Telephony::RingSelect => 0x2E,
            Telephony::PhoneMute => 0x2F,
            Telephony::CallerID => 0x30,
            Telephony::Send => 0x31,
            Telephony::SpeedDial => 0x50,
            Telephony::StoreNumber => 0x51,
            Telephony::RecallNumber => 0x52,
            Telephony::PhoneDirectory => 0x53,
            Telephony::VoiceMail => 0x70,
            Telephony::ScreenCalls => 0x71,
            Telephony::DoNotDisturb => 0x72,
            Telephony::Message => 0x73,
            Telephony::AnswerOnOff => 0x74,
            Telephony::InsideDialTone => 0x90,
            Telephony::OutsideDialTone => 0x91,
            Telephony::InsideRingTone => 0x92,
            Telephony::OutsideRingTone => 0x93,
            Telephony::PriorityRingTone => 0x94,
            Telephony::InsideRingback => 0x95,
            Telephony::PriorityRingback => 0x96,
            Telephony::LineBusyTone => 0x97,
            Telephony::ReorderTone => 0x98,
            Telephony::CallWaitingTone => 0x99,
            Telephony::ConfirmationTone1 => 0x9A,
            Telephony::ConfirmationTone2 => 0x9B,
            Telephony::TonesOff => 0x9C,
            Telephony::OutsideRingback => 0x9D,
            Telephony::Ringer => 0x9E,
            Telephony::PhoneKey0 => 0xB0,
            Telephony::PhoneKey1 => 0xB1,
            Telephony::PhoneKey2 => 0xB2,
            Telephony::PhoneKey3 => 0xB3,
            Telephony::PhoneKey4 => 0xB4,
            Telephony::PhoneKey5 => 0xB5,
            Telephony::PhoneKey6 => 0xB6,
            Telephony::PhoneKey7 => 0xB7,
            Telephony::PhoneKey8 => 0xB8,
            Telephony::PhoneKey9 => 0xB9,
            Telephony::PhoneKeyStar => 0xBA,
            Telephony::PhoneKeyPound => 0xBB,
            Telephony::PhoneKeyA => 0xBC,
            Telephony::PhoneKeyB => 0xBD,
            Telephony::PhoneKeyC => 0xBE,
            Telephony::PhoneKeyD => 0xBF,
        }
    }

    /// The little-endian bytes of the usage's code, as fed to a hasher.
    pub fn to_le_bytes(self) -> (bytes: [u8; 1])
        ensures
            bytes@ == self.le_bytes(),
    {
        encode_u8(self.to_code())
    }

    /// Hashes the usage: the 32-bit Fowler-Noll-Vo digest of the
    /// little-endian bytes of its code.
    pub fn hash(&self) -> (digest: u32)
        ensures
            digest == self.digest(),
    {
        let bytes = self.to_le_bytes();
        fnv_hash(bytes.as_slice())
    }

    /// Distinct usages have distinct wire codes, the fallback included.
    pub proof fn lemma_codes_distinct(a: Telephony, b: Telephony)
        ensures
            a != b ==> a.code() != b.code(),
    {
    }

    /// A usage's own code resolves back to that usage. This holds of the
    /// fallback too, whose code is 0.
    pub proof fn lemma_round_trip(usage: Telephony)
        ensures
            Telephony::resolve(usage.code()) == usage,
    {
        let found = choose|other: Telephony| other.code() == usage.code();
        Telephony::lemma_codes_distinct(found, usage);
    }

    /// A code that no named usage is bound to resolves to the fallback.
    pub proof fn lemma_unbound_is_fallback(code: u8)
        requires
            forall|usage: Telephony| usage.is_named() ==> usage.code() != code,
        ensures
            Telephony::resolve(code) == Telephony::Unassigned,
    {
        if exists|usage: Telephony| usage.code() == code {
            let found = choose|usage: Telephony| usage.code() == code;
            assert(!found.is_named());
        }
    }

    /// Every code resolves to the usage bound to it or to the fallback.
    pub proof fn lemma_resolve_total(code: u8)
        ensures
            Telephony::resolve(code).code() == code || Telephony::resolve(code) == Telephony::Unassigned,
    {
    }

    /// Usages are ordered as their codes are.
    pub proof fn lemma_order_follows_code(a: Telephony, b: Telephony)
        ensures
            PartialOrdSpec::partial_cmp_spec(&a, &b) == Some(Ordering::Less) <==> a.code() < b.code(),
            PartialOrdSpec::partial_cmp_spec(&a, &b) == Some(Ordering::Equal) <==> a.code() == b.code(),
            PartialOrdSpec::partial_cmp_spec(&a, &b) == Some(Ordering::Greater) <==> a.code() > b.code(),
            PartialOrdSpec::partial_cmp_spec(&a, &b) == Some(Ordering::Equal) <==> a == b,
    {
        Telephony::lemma_codes_distinct(a, b);
    }

    /// Two usages are equal exactly when their hashes and their codes
    /// are: equal codes always hash alike.
    pub proof fn lemma_hash_follows_equality(a: Telephony, b: Telephony)
        ensures
            a == b <==> (a.digest() == b.digest() && a.code() == b.code()),
            a.code() == b.code() ==> a.digest() == b.digest(),
    {
        Telephony::lemma_codes_distinct(a, b);
    }
}

impl Default for Telephony {
    /// The fallback usage, for use where no code is known yet.
    fn default() -> (usage: Telephony)
        ensures
            usage == Telephony::Unassigned,
    {
        Telephony::Unassigned
    }
}

impl PartialOrd for Telephony {
    /// Compares two usages by their wire codes.
    fn partial_cmp(&self, other: &Telephony) -> (order: Option<Ordering>) {
        let left = self.to_code();
        let right = other.to_code();
        if left < right {
            Some(Ordering::Less)
        } else if left == right {
            Some(Ordering::Equal)
        } else {
            Some(Ordering::Greater)
        }
    }
}

impl PartialOrdSpecImpl for Telephony {
    open spec fn obeys_partial_cmp_spec() -> bool {
        true
    }

    open spec fn partial_cmp_spec(&self, other: &Telephony) -> Option<Ordering> {
        if self.code() < other.code() {
            Some(Ordering::Less)
        } else if self.code() == other.code() {
            Some(Ordering::Equal)
        } else {
            Some(Ordering::Greater)
        }
    }
}

impl From<u8> for Telephony {
    /// Classifies a wire code, as [`Telephony::from_code`] does.
    fn from(code: u8) -> (usage: Telephony) {
        Telephony::from_code(code)
    }
}

impl FromSpecImpl<u8> for Telephony {
    open spec fn obeys_from_spec() -> bool {
        true
    }

    open spec fn from_spec(code: u8) -> Telephony {
        Telephony::resolve(code)
    }
}

impl From<Telephony> for u8 {
    /// The wire code of a usage, as [`Telephony::to_code`] gives it.
    fn from(usage: Telephony) -> (code: u8) {
        usage.to_code()
    }
}

impl FromSpecImpl<Telephony> for u8 {
    open spec fn obeys_from_spec() -> bool {
        true
    }

    open spec fn from_spec(usage: Telephony) -> u8 {
        usage.code()
    }
}

} // verus!
