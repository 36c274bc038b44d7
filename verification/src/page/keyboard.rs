//! Keyboard/Keypad usage page (0x07).

use crate::digest::{encode_u8, fnv_digest, fnv_hash, le_bytes_u8};
use core::cmp::Ordering;
use vstd::prelude::*;
use vstd::std_specs::cmp::{PartialOrdSpec, PartialOrdSpecImpl};
use vstd::std_specs::convert::FromSpecImpl;

verus! {

/// Usages of the Keyboard/Keypad page. Codes are 8 bits wide; every code
/// without a usage of its own resolves to [`Keyboard::NoEventIndicated`].
///
/// The usages are declared by ascending code, so that the derived total
/// order is the order of the codes, as the partial order is.
#[derive(Debug, Clone, Copy, PartialEq, Eq, Structural, Ord)]
pub enum Keyboard {
    NoEventIndicated,
    ErrorRollOver,
    POSTFail,
    ErrorUndefine,
    A,
    B,
    C,
    D,
    E,
    F,
    G,
    H,
    I,
    J,
    K,
    L,
    M,
    N,
    O,
    P,
    Q,
    R,
    S,
    T,
    U,
    V,
    W,
    X,
    Y,
    Z,
    Keyboard1,
    Keyboard2,
    Keyboard3,
    Keyboard4,
    Keyboard5,
    Keyboard6,
    Keyboard7,
    Keyboard8,
    Keyboard9,
    Keyboard0,
    ReturnEnter,
    Escape,
    DeleteBackspace,
    Tab,
    Space,
    Minus,
    Equal,
    LeftBrace,
    RightBrace,
    Backslash,
    NonUSHash,
    Semicolon,
    Apostrophe,
    Grave,
    Comma,
    Dot,
    ForwardSlash,
    CapsLock,
    F1,
    F2,
    F3,
    F4,
    F5,
    F6,
    F7,
    F8,
    F9,
    F10,
    F11,
    F12,
    PrintScreen,
    ScrollLock,
    Pause,
    Insert,
    Home,
    PageUp,
    DeleteForward,
    End,
    PageDown,
    RightArrow,
    LeftArrow,
    DownArrow,
    UpArrow,
    KeypadNumLockAndClear,
    KeypadDivide,
    KeypadMultiply,
    KeypadSubtract,
    KeypadAdd,
    KeypadEnter,
    Keypad1,
    Keypad2,
    Keypad3,
    Keypad4,
    Keypad5,
    Keypad6,
    Keypad7,
    Keypad8,
    Keypad9,
    Keypad0,
    KeypadDot,
    NonUSBackslash,
    Application,
    Power,
    KeypadEqual,
    F13,
    F14,
    F15,
    F16,
    F17,
    F18,
    F19,
    F20,
    F21,
    F22,
    F23,
    F24,
    Execute,
    Help,
    Menu,
    Select,
    Stop,
    Again,
    Undo,
    Cut,
    Copy,
    Paste,
    Find,
    Mute,
    VolumeUp,
    VolumeDown,
    LockingCapsLock,
    LockingNumLock,
    LockingScrollLock,
    KeypadComma,
    KeypadEqualSign,
    Kanji1,
    Kanji2,
    Kanji3,
    Kanji4,
    Kanji5,
    Kanji6,
    Kanji7,
    Kanji8,
    Kanji9,
    LANG1,
    LANG2,
    LANG3,
    LANG4,
    LANG5,
    LANG6,
    LANG7,
    LANG8,
    LANG9,
    AlternateErase,
    SysReqAttention,
    Cancel,
    Clear,
    Prior,
    Return,
    Separator,
    Out,
    Oper,
    ClearAgain,
    CrSelProps,
    ExSel,
    LeftControl,
    LeftShift,
    LeftAlt,
    LeftGUI,
    RightControl,
    RightShift,
    RightAlt,
    RightGUI,
}

impl Keyboard {
    /// The wire code bound to a usage.
    pub open spec fn code(self) -> u8 {
        match self {
            Keyboard::NoEventIndicated => 0x00,
            Keyboard::ErrorRollOver => 0x01,
            Keyboard::POSTFail => 0x02,
            Keyboard::ErrorUndefine => 0x03,
            Keyboard::A => 0x04,
            Keyboard::B => 0x05,
            Keyboard::C => 0x06,
            Keyboard::D => 0x07,
            Keyboard::E => 0x08,
            Keyboard::F => 0x09,
            Keyboard::G => 0x0A,
            Keyboard::H => 0x0B,
            Keyboard::I => 0x0C,
            Keyboard::J => 0x0D,
            Keyboard::K => 0x0E,
            Keyboard::L => 0x0F,
            Keyboard::M => 0x10,
            Keyboard::N => 0x11,
            Keyboard::O => 0x12,
            Keyboard::P => 0x13,
            Keyboard::Q => 0x14,
            Keyboard::R => 0x15,
            Keyboard::S => 0x16,
            Keyboard::T => 0x17,
            Keyboard::U => 0x18,
            Keyboard::V => 0x19,
            Keyboard::W => 0x1A,
            Keyboard::X => 0x1B,
            Keyboard::Y => 0x1C,
            Keyboard::Z => 0x1D,
            Keyboard::Keyboard1 => 0x1E,
            Keyboard::Keyboard2 => 0x1F,
            Keyboard::Keyboard3 => 0x20,
            Keyboard::Keyboard4 => 0x21,
            Keyboard::Keyboard5 => 0x22,
            Keyboard::Keyboard6 => 0x23,
            Keyboard::Keyboard7 => 0x24,
            Keyboard::Keyboard8 => 0x25,
            Keyboard::Keyboard9 => 0x26,
            Keyboard::Keyboard0 => 0x27,
            Keyboard::ReturnEnter => 0x28,
            Keyboard::Escape => 0x29,
            Keyboard::DeleteBackspace => 0x2A,
            Keyboard::Tab => 0x2B,
            Keyboard::Space => 0x2C,
            Keyboard::Minus => 0x2D,
            Keyboard::Equal => 0x2E,
            Keyboard::LeftBrace => 0x2F,
            Keyboard::RightBrace => 0x30,
            Keyboard::Backslash => 0x31,
            Keyboard::NonUSHash => 0x32,
            Keyboard::Semicolon => 0x33,
            Keyboard::Apostrophe => 0x34,
            Keyboard::Grave => 0x35,
            Keyboard::Comma => 0x36,
            Keyboard::Dot => 0x37,
            Keyboard::ForwardSlash => 0x38,
            Keyboard::CapsLock => 0x39,
            Keyboard::F1 => 0x3A,
            Keyboard::F2 => 0x3B,
            Keyboard::F3 => 0x3C,
            Keyboard::F4 => 0x3D,
            Keyboard::F5 => 0x3E,
            Keyboard::F6 => 0x3F,
            Keyboard::F7 => 0x40,
            Keyboard::F8 => 0x41,
            Keyboard::F9 => 0x42,
            Keyboard::F10 => 0x43,
            Keyboard::F11 => 0x44,
            Keyboard::F12 => 0x45,
            Keyboard::PrintScreen => 0x46,
            Keyboard::ScrollLock => 0x47,
            Keyboard::Pause => 0x48,
            Keyboard::Insert => 0x49,
            Keyboard::Home => 0x4A,
            Keyboard::PageUp => 0x4B,
            Keyboard::DeleteForward => 0x4C,
            Keyboard::End => 0x4D,
            Keyboard::PageDown => 0x4E,
            Keyboard::RightArrow => 0x4F,
            Keyboard::LeftArrow => 0x50,
            Keyboard::DownArrow => 0x51,
            Keyboard::UpArrow => 0x52,
            Keyboard::KeypadNumLockAndClear => 0x53,
            Keyboard::KeypadDivide => 0x54,
            Keyboard::KeypadMultiply => 0x55,
            Keyboard::KeypadSubtract => 0x56,
            Keyboard::KeypadAdd => 0x57,
            Keyboard::KeypadEnter => 0x58,
            Keyboard::Keypad1 => 0x59,
            Keyboard::Keypad2 => 0x5A,
            Keyboard::Keypad3 => 0x5B,
            Keyboard::Keypad4 => 0x5C,
            Keyboard::Keypad5 => 0x5D,
            Keyboard::Keypad6 => 0x5E,
            Keyboard::Keypad7 => 0x5F,
            Keyboard::Keypad8 => 0x60,
            Keyboard::Keypad9 => 0x61,
            Keyboard::Keypad0 => 0x62,
            Keyboard::KeypadDot => 0x63,
            Keyboard::NonUSBackslash => 0x64,
            Keyboard::Application => 0x65,
            Keyboard::Power => 0x66,
            Keyboard::KeypadEqual => 0x67,
            Keyboard::F13 => 0x68,
            Keyboard::F14 => 0x69,
            Keyboard::F15 => 0x6A,
            Keyboard::F16 => 0x6B,
            Keyboard::F17 => 0x6C,
            Keyboard::F18 => 0x6D,
            Keyboard::F19 => 0x6E,
            Keyboard::F20 => 0x6F,
            Keyboard::F21 => 0x70,
            Keyboard::F22 => 0x71,
            Keyboard::F23 => 0x72,
            Keyboard::F24 => 0x73,
            Keyboard::Execute => 0x74,
            Keyboard::Help => 0x75,
            Keyboard::Menu => 0x76,
            Keyboard::Select => 0x77,
            Keyboard::Stop => 0x78,
            Keyboard::Again => 0x79,
            Keyboard::Undo => 0x7A,
            Keyboard::Cut => 0x7B,
            Keyboard::Copy => 0x7C,
            Keyboard::Paste => 0x7D,
            Keyboard::Find => 0x7E,
            Keyboard::Mute => 0x7F,
            Keyboard::VolumeUp => 0x80,
            Keyboard::VolumeDown => 0x81,
            Keyboard::LockingCapsLock => 0x82,
            Keyboard::LockingNumLock => 0x83,
            Keyboard::LockingScrollLock => 0x84,
            Keyboard::KeypadComma => 0x85,
            Keyboard::KeypadEqualSign => 0x86,
            Keyboard::Kanji1 => 0x87,
            Keyboard::Kanji2 => 0x88,
            Keyboard::Kanji3 => 0x89,
            Keyboard::Kanji4 => 0x8A,
            Keyboard::Kanji5 => 0x8B,
            Keyboard::Kanji6 => 0x8C,
            Keyboard::Kanji7 => 0x8D,
            Keyboard::Kanji8 => 0x8E,
            Keyboard::Kanji9 => 0x8F,
            Keyboard::LANG1 => 0x90,
            Keyboard::LANG2 => 0x91,
            Keyboard::LANG3 => 0x92,
            Keyboard::LANG4 => 0x93,
            Keyboard::LANG5 => 0x94,
            Keyboard::LANG6 => 0x95,
            Keyboard::LANG7 => 0x96,
            Keyboard::LANG8 => 0x97,
            Keyboard::LANG9 => 0x98,
            Keyboard::AlternateErase => 0x99,
            Keyboard::SysReqAttention => 0x9A,
            Keyboard::Cancel => 0x9B,
            Keyboard::Clear => 0x9C,
            Keyboard::Prior => 0x9D,
            Keyboard::Return => 0x9E,
            Keyboard::Separator => 0x9F,
            Keyboard::Out => 0xA0,
            Keyboard::Oper => 0xA1,
            Keyboard::ClearAgain => 0xA2,
            Keyboard::CrSelProps => 0xA3,
            Keyboard::ExSel => 0xA4,
            Keyboard::LeftControl => 0xE0,
            Keyboard::LeftShift => 0xE1,
            Keyboard::LeftAlt => 0xE2,
            Keyboard::LeftGUI => 0xE3,
            Keyboard::RightControl => 0xE4,
            Keyboard::RightShift => 0xE5,
            Keyboard::RightAlt => 0xE6,
            Keyboard::RightGUI => 0xE7,
        }
    }

    /// The usage a wire code stands for: the one bound to it, or the
    /// fallback where no usage is.
    pub open spec fn resolve(code: u8) -> Keyboard {
        if exists|usage: Keyboard| usage.code() == code {
            choose|usage: Keyboard| usage.code() == code
        } else {
            Keyboard::NoEventIndicated
        }
    }

    /// True of every usage but the fallback.
    pub open spec fn is_named(self) -> bool {
        self != Keyboard::NoEventIndicated
    }

    /// The little-endian bytes of a usage's code.
    pub open spec fn le_bytes(self) -> Seq<u8> {
        le_bytes_u8(self.code())
    }

    /// The hash of a usage: the digest of the little-endian bytes of its
    /// code, and of nothing else.
    pub open spec fn digest(self) -> u32 {
        fnv_digest(self.le_bytes())
    }

    /// Classifies a wire code: gives the usage bound to it, or the fallback
    /// for a code that is reserved or unassigned. Every code is accepted.
    pub fn from_code(code: u8) -> (usage: Keyboard)
        ensures
            usage == Keyboard::resolve(code),
            usage.code() == code || usage == Keyboard::NoEventIndicated,
    {
        let usage = match code {
            0x01 => Keyboard::ErrorRollOver,
            0x02 => Keyboard::POSTFail,
            0x03 => Keyboard::ErrorUndefine,
            0x04 => Keyboard::A,
            0x05 => Keyboard::B,
            0x06 => Keyboard::C,
            0x07 => Keyboard::D,
            0x08 => Keyboard::E,
            0x09 => Keyboard::F,
            0x0A => Keyboard::G,
            0x0B => Keyboard::H,
            0x0C => Keyboard::I,
            0x0D => Keyboard::J,
            0x0E => Keyboard::K,
            0x0F => Keyboard::L,
            0x10 => Keyboard::M,
            0x11 => Keyboard::N,
            0x12 => Keyboard::O,
            0x13 => Keyboard::P,
            0x14 => Keyboard::Q,
            0x15 => Keyboard::R,
            0x16 => Keyboard::S,
            0x17 => Keyboard::T,
            0x18 => Keyboard::U,
            0x19 => Keyboard::V,
            0x1A => Keyboard::W,
            0x1B => Keyboard::X,
            0x1C => Keyboard::Y,
            0x1D => Keyboard::Z,
            0x1E => Keyboard::Keyboard1,
            0x1F => Keyboard::Keyboard2,
            0x20 => Keyboard::Keyboard3,
            0x21 => Keyboard::Keyboard4,
            0x22 => Keyboard::Keyboard5,
            0x23 => Keyboard::Keyboard6,
            0x24 => Keyboard::Keyboard7,
            0x25 => Keyboard::Keyboard8,
            0x26 => Keyboard::Keyboard9,
            0x27 => Keyboard::Keyboard0,
            0x28 => Keyboard::ReturnEnter,
            0x29 => Keyboard::Escape,
            0x2A => Keyboard::DeleteBackspace,
            0x2B => Keyboard::Tab,
            0x2C => Keyboard::Space,
            0x2D => Keyboard::Minus,
            0x2E => Keyboard::Equal,
            0x2F => Keyboard::LeftBrace,
            0x30 => Keyboard::RightBrace,
            0x31 => Keyboard::Backslash,
            0x32 => Keyboard::NonUSHash,
            0x33 => Keyboard::Semicolon,
            0x34 => Keyboard::Apostrophe,
            0x35 => Keyboard::Grave,
            0x36 => Keyboard::Comma,
            0x37 => Keyboard::Dot,
            0x38 => Keyboard::ForwardSlash,
            0x39 => Keyboard::CapsLock,
            0x3A => Keyboard::F1,
            0x3B => Keyboard::F2,
            0x3C => Keyboard::F3,
            0x3D => Keyboard::F4,
            0x3E => Keyboard::F5,
            0x3F => Keyboard::F6,
            0x40 => Keyboard::F7,
            0x41 => Keyboard::F8,
            0x42 => Keyboard::F9,
            0x43 => Keyboard::F10,
            0x44 => Keyboard::F11,
            0x45 => Keyboard::F12,
            0x46 => Keyboard::PrintScreen,
            0x47 => Keyboard::ScrollLock,
            0x48 => Keyboard::Pause,
            0x49 => Keyboard::Insert,
            0x4A => Keyboard::Home,
            0x4B => Keyboard::PageUp,
            0x4C => Keyboard::DeleteForward,
            0x4D => Keyboard::End,
            0x4E => Keyboard::PageDown,
            0x4F => Keyboard::RightArrow,
            0x50 => Keyboard::LeftArrow,
            0x51 => Keyboard::DownArrow,
            0x52 => Keyboard::UpArrow,
            0x53 => Keyboard::KeypadNumLockAndClear,
            0x54 => Keyboard::KeypadDivide,
            0x55 => Keyboard::KeypadMultiply,
            0x56 => Keyboard::KeypadSubtract,
            0x57 => Keyboard::KeypadAdd,
            0x58 => Keyboard::KeypadEnter,
            0x59 => Keyboard::Keypad1,
            0x5A => Keyboard::Keypad2,
            0x5B => Keyboard::Keypad3,
            0x5C => Keyboard::Keypad4,
            0x5D => Keyboard::Keypad5,
            0x5E => Keyboard::Keypad6,
            0x5F => Keyboard::Keypad7,
            0x60 => Keyboard::Keypad8,
            0x61 => Keyboard::Keypad9,
            0x62 => Keyboard::Keypad0,
            0x63 => Keyboard::KeypadDot,
            0x64 => Keyboard::NonUSBackslash,
            0x65 => Keyboard::Application,
            0x66 => Keyboard::Power,
            0x67 => Keyboard::KeypadEqual,
            0x68 => Keyboard::F13,
            0x69 => Keyboard::F14,
            0x6A => Keyboard::F15,
            0x6B => Keyboard::F16,
            0x6C => Keyboard::F17,
            0x6D => Keyboard::F18,
            0x6E => Keyboard::F19,
            0x6F => Keyboard::F20,
            0x70 => Keyboard::F21,
            0x71 => Keyboard::F22,
            0x72 => Keyboard::F23,
            0x73 => Keyboard::F24,
            0x74 => Keyboard::Execute,
            0x75 => Keyboard::Help,
            0x76 => Keyboard::Menu,
            0x77 => Keyboard::Select,
            0x78 => Keyboard::Stop,
            0x79 => Keyboard::Again,
            0x7A => Keyboard::Undo,
            0x7B => Keyboard::Cut,
            0x7C => Keyboard::Copy,
            0x7D => Keyboard::Paste,
            0x7E => Keyboard::Find,
            0x7F => Keyboard::Mute,
            0x80 => Keyboard::VolumeUp,
            0x81 => Keyboard::VolumeDown,
            0x82 => Keyboard::LockingCapsLock,
            0x83 => Keyboard::LockingNumLock,
            0x84 => Keyboard::LockingScrollLock,
            0x85 => Keyboard::KeypadComma,
            0x86 => Keyboard::KeypadEqualSign,
            0x87 => Keyboard::Kanji1,
            0x88 => Keyboard::Kanji2,
            0x89 => Keyboard::Kanji3,
            0x8A => Keyboard::Kanji4,
            0x8B => Keyboard::Kanji5,
            0x8C => Keyboard::Kanji6,
            0x8D => Keyboard::Kanji7,
            0x8E => Keyboard::Kanji8,
            0x8F => Keyboard::Kanji9,
            0x90 => Keyboard::LANG1,
            0x91 => Keyboard::LANG2,
            0x92 => Keyboard::LANG3,
            0x93 => Keyboard::LANG4,
            0x94 => Keyboard::LANG5,
            0x95 => Keyboard::LANG6,
            0x96 => Keyboard::LANG7,
            0x97 => Keyboard::LANG8,
            0x98 => Keyboard::LANG9,
            0x99 => Keyboard::AlternateErase,
            0x9A => Keyboard::SysReqAttention,
            0x9B => Keyboard::Cancel,
            0x9C => Keyboard::Clear,
            0x9D => Keyboard::Prior,
            0x9E => Keyboard::Return,
            0x9F => Keyboard::Separator,
            0xA0 => Keyboard::Out,
            0xA1 => Keyboard::Oper,
            0xA2 => Keyboard::ClearAgain,
            0xA3 => Keyboard::CrSelProps,
            0xA4 => Keyboard::ExSel,
            0xE0 => Keyboard::LeftControl,
            0xE1 => Keyboard::LeftShift,
            0xE2 => Keyboard::LeftAlt,
            0xE3 => Keyboard::LeftGUI,
            0xE4 => Keyboard::RightControl,
            0xE5 => Keyboard::RightShift,
            0xE6 => Keyboard::RightAlt,
            0xE7 => Keyboard::RightGUI,
            _ => Keyboard::NoEventIndicated,
        };
        proof {
            if usage.code() == code {
                Keyboard::lemma_round_trip(usage);
            } else {
                assert forall|other: Keyboard| other.code() != code by {}
            }
        }
        usage
    }

    /// The wire code of a usage.
    pub fn to_code(self) -> (code: u8)
        ensures
            code == self.code(),
    {
        match self {
            Keyboard::NoEventIndicated => 0x00,
            Keyboard::ErrorRollOver => 0x01,
            Keyboard::POSTFail => 0x02,
            Keyboard::ErrorUndefine => 0x03,
            Keyboard::A => 0x04,
            Keyboard::B => 0x05,
            Keyboard::C => 0x06,
            Keyboard::D => 0x07,
            Keyboard::E => 0x08,
            Keyboard::F => 0x09,
            Keyboard::G => 0x0A,
            Keyboard::H => 0x0B,
            Keyboard::I => 0x0C,
            Keyboard::J => 0x0D,
            Keyboard::K => 0x0E,
            Keyboard::L => 0x0F,
            Keyboard::M => 0x10,
            Keyboard::N => 0x11,
            Keyboard::O => 0x12,
            Keyboard::P => 0x13,
            Keyboard::Q => 0x14,
            Keyboard::R => 0x15,
            Keyboard::S => 0x16,
            Keyboard::T => 0x17,
            Keyboard::U => 0x18,
            Keyboard::V => 0x19,
            Keyboard::W => 0x1A,
            Keyboard::X => 0x1B,
            Keyboard::Y => 0x1C,
            Keyboard::Z => 0x1D,
            Keyboard::Keyboard1 => 0x1E,
            Keyboard::Keyboard2 => 0x1F,
            Keyboard::Keyboard3 => 0x20,
            Keyboard::Keyboard4 => 0x21,
            Keyboard::Keyboard5 => 0x22,
            Keyboard::Keyboard6 => 0x23,
            Keyboard::Keyboard7 => 0x24,
            Keyboard::Keyboard8 => 0x25,
            Keyboard::Keyboard9 => 0x26,
            Keyboard::Keyboard0 => 0x27,
            Keyboard::ReturnEnter => 0x28,
            Keyboard::Escape => 0x29,
            Keyboard::DeleteBackspace => 0x2A,
            Keyboard::Tab => 0x2B,
            Keyboard::Space => 0x2C,
            Keyboard::Minus => 0x2D,
            Keyboard::Equal => 0x2E,
            Keyboard::LeftBrace => 0x2F,
            Keyboard::RightBrace => 0x30,
            Keyboard::Backslash => 0x31,
            Keyboard::NonUSHash => 0x32,
            Keyboard::Semicolon => 0x33,
            Keyboard::Apostrophe => 0x34,
            Keyboard::Grave => 0x35,
            Keyboard::Comma => 0x36,
            Keyboard::Dot => 0x37,
            Keyboard::ForwardSlash => 0x38,
            Keyboard::CapsLock => 0x39,
            Keyboard::F1 => 0x3A,
            Keyboard::F2 => 0x3B,
            Keyboard::F3 => 0x3C,
            Keyboard::F4 => 0x3D,
            Keyboard::F5 => 0x3E,
            Keyboard::F6 => 0x3F,
            Keyboard::F7 => 0x40,
            Keyboard::F8 => 0x41,
            Keyboard::F9 => 0x42,
            Keyboard::F10 => 0x43,
            Keyboard::F11 => 0x44,
            Keyboard::F12 => 0x45,
            Keyboard::PrintScreen => 0x46,
            Keyboard::ScrollLock => 0x47,
            Keyboard::Pause => 0x48,
            Keyboard::Insert => 0x49,
            Keyboard::Home => 0x4A,
            Keyboard::PageUp => 0x4B,
            Keyboard::DeleteForward => 0x4C,
            Keyboard::End => 0x4D,
            Keyboard::PageDown => 0x4E,
            Keyboard::RightArrow => 0x4F,
            Keyboard::LeftArrow => 0x50,
            Keyboard::DownArrow => 0x51,
            Keyboard::UpArrow => 0x52,
            Keyboard::KeypadNumLockAndClear => 0x53,
            Keyboard::KeypadDivide => 0x54,
            Keyboard::KeypadMultiply => 0x55,
            Keyboard::KeypadSubtract => 0x56,
            Keyboard::KeypadAdd => 0x57,
            Keyboard::KeypadEnter => 0x58,
            Keyboard::Keypad1 => 0x59,
            Keyboard::Keypad2 => 0x5A,
            Keyboard::Keypad3 => 0x5B,
            Keyboard::Keypad4 => 0x5C,
            Keyboard::Keypad5 => 0x5D,
            Keyboard::Keypad6 => 0x5E,
            Keyboard::Keypad7 => 0x5F,
            Keyboard::Keypad8 => 0x60,
            Keyboard::Keypad9 => 0x61,
            Keyboard::Keypad0 => 0x62,
            Keyboard::KeypadDot => 0x63,
            Keyboard::NonUSBackslash => 0x64,
            Keyboard::Application => 0x65,
            Keyboard::Power => 0x66,
            Keyboard::KeypadEqual => 0x67,
            Keyboard::F13 => 0x68,
            Keyboard::F14 => 0x69,
            Keyboard::F15 => 0x6A,
            Keyboard::F16 => 0x6B,
            Keyboard::F17 => 0x6C,
            Keyboard::F18 => 0x6D,
            Keyboard::F19 => 0x6E,
            Keyboard::F20 => 0x6F,
            Keyboard::F21 => 0x70,
            Keyboard::F22 => 0x71,
            Keyboard::F23 => 0x72,
            Keyboard::F24 => 0x73,
            Keyboard::Execute => 0x74,
            Keyboard::Help => 0x75,
            Keyboard::Menu => 0x76,
            Keyboard::Select => 0x77,
            Keyboard::Stop => 0x78,
            Keyboard::Again => 0x79,
            Keyboard::Undo => 0x7A,
            Keyboard::Cut => 0x7B,
            Keyboard::Copy => 0x7C,
            Keyboard::Paste => 0x7D,
            Keyboard::Find => 0x7E,
            Keyboard::Mute => 0x7F,
            Keyboard::VolumeUp => 0x80,
            Keyboard::VolumeDown => 0x81,
            Keyboard::LockingCapsLock => 0x82,
            Keyboard::LockingNumLock => 0x83,
            Keyboard::LockingScrollLock => 0x84,
            Keyboard::KeypadComma => 0x85,
            Keyboard::KeypadEqualSign => 0x86,
            Keyboard::Kanji1 => 0x87,
            Keyboard::Kanji2 => 0x88,
            Keyboard::Kanji3 => 0x89,
            Keyboard::Kanji4 => 0x8A,
            Keyboard::Kanji5 => 0x8B,
            Keyboard::Kanji6 => 0x8C,
            Keyboard::Kanji7 => 0x8D,
            Keyboard::Kanji8 => 0x8E,
            Keyboard::Kanji9 => 0x8F,
            Keyboard::LANG1 => 0x90,
            Keyboard::LANG2 => 0x91,
            Keyboard::LANG3 => 0x92,
            Keyboard::LANG4 => 0x93,
            Keyboard::LANG5 => 0x94,
            Keyboard::LANG6 => 0x95,
            Keyboard::LANG7 => 0x96,
            Keyboard::LANG8 => 0x97,
            Keyboard::LANG9 => 0x98,
            Keyboard::AlternateErase => 0x99,
            Keyboard::SysReqAttention => 0x9A,
            Keyboard::Cancel => 0x9B,
            Keyboard::Clear => 0x9C,
            Keyboard::Prior => 0x9D,
            Keyboard::Return => 0x9E,
            Keyboard::Separator => 0x9F,
            Keyboard::Out => 0xA0,
            Keyboard::Oper => 0xA1,
            Keyboard::ClearAgain => 0xA2,
            Keyboard::CrSelProps => 0xA3,
            Keyboard::ExSel => 0xA4,
            Keyboard::LeftControl => 0xE0,
            Keyboard::LeftShift => 0xE1,
            Keyboard::LeftAlt => 0xE2,
            Keyboard::LeftGUI => 0xE3,
            Keyboard::RightControl => 0xE4,
            Keyboard::RightShift => 0xE5,
            Keyboard::RightAlt => 0xE6,
            Keyboard::RightGUI => 0xE7,
        }
    }

    /// The little-endian bytes of the usage's code, as fed to a hasher.
    pub fn to_le_bytes(self) -> (bytes: [u8; 1])
        ensures
            bytes@ == self.le_bytes(),
    {
        encode_u8(self.to_code())
    }

    /// Hashes the usage: the 32-bit Fowler-Noll-Vo digest of the
    /// little-endian bytes of its code.
    pub fn hash(&self) -> (digest: u32)
        ensures
            digest == self.digest(),
    {
        let bytes = self.to_le_bytes();
        fnv_hash(bytes.as_slice())
    }

    /// Distinct usages have distinct wire codes, the fallback included.
    pub proof fn lemma_codes_distinct(a: Keyboard, b: Keyboard)
        ensures
            a != b ==> a.code() != b.code(),
    {
    }

    /// A usage's own code resolves back to that usage. This holds of the
    /// fallback too, whose code is 0.
    pub proof fn lemma_round_trip(usage: Keyboard)
        ensures
            Keyboard::resolve(usage.code()) == usage,
    {
        let found = choose|other: Keyboard| other.code() == usage.code();
        Keyboard::lemma_codes_distinct(found, usage);
    }

    /// A code that no named usage is bound to resolves to the fallback.
    pub proof fn lemma_unbound_is_fallback(code: u8)
        requires
            forall|usage: Keyboard| usage.is_named() ==> usage.code() != code,
        ensures
            Keyboard::resolve(code) == Keyboard::NoEventIndicated,
    {
        if exists|usage: Keyboard| usage.code() == code {
            let found = choose|usage: Keyboard| usage.code() == code;
            assert(!found.is_named());
        }
    }

    /// Every code resolves to the usage bound to it or to the fallback.
    pub proof fn lemma_resolve_total(code: u8)
        ensures
            Keyboard::resolve(code).code() == code || Keyboard::resolve(code) == Keyboard::NoEventIndicated,
    {
    }

    /// Usages are ordered as their codes are.
    pub proof fn lemma_order_follows_code(a: Keyboard, b: Keyboard)
        ensures
            PartialOrdSpec::partial_cmp_spec(&a, &b) == Some(Ordering::Less) <==> a.code() < b.code(),
            PartialOrdSpec::partial_cmp_spec(&a, &b) == Some(Ordering::Equal) <==> a.code() == b.code(),
            PartialOrdSpec::partial_cmp_spec(&a, &b) == Some(Ordering::Greater) <==> a.code() > b.code(),
            PartialOrdSpec::partial_cmp_spec(&a, &b) == Some(Ordering::Equal) <==> a == b,
    {
        Keyboard::lemma_codes_distinct(a, b);
    }

    /// Two usages are equal exactly when their hashes and their codes
    /// are: equal codes always hash alike.
    pub proof fn lemma_hash_follows_equality(a: Keyboard, b: Keyboard)
        ensures
            a == b <==> (a.digest() == b.digest() && a.code() == b.code()),
            a.code() == b.code() ==> a.digest() == b.digest(),
    {
        Keyboard::lemma_codes_distinct(a, b);
    }
}

impl Default for Keyboard {
    /// The fallback usage, for use where no code is known yet.
    fn default() -> (usage: Keyboard)
        ensures
            usage == Keyboard::NoEventIndicated,
    {
        Keyboard::NoEventIndicated
    }
}

impl PartialOrd for Keyboard {
    /// Compares two usages by their wire codes.
    fn partial_cmp(&self, other: &Keyboard) -> (order: Option<Ordering>) {
        let left = self.to_code();
        let right = other.to_code();
        if left < right {
            Some(Ordering::Less)
        } else if left == right {
            Some(Ordering::Equal)
        } else {
            Some(Ordering::Greater)
        }
    }
}

impl PartialOrdSpecImpl for Keyboard {
    open spec fn obeys_partial_cmp_spec() -> bool {
        true
    }

    open spec fn partial_cmp_spec(&self, other: &Keyboard) -> Option<Ordering> {
        if self.code() < other.code() {
            Some(Ordering::Less)
        } else if self.code() == other.code() {
            Some(Ordering::Equal)
        } else {
            Some(Ordering::Greater)
        }
    }
}

impl From<u8> for Keyboard {
    /// Classifies a wire code, as [`Keyboard::from_code`] does.
    fn from(code: u8) -> (usage: Keyboard) {
        Keyboard::from_code(code)
    }
}

impl FromSpecImpl<u8> for Keyboard {
    open spec fn obeys_from_spec() -> bool {
        true
    }

    open spec fn from_spec(code: u8) -> Keyboard {
        Keyboard::resolve(code)
    }
}

impl From<Keyboard> for u8 {
    /// The wire code of a usage, as [`Keyboard::to_code`] gives it.
    fn from(usage: Keyboard) -> (code: u8) {
        usage.to_code()
    }
}

impl FromSpecImpl<Keyboard> for u8 {
    open spec fn obeys_from_spec() -> bool {
        true
    }

    open spec fn from_spec(usage: Keyboard) -> u8 {
        usage.code()
    }
}

} // verus!
