//! Consumer usage page (0x0C).

use crate::digest::{encode_u16, fnv_digest, fnv_hash, le_bytes_u16};
use core::cmp::Ordering;
use vstd::prelude::*;
use vstd::std_specs::cmp::{PartialOrdSpec, PartialOrdSpecImpl};
use vstd::std_specs::convert::FromSpecImpl;

verus! {

/// Usages of the Consumer page. Codes are 16 bits wide; every code
/// without a usage of its own resolves to [`Consumer::Unassigned`].
///
/// The usages are declared by ascending code, so that the derived total
/// order is the order of the codes, as the partial order is.
#[derive(Debug, Clone, Copy, PartialEq, Eq, Structural, Ord)]
pub enum Consumer {
    Unassigned,
    ConsumerControl,
    NumericKeyPad,
    ProgrammableButtons,
    Microphone,
    Headphone,
    GraphicEqualizer,
    Plus10,
    Plus100,
    AmPm,
    Power,
    Reset,
    Sleep,
    SleepAfter,
    SleepMode,
    Illumination,
    FunctionButtons,
    Menu,
    MenuPick,
    MenuUp,
    MenuDown,
    MenuLeft,
    MenuRight,
    MenuEscape,
    MenuValueIncrease,
    MenuValueDecrease,
    DataOnScreen,
    ClosedCaption,
    ClosedCaptionSelect,
    VcrTv,
    BroadcastMode,
    Snapshot,
    Still,
    Selection,
    AssignSelection,
    ModeStep,
    RecallLast,
    EnterChannel,
    OrderMovie,
    Channel,
    MediaSelection,
    MediaSelectComputer,
    MediaSelectTV,
    MediaSelectWWW,
    MediaSelectDVD,
    MediaSelectTelephone,
    MediaSelectProgramGuide,
    MediaSelectVideoPhone,
    MediaSelectGames,
    MediaSelectMessages,
    MediaSelectCD,
    MediaSelectVCR,
    MediaSelectTuner,
    Quit,
    Help,
    MediaSelectTape,
    MediaSelectCable,
    MediaSelectSatellite,
    MediaSelectSecurity,
    MediaSelectHome,
    MediaSelectCall,
    ChannelIncrement,
    ChannelDecrement,
    MediaSelectSAP,
    VCRPlus,
    Once,
    Daily,
    Weekly,
    Monthly,
    Play,
    Pause,
    Record,
    FastForward,
    Rewind,
    ScanNextTrack,
    ScanPreviousTrack,
    Stop,
    Eject,
    RandomPlay,
    SelectDisc,
    EnterDisc,
    Repeat,
    Tracking,
    TrackNormal,
    SlowTracking,
    FrameForward,
    FrameBack,
    Mark,
    ClearMark,
    RepeatFromMark,
    ReturnToMark,
    SearchMarkForward,
    SearchMarkBackwards,
    CounterReset,
    ShowCounter,
    TrackingIncrement,
    TrackingDecrement,
    StopEject,
    PlayPause,
    PlaySkip,
    Volume,
    Balance,
    Mute,
    Bass,
    Treble,
    BassBoost,
    SurroundMode,
    Loudness,
    MPX,
    VolumeIncrement,
    VolumeDecrement,
    SpeedSelect,
    PlaybackSpeed,
    StandardPlay,
    LongPlay,
    ExtendedPlay,
    Slow,
    FanEnable,
    FanSpeed,
    LightEnable,
    LightIlluminationLevel,
    ClimateControlEnable,
    RoomTemperature,
    SecurityEnable,
    FireAlarm,
    PoliceAlarm,
    Proximity,
    Motion,
    DuressAlarm,
    HoldupAlarm,
    MedicalAlarm,
    BalanceRight,
    BalanceLeft,
    BassIncrement,
    BassDecrement,
    TrebleIncrement,
    TrebleDecrement,
    SpeakerSystem,
    ChannelLeft,
    ChannelRight,
    ChannelCenter,
    ChannelFront,
    ChannelCenterFront,
    ChannelSide,
    ChannelSurround,
    ChannelLowFrequencyEnhancement,
    ChannelTop,
    ChannelUnknown,
    SubChannel,
    SubChannelIncrement,
    SubChannelDecrement,
    AlternateAudioIncrement,
    AlternateAudioDecrement,
    ApplicationLaunchButtons,
    ALLaunchButtonConfigurationTool,
    ALProgrammableButtonConfiguration,
    ALConsumerControlConfiguration,
    ALWordProcessor,
    ALTextEditor,
    ALSpreadsheet,
    ALGraphicsEditor,
    ALPresentationApp,
    ALDatabaseApp,
    ALEmailReader,
    ALNewsreader,
    ALVoicemail,
    ALContactsAddressBook,
    ALCalendarSchedule,
    ALTaskProjectManager,
    ALLogJournalTimecard,
    ALCheckbookFinance,
    ALCalculator,
    ALAvCapturePlayback,
    ALLocalMachineBrowser,
    ALLanWanBrowser,
    ALInternetBrowser,
    ALRemoteNetworkingISPConnect,
    ALNetworkConference,
    ALNetworkChat,
    ALTelephonyDialer,
    ALLogon,
    ALLogoff,
    ALLogonLogoff,
    ALTerminalLockScreensaver,
    ALControlPanel,
    ALCommandLineProcessorRun,
    ALProcessTaskManager,
    ALSelectTaskApplication,
    ALNextTaskApplication,
    ALPreviousTaskApplication,
    ALPreemptiveHaltTaskApplication,
    ALIntegratedHelpCenter,
    ALDocuments,
    ALThesaurus,
    ALDictionary,
    ALDesktop,
    ALSpellCheck,
    ALGrammarCheck,
    ALWirelessStatus,
    ALKeyboardLayout,
    ALVirusProtection,
    ALEncryption,
    ALScreenSaver,
    ALAlarms,
    ALClock,
    ALFileBrowser,
    ALPowerStatus,
    ALImageBrowser,
    ALAudioBrowser,
    ALMovieBrowser,
    ALDigitalRightsManager,
    ALDigitalWallet,
    ALInstantMessaging,
    ALOemFeaturesTipsTutorialBrowser,
    ALOemHelp,
    ALOnlineCommunity,
    ALEntertainmentContentBrowser,
    ALOnlineShoppingBrowser,
    ALSmartCardInformationHelp,
    ALMarketMonitorFinanceBrowser,
    ALCustomizedCorporateNewsBrowser,
    ALOnlineActivityBrowser,
    ALResearchSearchBrowser,
    ALAudioPlayer,
    GenericGUIApplicationControls,
    ACNew,
    ACOpen,
    ACClose,
    ACExit,
    ACMaximize,
    ACMinimize,
    ACSave,
    ACPrint,
    ACProperties,
    ACUndo,
    ACCopy,
    ACCut,
    ACPaste,
    ACSelectAll,
    ACFind,
    ACFindAndReplace,
    ACSearch,
    ACGoTo,
    ACHome,
    ACBack,
    ACForward,
    ACStop,
    ACRefresh,
    ACPreviousLink,
    ACNextLink,
    ACBookmarks,
    ACHistory,
    ACSubscriptions,
    ACZoomIn,
    ACZoomOut,
    ACZoom,
    ACFullScreenView,
    ACNormalView,
    ACViewToggle,
    ACScrollUp,
    ACScrollDown,
    ACScroll,
    ACPanLeft,
    ACPanRight,
    ACPan,
    ACNewWindow,
    ACTileHorizontally,
    ACTileVertically,
    ACFormat,
    ACEdit,
    ACBold,
    ACItalics,
    ACUnderline,
    ACStrikethrough,
    ACSubscript,
    ACSuperscript,
    ACAllCaps,
    ACRotate,
    ACResize,
    ACFlipHorizontal,
    ACFlipVertical,
    ACMirrorHorizontal,
    ACMirrorVertical,
    ACFontSelect,
    ACFontColor,
    ACFontSize,
    ACJustifyLeft,
    ACJustifyCenterH,
    ACJustifyRight,
    ACJustifyBlockH,
    ACJustifyTop,
    ACJustifyCenterV,
    ACJustifyBottom,
    ACJustifyBlockV,
    ACIndentDecrease,
    ACIndentIncrease,
    ACNumberedList,
    ACRestartNumbering,
    ACBulletedList,
    ACPromote,
    ACDemote,
    ACYes,
    ACNo,
    ACCancel,
    ACCatalog,
    ACBuyCheckout,
    ACAddToCart,
    ACExpand,
    ACExpandAll,
    ACCollapse,
    ACCollapseAll,
    ACPrintPreview,
    ACPasteSpecial,
    ACInsertMode,
    ACDelete,
    ACLock,
    ACUnlock,
    ACProtect,
    ACUnprotect,
    ACAttachComment,
    ACDeleteComment,
    ACViewComment,
    ACSelectWord,
    ACSelectSentence,
    ACSelectParagraph,
    ACSelectColumn,
    ACSelectRow,
    ACSelectTable,
    ACSelectObject,
    ACRedoRepeat,
    ACSort,
    ACSortAscending,
    ACSortDescending,
    ACFilter,
    ACSetClock,
    ACViewClock,
    ACSelectTimeZone,
    ACEditTimeZones,
    ACSetAlarm,
    ACClearAlarm,
    ACSnoozeAlarm,
    ACResetAlarm,
    ACSynchronize,
    ACSendReceive,
    ACSendTo,
    ACReply,
    ACReplyAll,
    ACForwardMsg,
    ACSend,
    ACAttachFile,
    ACUpload,
    ACDownloadSaveTargetAs,
    ACSetBorders,
    ACInsertRow,
    ACInsertColumn,
    ACInsertFile,
    ACInsertPicture,
    ACInsertObject,
    ACInsertSymbol,
    ACSaveAndClose,
    ACRename,
    ACMerge,
    ACSplit,
    ACDistributeHorizontally,
    ACDistributeVertically,
}

impl Consumer {
    /// The wire code bound to a usage.
    pub open spec fn code(self) -> u16 {
        match self {
            Consumer::Unassigned => 0x00,
            Consumer::ConsumerControl => 0x01,
            Consumer::NumericKeyPad => 0x02,
            Consumer::ProgrammableButtons => 0x03,
            Consumer::Microphone => 0x04,
            Consumer::Headphone => 0x05,
            Consumer::GraphicEqualizer => 0x06,
            Consumer::Plus10 => 0x20,
            Consumer::Plus100 => 0x21,
            Consumer::AmPm => 0x22,
            Consumer::Power => 0x30,
            Consumer::Reset => 0x31,
            Consumer::Sleep => 0x32,
            Consumer::SleepAfter => 0x33,
            Consumer::SleepMode => 0x34,
            Consumer::Illumination => 0x35,
            Consumer::FunctionButtons => 0x36,
            Consumer::Menu => 0x40,
            Consumer::MenuPick => 0x41,
            Consumer::MenuUp => 0x42,
            Consumer::MenuDown => 0x43,
            Consumer::MenuLeft => 0x44,
            Consumer::MenuRight => 0x45,
            Consumer::MenuEscape => 0x46,
            Consumer::MenuValueIncrease => 0x47,
            Consumer::MenuValueDecrease => 0x48,
            Consumer::DataOnScreen => 0x60,
            Consumer::ClosedCaption => 0x61,
            Consumer::ClosedCaptionSelect => 0x62,
            Consumer::VcrTv => 0x63,
            Consumer::BroadcastMode => 0x64,
            Consumer::Snapshot => 0x65,
            Consumer::Still => 0x66,
            Consumer::Selection => 0x80,
            Consumer::AssignSelection => 0x81,
            Consumer::ModeStep => 0x82,
            Consumer::RecallLast => 0x83,
            Consumer::EnterChannel => 0x84,
            Consumer::OrderMovie => 0x85,
            Consumer::Channel => 0x86,
            Consumer::MediaSelection => 0x87,
            Consumer::MediaSelectComputer => 0x88,
            Consumer::MediaSelectTV => 0x89,
            Consumer::MediaSelectWWW => 0x8A,
            Consumer::MediaSelectDVD => 0x8B,
            Consumer::MediaSelectTelephone => 0x8C,
            Consumer::MediaSelectProgramGuide => 0x8D,
            Consumer::MediaSelectVideoPhone => 0x8E,
            Consumer::MediaSelectGames => 0x8F,
            Consumer::MediaSelectMessages => 0x90,
            Consumer::MediaSelectCD => 0x91,
            Consumer::MediaSelectVCR => 0x92,
            Consumer::MediaSelectTuner => 0x93,
            Consumer::Quit => 0x94,
            Consumer::Help => 0x95,
            Consumer::MediaSelectTape => 0x96,
            Consumer::MediaSelectCable => 0x97,
            Consumer::MediaSelectSatellite => 0x98,
            Consumer::MediaSelectSecurity => 0x99,
            Consumer::MediaSelectHome => 0x9A,
            Consumer::MediaSelectCall => 0x9B,
            Consumer::ChannelIncrement => 0x9C,
            Consumer::ChannelDecrement => 0x9D,
            Consumer::MediaSelectSAP => 0x9E,
            Consumer::VCRPlus => 0xA0,
            Consumer::Once => 0xA1,
            Consumer::Daily => 0xA2,
            Consumer::Weekly => 0xA3,
            Consumer::Monthly => 0xA4,
            Consumer::Play => 0xB0,
            Consumer::Pause => 0xB1,
            Consumer::Record => 0xB2,
            Consumer::FastForward => 0xB3,
            Consumer::Rewind => 0xB4,
            Consumer::ScanNextTrack => 0xB5,
            Consumer::ScanPreviousTrack => 0xB6,
            Consumer::Stop => 0xB7,
            Consumer::Eject => 0xB8,
            Consumer::RandomPlay => 0xB9,
            Consumer::SelectDisc => 0xBA,
            Consumer::EnterDisc => 0xBB,
            Consumer::Repeat => 0xBC,
            Consumer::Tracking => 0xBD,
            Consumer::TrackNormal => 0xBE,
            Consumer::SlowTracking => 0xBF,
            Consumer::FrameForward => 0xC0,
            Consumer::FrameBack => 0xC1,
            Consumer::Mark => 0xC2,
            Consumer::ClearMark => 0xC3,
            Consumer::RepeatFromMark => 0xC4,
            Consumer::ReturnToMark => 0xC5,
            Consumer::SearchMarkForward => 0xC6,
            Consumer::SearchMarkBackwards => 0xC7,
            Consumer::CounterReset => 0xC8,
            Consumer::ShowCounter => 0xC9,
            Consumer::TrackingIncrement => 0xCA,
            Consumer::TrackingDecrement => 0xCB,
            Consumer::StopEject => 0xCC,
            Consumer::PlayPause => 0xCD,
            Consumer::PlaySkip => 0xCE,
            Consumer::Volume => 0xE0,
            Consumer::Balance => 0xE1,
            Consumer::Mute => 0xE2,
            Consumer::Bass => 0xE3,
            Consumer::Treble => 0xE4,
            Consumer::BassBoost => 0xE5,
            Consumer::SurroundMode => 0xE6,
            Consumer::Loudness => 0xE7,
            Consumer::MPX => 0xE8,
            Consumer::VolumeIncrement => 0xE9,
            Consumer::VolumeDecrement => 0xEA,
            Consumer::SpeedSelect => 0xF0,
            Consumer::PlaybackSpeed => 0xF1,
            Consumer::StandardPlay => 0xF2,
            Consumer::LongPlay => 0xF3,
            Consumer::ExtendedPlay => 0xF4,
            Consumer::Slow => 0xF5,
            Consumer::FanEnable => 0x100,
            Consumer::FanSpeed => 0x101,
            Consumer::LightEnable => 0x102,
            Consumer::LightIlluminationLevel => 0x103,
            Consumer::ClimateControlEnable => 0x104,
            Consumer::RoomTemperature => 0x105,
            Consumer::SecurityEnable => 0x106,
            Consumer::FireAlarm => 0x107,
            Consumer::PoliceAlarm => 0x108,
            Consumer::Proximity => 0x109,
            Consumer::Motion => 0x10A,
            Consumer::DuressAlarm => 0x10B,
            Consumer::HoldupAlarm => 0x10C,
            Consumer::MedicalAlarm => 0x10D,
            Consumer::BalanceRight => 0x150,
            Consumer::BalanceLeft => 0x151,
            Consumer::BassIncrement => 0x152,
            Consumer::BassDecrement => 0x153,
            Consumer::TrebleIncrement => 0x154,
            Consumer::TrebleDecrement => 0x155,
            Consumer::SpeakerSystem => 0x160,
            Consumer::ChannelLeft => 0x161,
            Consumer::ChannelRight => 0x162,
            Consumer::ChannelCenter => 0x163,
            Consumer::ChannelFront => 0x164,
            Consumer::ChannelCenterFront => 0x165,
            Consumer::ChannelSide => 0x166,
            Consumer::ChannelSurround => 0x167,
            Consumer::ChannelLowFrequencyEnhancement => 0x168,
            Consumer::ChannelTop => 0x169,
            Consumer::ChannelUnknown => 0x16A,
            Consumer::SubChannel => 0x170,
            Consumer::SubChannelIncrement => 0x171,
            Consumer::SubChannelDecrement => 0x172,
            Consumer::AlternateAudioIncrement => 0x173,
            Consumer::AlternateAudioDecrement => 0x174,
            Consumer::ApplicationLaunchButtons => 0x180,
            Consumer::ALLaunchButtonConfigurationTool => 0x181,
            Consumer::ALProgrammableButtonConfiguration => 0x182,
            Consumer::ALConsumerControlConfiguration => 0x183,
            Consumer::ALWordProcessor => 0x184,
            Consumer::ALTextEditor => 0x185,
            Consumer::ALSpreadsheet => 0x186,
            Consumer::ALGraphicsEditor => 0x187,
            Consumer::ALPresentationApp => 0x188,
            Consumer::ALDatabaseApp => 0x189,
            Consumer::ALEmailReader => 0x18A,
            Consumer::ALNewsreader => 0x18B,
            Consumer::ALVoicemail => 0x18C,
            Consumer::ALContactsAddressBook => 0x18D,
            Consumer::ALCalendarSchedule => 0x18E,
            Consumer::ALTaskProjectManager => 0x18F,
            Consumer::ALLogJournalTimecard => 0x190,
            Consumer::ALCheckbookFinance => 0x191,
            Consumer::ALCalculator => 0x192,
            Consumer::ALAvCapturePlayback => 0x193,
            Consumer::ALLocalMachineBrowser => 0x194,
            Consumer::ALLanWanBrowser => 0x195,
            Consumer::ALInternetBrowser => 0x196,
            Consumer::ALRemoteNetworkingISPConnect => 0x197,
            Consumer::ALNetworkConference => 0x198,
            Consumer::ALNetworkChat => 0x199,
            Consumer::ALTelephonyDialer => 0x19A,
            Consumer::ALLogon => 0x19B,
            Consumer::ALLogoff => 0x19C,
            Consumer::ALLogonLogoff => 0x19D,
            Consumer::ALTerminalLockScreensaver => 0x19E,
            Consumer::ALControlPanel => 0x19F,
            Consumer::ALCommandLineProcessorRun => 0x1A0,
            Consumer::ALProcessTaskManager => 0x1A1,
            Consumer::ALSelectTaskApplication => 0x1A2,
            Consumer::ALNextTaskApplication => 0x1A3,
            Consumer::ALPreviousTaskApplication => 0x1A4,
            Consumer::ALPreemptiveHaltTaskApplication => 0x1A5,
            Consumer::ALIntegratedHelpCenter => 0x1A6,
            Consumer::ALDocuments => 0x1A7,
            Consumer::ALThesaurus => 0x1A8,
            Consumer::ALDictionary => 0x1A9,
            Consumer::ALDesktop => 0x1AA,
            Consumer::ALSpellCheck => 0x1AB,
            Consumer::ALGrammarCheck => 0x1AC,
            Consumer::ALWirelessStatus => 0x1AD,
            Consumer::ALKeyboardLayout => 0x1AE,
            Consumer::ALVirusProtection => 0x1AF,
            Consumer::ALEncryption => 0x1B0,
            Consumer::ALScreenSaver => 0x1B1,
            Consumer::ALAlarms => 0x1B2,
            Consumer::ALClock => 0x1B3,
            Consumer::ALFileBrowser => 0x1B4,
            Consumer::ALPowerStatus => 0x1B5,
            Consumer::ALImageBrowser => 0x1B6,
            Consumer::ALAudioBrowser => 0x1B7,
            Consumer::ALMovieBrowser => 0x1B8,
            Consumer::ALDigitalRightsManager => 0x1B9,
            Consumer::ALDigitalWallet => 0x1BA,
            Consumer::ALInstantMessaging => 0x1BC,
            Consumer::ALOemFeaturesTipsTutorialBrowser => 0x1BD,
            Consumer::ALOemHelp => 0x1BE,
            Consumer::ALOnlineCommunity => 0x1BF,
            Consumer::ALEntertainmentContentBrowser => 0x1C0,
            Consumer::ALOnlineShoppingBrowser => 0x1C1,
            Consumer::ALSmartCardInformationHelp => 0x1C2,
            Consumer::ALMarketMonitorFinanceBrowser => 0x1C3,
            Consumer::ALCustomizedCorporateNewsBrowser => 0x1C4,
            Consumer::ALOnlineActivityBrowser => 0x1C5,
            Consumer::ALResearchSearchBrowser => 0x1C6,
            Consumer::ALAudioPlayer => 0x1C7,
            Consumer::GenericGUIApplicationControls => 0x200,
            Consumer::ACNew => 0x201,
            Consumer::ACOpen => 0x202,
            Consumer::ACClose => 0x203,
            Consumer::ACExit => 0x204,
            Consumer::ACMaximize => 0x205,
            Consumer::ACMinimize => 0x206,
            Consumer::ACSave => 0x207,
            Consumer::ACPrint => 0x208,
            Consumer::ACProperties => 0x209,
            Consumer::ACUndo => 0x21A,
            Consumer::ACCopy => 0x21B,
            Consumer::ACCut => 0x21C,
            Consumer::ACPaste => 0x21D,
            Consumer::ACSelectAll => 0x21E,
            Consumer::ACFind => 0x21F,
            Consumer::ACFindAndReplace => 0x220,
            Consumer::ACSearch => 0x221,
            Consumer::ACGoTo => 0x222,
            Consumer::ACHome => 0x223,
            Consumer::ACBack => 0x224,
            Consumer::ACForward => 0x225,
            Consumer::ACStop => 0x226,
            Consumer::ACRefresh => 0x227,
            Consumer::ACPreviousLink => 0x228,
            Consumer::ACNextLink => 0x229,
            Consumer::ACBookmarks => 0x22A,
            Consumer::ACHistory => 0x22B,
            Consumer::ACSubscriptions => 0x22C,
            Consumer::ACZoomIn => 0x22D,
            Consumer::ACZoomOut => 0x22E,
            Consumer::ACZoom => 0x22F,
            Consumer::ACFullScreenView => 0x230,
            Consumer::ACNormalView => 0x231,
            Consumer::ACViewToggle => 0x232,
            Consumer::ACScrollUp => 0x233,
            Consumer::ACScrollDown => 0x234,
            Consumer::ACScroll => 0x235,
            Consumer::ACPanLeft => 0x236,
            Consumer::ACPanRight => 0x237,
            Consumer::ACPan => 0x238,
            Consumer::ACNewWindow => 0x239,
            Consumer::ACTileHorizontally => 0x23A,
            Consumer::ACTileVertically => 0x23B,
            Consumer::ACFormat => 0x23C,
            Consumer::ACEdit => 0x23D,
            Consumer::ACBold => 0x23E,
            Consumer::ACItalics => 0x23F,
            Consumer::ACUnderline => 0x240,
            Consumer::ACStrikethrough => 0x241,
            Consumer::ACSubscript => 0x242,
            Consumer::ACSuperscript => 0x243,
            Consumer::ACAllCaps => 0x244,
            Consumer::ACRotate => 0x245,
            Consumer::ACResize => 0x246,
            Consumer::ACFlipHorizontal => 0x247,
            Consumer::ACFlipVertical => 0x248,
            Consumer::ACMirrorHorizontal => 0x249,
            Consumer::ACMirrorVertical => 0x24A,
            Consumer::ACFontSelect => 0x24B,
            Consumer::ACFontColor => 0x24C,
            Consumer::ACFontSize => 0x24D,
            Consumer::ACJustifyLeft => 0x24E,
            Consumer::ACJustifyCenterH => 0x24F,
            Consumer::ACJustifyRight => 0x250,
            Consumer::ACJustifyBlockH => 0x251,
            Consumer::ACJustifyTop => 0x252,
            Consumer::ACJustifyCenterV => 0x253,
            Consumer::ACJustifyBottom => 0x254,
            Consumer::ACJustifyBlockV => 0x255,
            Consumer::ACIndentDecrease => 0x256,
            Consumer::ACIndentIncrease => 0x257,
            Consumer::ACNumberedList => 0x258,
            Consumer::ACRestartNumbering => 0x259,
            Consumer::ACBulletedList => 0x25A,
            Consumer::ACPromote => 0x25B,
            Consumer::ACDemote => 0x25C,
            Consumer::ACYes => 0x25D,
            Consumer::ACNo => 0x25E,
            Consumer::ACCancel => 0x25F,
            Consumer::ACCatalog => 0x260,
            Consumer::ACBuyCheckout => 0x261,
            Consumer::ACAddToCart => 0x262,
            Consumer::ACExpand => 0x263,
            Consumer::ACExpandAll => 0x264,
            Consumer::ACCollapse => 0x265,
            Consumer::ACCollapseAll => 0x266,
            Consumer::ACPrintPreview => 0x267,
            Consumer::ACPasteSpecial => 0x268,
            Consumer::ACInsertMode => 0x269,
            Consumer::ACDelete => 0x26A,
            Consumer::ACLock => 0x26B,
            Consumer::ACUnlock => 0x26C,
            Consumer::ACProtect => 0x26D,
            Consumer::ACUnprotect => 0x26E,
            Consumer::ACAttachComment => 0x26F,
            Consumer::ACDeleteComment => 0x270,
            Consumer::ACViewComment => 0x271,
            Consumer::ACSelectWord => 0x272,
            Consumer::ACSelectSentence => 0x273,
            Consumer::ACSelectParagraph => 0x274,
            Consumer::ACSelectColumn => 0x275,
            Consumer::ACSelectRow => 0x276,
            Consumer::ACSelectTable => 0x277,
            Consumer::ACSelectObject => 0x278,
            Consumer::ACRedoRepeat => 0x279,
            Consumer::ACSort => 0x27A,
            Consumer::ACSortAscending => 0x27B,
            Consumer::ACSortDescending => 0x27C,
            Consumer::ACFilter => 0x27D,
            Consumer::ACSetClock => 0x27E,
            Consumer::ACViewClock => 0x27F,
            Consumer::ACSelectTimeZone => 0x280,
            Consumer::ACEditTimeZones => 0x281,
            Consumer::ACSetAlarm => 0x282,
            Consumer::ACClearAlarm => 0x283,
            Consumer::ACSnoozeAlarm => 0x284,
            Consumer::ACResetAlarm => 0x285,
            Consumer::ACSynchronize => 0x286,
            Consumer::ACSendReceive => 0x287,
            Consumer::ACSendTo => 0x288,
            Consumer::ACReply => 0x289,
            Consumer::ACReplyAll => 0x28A,
            Consumer::ACForwardMsg => 0x28B,
            Consumer::ACSend => 0x28C,
            Consumer::ACAttachFile => 0x28D,
            Consumer::ACUpload => 0x28E,
            Consumer::ACDownloadSaveTargetAs => 0x28F,
            Consumer::ACSetBorders => 0x290,
            Consumer::ACInsertRow => 0x291,
            Consumer::ACInsertColumn => 0x292,
            Consumer::ACInsertFile => 0x293,
            Consumer::ACInsertPicture => 0x294,
            Consumer::ACInsertObject => 0x295,
            Consumer::ACInsertSymbol => 0x296,
            Consumer::ACSaveAndClose => 0x297,
            Consumer::ACRename => 0x298,
            Consumer::ACMerge => 0x299,
            Consumer::ACSplit => 0x29A,
            Consumer::ACDistributeHorizontally => 0x29B,
            Consumer::ACDistributeVertically => 0x29C,
        }
    }

    /// The usage a wire code stands for: the one bound to it, or the
    /// fallback where no usage is.
    pub open spec fn resolve(code: u16) -> Consumer {
        if exists|usage: Consumer| usage.code() == code {
            choose|usage: Consumer| usage.code() == code
        } else {
            Consumer::Unassigned
        }
    }

    /// True of every usage but the fallback.
    pub open spec fn is_named(self) -> bool {
        self != Consumer::Unassigned
    }

    /// The little-endian bytes of a usage's code.
    pub open spec fn le_bytes(self) -> Seq<u8> {
        le_bytes_u16(self.code())
    }

    /// The hash of a usage: the digest of the little-endian bytes of its
    /// code, and of nothing else.
    pub open spec fn digest(self) -> u32 {
        fnv_digest(self.le_bytes())
    }

    /// Classifies a wire code: gives the usage bound to it, or the fallback
    /// for a code that is reserved or unassigned. Every code is accepted.
    pub fn from_code(code: u16) -> (usage: Consumer)
        ensures
            usage == Consumer::resolve(code),
            usage.code() == code || usage == Consumer::Unassigned,
    {
        if code <= 0xFF {
            Consumer::from_low_code(code)
        } else if code <= 0x1FF {
            Consumer::from_middle_code(code)
        } else {
            Consumer::from_high_code(code)
        }
    }

    /// Classifies a code of the block 0x00..=0xFF:
    /// general, menu, display, selection, transport, audio and speed controls.
    fn from_low_code(code: u16) -> (usage: Consumer)
        requires
            code <= 0xFF,
        ensures
            usage == Consumer::resolve(code),
    {
        let usage = match code {
            0x01 => Consumer::ConsumerControl,
            0x02 => Consumer::NumericKeyPad,
            0x03 => Consumer::ProgrammableButtons,
            0x04 => Consumer::Microphone,
            0x05 => Consumer::Headphone,
            0x06 => Consumer::GraphicEqualizer,
            0x20 => Consumer::Plus10,
            0x21 => Consumer::Plus100,
            0x22 => Consumer::AmPm,
            0x30 => Consumer::Power,
            0x31 => Consumer::Reset,
            0x32 => Consumer::Sleep,
            0x33 => Consumer::SleepAfter,
            0x34 => Consumer::SleepMode,
            0x35 => Consumer::Illumination,
            0x36 => Consumer::FunctionButtons,
            0x40 => Consumer::Menu,
            0x41 => Consumer::MenuPick,
            0x42 => Consumer::MenuUp,
            0x43 => Consumer::MenuDown,
            0x44 => Consumer::MenuLeft,
            0x45 => Consumer::MenuRight,
            0x46 => Consumer::MenuEscape,
            0x47 => Consumer::MenuValueIncrease,
            0x48 => Consumer::MenuValueDecrease,
            0x60 => Consumer::DataOnScreen,
            0x61 => Consumer::ClosedCaption,
            0x62 => Consumer::ClosedCaptionSelect,
            0x63 => Consumer::VcrTv,
            0x64 => Consumer::BroadcastMode,
            0x65 => Consumer::Snapshot,
            0x66 => Consumer::Still,
            0x80 => Consumer::Selection,
            0x81 => Consumer::AssignSelection,
            0x82 => Consumer::ModeStep,
            0x83 => Consumer::RecallLast,
            0x84 => Consumer::EnterChannel,
            0x85 => Consumer::OrderMovie,
            0x86 => Consumer::Channel,
            0x87 => Consumer::MediaSelection,
            0x88 => Consumer::MediaSelectComputer,
            0x89 => Consumer::MediaSelectTV,
            0x8A => Consumer::MediaSelectWWW,
            0x8B => Consumer::MediaSelectDVD,
            0x8C => Consumer::MediaSelectTelephone,
            0x8D => Consumer::MediaSelectProgramGuide,
            0x8E => Consumer::MediaSelectVideoPhone,
            0x8F => Consumer::MediaSelectGames,
            0x90 => Consumer::MediaSelectMessages,
            0x91 => Consumer::MediaSelectCD,
            0x92 => Consumer::MediaSelectVCR,
            0x93 => Consumer::MediaSelectTuner,
            0x94 => Consumer::Quit,
            0x95 => Consumer::Help,
            0x96 => Consumer::MediaSelectTape,
            0x97 => Consumer::MediaSelectCable,
            0x98 => Consumer::MediaSelectSatellite,
            0x99 => Consumer::MediaSelectSecurity,
            0x9A => Consumer::MediaSelectHome,
            0x9B => Consumer::MediaSelectCall,
            0x9C => Consumer::ChannelIncrement,
            0x9D => Consumer::ChannelDecrement,
            0x9E => Consumer::MediaSelectSAP,
            0xA0 => Consumer::VCRPlus,
            0xA1 => Consumer::Once,
            0xA2 => Consumer::Daily,
            0xA3 => Consumer::Weekly,
            0xA4 => Consumer::Monthly,
            0xB0 => Consumer::Play,
            0xB1 => Consumer::Pause,
            0xB2 => Consumer::Record,
            0xB3 => Consumer::FastForward,
            0xB4 => Consumer::Rewind,
            0xB5 => Consumer::ScanNextTrack,
            0xB6 => Consumer::ScanPreviousTrack,
            0xB7 => Consumer::Stop,
            0xB8 => Consumer::Eject,
            0xB9 => Consumer::RandomPlay,
            0xBA => Consumer::SelectDisc,
            0xBB => Consumer::EnterDisc,
            0xBC => Consumer::Repeat,
            0xBD => Consumer::Tracking,
            0xBE => Consumer::TrackNormal,
            0xBF => Consumer::SlowTracking,
            0xC0 => Consumer::FrameForward,
            0xC1 => Consumer::FrameBack,
            0xC2 => Consumer::Mark,
            0xC3 => Consumer::ClearMark,
            0xC4 => Consumer::RepeatFromMark,
            0xC5 => Consumer::ReturnToMark,
            0xC6 => Consumer::SearchMarkForward,
            0xC7 => Consumer::SearchMarkBackwards,
            0xC8 => Consumer::CounterReset,
            0xC9 => Consumer::ShowCounter,
            0xCA => Consumer::TrackingIncrement,
            0xCB => Consumer::TrackingDecrement,
            0xCC => Consumer::StopEject,
            0xCD => Consumer::PlayPause,
            0xCE => Consumer::PlaySkip,
            0xE0 => Consumer::Volume,
            0xE1 => Consumer::Balance,
            0xE2 => Consumer::Mute,
            0xE3 => Consumer::Bass,
            0xE4 => Consumer::Treble,
            0xE5 => Consumer::BassBoost,
            0xE6 => Consumer::SurroundMode,
            0xE7 => Consumer::Loudness,
            0xE8 => Consumer::MPX,
            0xE9 => Consumer::VolumeIncrement,
            0xEA => Consumer::VolumeDecrement,
            0xF0 => Consumer::SpeedSelect,
            0xF1 => Consumer::PlaybackSpeed,
            0xF2 => Consumer::StandardPlay,
            0xF3 => Consumer::LongPlay,
            0xF4 => Consumer::ExtendedPlay,
            0xF5 => Consumer::Slow,
            _ => Consumer::Unassigned,
        };
        proof {
            if usage.code() == code {
                Consumer::lemma_round_trip(usage);
            } else {
                assert forall|other: Consumer| other.code() != code by {}
            }
        }
        usage
    }

    /// Classifies a code of the block 0x100..=0x1FF:
    /// home and security, speaker channels and application launch buttons.
    fn from_middle_code(code: u16) -> (usage: Consumer)
        requires
            0x100 <= code <= 0x1FF,
        ensures
            usage == Consumer::resolve(code),
    {
        let usage = match code {
            0x100 => Consumer::FanEnable,
            0x101 => Consumer::FanSpeed,
            0x102 => Consumer::LightEnable,
            0x103 => Consumer::LightIlluminationLevel,
            0x104 => Consumer::ClimateControlEnable,
            0x105 => Consumer::RoomTemperature,
            0x106 => Consumer::SecurityEnable,
            0x107 => Consumer::FireAlarm,
            0x108 => Consumer::PoliceAlarm,
            0x109 => Consumer::Proximity,
            0x10A => Consumer::Motion,
            0x10B => Consumer::DuressAlarm,
            0x10C => Consumer::HoldupAlarm,
            0x10D => Consumer::MedicalAlarm,
            0x150 => Consumer::BalanceRight,
            0x151 => Consumer::BalanceLeft,
            0x152 => Consumer::BassIncrement,
            0x153 => Consumer::BassDecrement,
            0x154 => Consumer::TrebleIncrement,
            0x155 => Consumer::TrebleDecrement,
            0x160 => Consumer::SpeakerSystem,
            0x161 => Consumer::ChannelLeft,
            0x162 => Consumer::ChannelRight,
            0x163 => Consumer::ChannelCenter,
            0x164 => Consumer::ChannelFront,
            0x165 => Consumer::ChannelCenterFront,
            0x166 => Consumer::ChannelSide,
            0x167 => Consumer::ChannelSurround,
            0x168 => Consumer::ChannelLowFrequencyEnhancement,
            0x169 => Consumer::ChannelTop,
            0x16A => Consumer::ChannelUnknown,
            0x170 => Consumer::SubChannel,
            0x171 => Consumer::SubChannelIncrement,
            0x172 => Consumer::SubChannelDecrement,
            0x173 => Consumer::AlternateAudioIncrement,
            0x174 => Consumer::AlternateAudioDecrement,
            0x180 => Consumer::ApplicationLaunchButtons,
            0x181 => Consumer::ALLaunchButtonConfigurationTool,
            0x182 => Consumer::ALProgrammableButtonConfiguration,
            0x183 => Consumer::ALConsumerControlConfiguration,
            0x184 => Consumer::ALWordProcessor,
            0x185 => Consumer::ALTextEditor,
            0x186 => Consumer::ALSpreadsheet,
            0x187 => Consumer::ALGraphicsEditor,
            0x188 => Consumer::ALPresentationApp,
            0x189 => Consumer::ALDatabaseApp,
            0x18A => Consumer::ALEmailReader,
            0x18B => Consumer::ALNewsreader,
            0x18C => Consumer::ALVoicemail,
            0x18D => Consumer::ALContactsAddressBook,
            0x18E => Consumer::ALCalendarSchedule,
            0x18F => Consumer::ALTaskProjectManager,
            0x190 => Consumer::ALLogJournalTimecard,
            0x191 => Consumer::ALCheckbookFinance,
            0x192 => Consumer::ALCalculator,
            0x193 => Consumer::ALAvCapturePlayback,
            0x194 => Consumer::ALLocalMachineBrowser,
            0x195 => Consumer::ALLanWanBrowser,
            0x196 => Consumer::ALInternetBrowser,
            0x197 => Consumer::ALRemoteNetworkingISPConnect,
            0x198 => Consumer::ALNetworkConference,
            0x199 => Consumer::ALNetworkChat,
            0x19A => Consumer::ALTelephonyDialer,
            0x19B => Consumer::ALLogon,
            0x19C => Consumer::ALLogoff,
            0x19D => Consumer::ALLogonLogoff,
            0x19E => Consumer::ALTerminalLockScreensaver,
            0x19F => Consumer::ALControlPanel,
            0x1A0 => Consumer::ALCommandLineProcessorRun,
            0x1A1 => Consumer::ALProcessTaskManager,
            0x1A2 => Consumer::ALSelectTaskApplication,
            0x1A3 => Consumer::ALNextTaskApplication,
            0x1A4 => Consumer::ALPreviousTaskApplication,
            0x1A5 => Consumer::ALPreemptiveHaltTaskApplication,
            0x1A6 => Consumer::ALIntegratedHelpCenter,
            0x1A7 => Consumer::ALDocuments,
            0x1A8 => Consumer::ALThesaurus,
            0x1A9 => Consumer::ALDictionary,
            0x1AA => Consumer::ALDesktop,
            0x1AB => Consumer::ALSpellCheck,
            0x1AC => Consumer::ALGrammarCheck,
            0x1AD => Consumer::ALWirelessStatus,
            0x1AE => Consumer::ALKeyboardLayout,
            0x1AF => Consumer::ALVirusProtection,
            0x1B0 => Consumer::ALEncryption,
            0x1B1 => Consumer::ALScreenSaver,
            0x1B2 => Consumer::ALAlarms,
            0x1B3 => Consumer::ALClock,
            0x1B4 => Consumer::ALFileBrowser,
            0x1B5 => Consumer::ALPowerStatus,
            0x1B6 => Consumer::ALImageBrowser,
            0x1B7 => Consumer::ALAudioBrowser,
            0x1B8 => Consumer::ALMovieBrowser,
            0x1B9 => Consumer::ALDigitalRightsManager,
            0x1BA => Consumer::ALDigitalWallet,
            0x1BC => Consumer::ALInstantMessaging,
            0x1BD => Consumer::ALOemFeaturesTipsTutorialBrowser,
            0x1BE => Consumer::ALOemHelp,
            0x1BF => Consumer::ALOnlineCommunity,
            0x1C0 => Consumer::ALEntertainmentContentBrowser,
            0x1C1 => Consumer::ALOnlineShoppingBrowser,
            0x1C2 => Consumer::ALSmartCardInformationHelp,
            0x1C3 => Consumer::ALMarketMonitorFinanceBrowser,
            0x1C4 => Consumer::ALCustomizedCorporateNewsBrowser,
            0x1C5 => Consumer::ALOnlineActivityBrowser,
            0x1C6 => Consumer::ALResearchSearchBrowser,
            0x1C7 => Consumer::ALAudioPlayer,
            _ => Consumer::Unassigned,
        };
        proof {
            if usage.code() == code {
                Consumer::lemma_round_trip(usage);
            } else {
                assert forall|other: Consumer| other.code() != code by {}
            }
        }
        usage
    }

    /// Classifies a code of the block from 0x200 up:
    /// generic GUI application controls.
    #[verifier::rlimit(30)]
    fn from_high_code(code: u16) -> (usage: Consumer)
        requires
            code >= 0x200,
        ensures
            usage == Consumer::resolve(code),
    {
        let usage = match code {
            0x200 => Consumer::GenericGUIApplicationControls,
            0x201 => Consumer::ACNew,
            0x202 => Consumer::ACOpen,
            0x203 => Consumer::ACClose,
            0x204 => Consumer::ACExit,
            0x205 => Consumer::ACMaximize,
            0x206 => Consumer::ACMinimize,
            0x207 => Consumer::ACSave,
            0x208 => Consumer::ACPrint,
            0x209 => Consumer::ACProperties,
            0x21A => Consumer::ACUndo,
            0x21B => Consumer::ACCopy,
            0x21C => Consumer::ACCut,
            0x21D => Consumer::ACPaste,
            0x21E => Consumer::ACSelectAll,
            0x21F => Consumer::ACFind,
            0x220 => Consumer::ACFindAndReplace,
            0x221 => Consumer::ACSearch,
            0x222 => Consumer::ACGoTo,
            0x223 => Consumer::ACHome,
            0x224 => Consumer::ACBack,
            0x225 => Consumer::ACForward,
            0x226 => Consumer::ACStop,
            0x227 => Consumer::ACRefresh,
            0x228 => Consumer::ACPreviousLink,
            0x229 => Consumer::ACNextLink,
            0x22A => Consumer::ACBookmarks,
            0x22B => Consumer::ACHistory,
            0x22C => Consumer::ACSubscriptions,
            0x22D => Consumer::ACZoomIn,
            0x22E => Consumer::ACZoomOut,
            0x22F => Consumer::ACZoom,
            0x230 => Consumer::ACFullScreenView,
            0x231 => Consumer::ACNormalView,
            0x232 => Consumer::ACViewToggle,
            0x233 => Consumer::ACScrollUp,
            0x234 => Consumer::ACScrollDown,
            0x235 => Consumer::ACScroll,
            0x236 => Consumer::ACPanLeft,
            0x237 => Consumer::ACPanRight,
            0x238 => Consumer::ACPan,
            0x239 => Consumer::ACNewWindow,
            0x23A => Consumer::ACTileHorizontally,
            0x23B => Consumer::ACTileVertically,
            0x23C => Consumer::ACFormat,
            0x23D => Consumer::ACEdit,
            0x23E => Consumer::ACBold,
            0x23F => Consumer::ACItalics,
            0x240 => Consumer::ACUnderline,
            0x241 => Consumer::ACStrikethrough,
            0x242 => Consumer::ACSubscript,
            0x243 => Consumer::ACSuperscript,
            0x244 => Consumer::ACAllCaps,
            0x245 => Consumer::ACRotate,
            0x246 => Consumer::ACResize,
            0x247 => Consumer::ACFlipHorizontal,
            0x248 => Consumer::ACFlipVertical,
            0x249 => Consumer::ACMirrorHorizontal,
            0x24A => Consumer::ACMirrorVertical,
            0x24B => Consumer::ACFontSelect,
            0x24C => Consumer::ACFontColor,
            0x24D => Consumer::ACFontSize,
            0x24E => Consumer::ACJustifyLeft,
            0x24F => Consumer::ACJustifyCenterH,
            0x250 => Consumer::ACJustifyRight,
            0x251 => Consumer::ACJustifyBlockH,
            0x252 => Consumer::ACJustifyTop,
            0x253 => Consumer::ACJustifyCenterV,
            0x254 => Consumer::ACJustifyBottom,
            0x255 => Consumer::ACJustifyBlockV,
            0x256 => Consumer::ACIndentDecrease,
            0x257 => Consumer::ACIndentIncrease,
            0x258 => Consumer::ACNumberedList,
            0x259 => Consumer::ACRestartNumbering,
            0x25A => Consumer::ACBulletedList,
            0x25B => Consumer::ACPromote,
            0x25C => Consumer::ACDemote,
            0x25D => Consumer::ACYes,
            0x25E => Consumer::ACNo,
            0x25F => Consumer::ACCancel,
            0x260 => Consumer::ACCatalog,
            0x261 => Consumer::ACBuyCheckout,
            0x262 => Consumer::ACAddToCart,
            0x263 => Consumer::ACExpand,
            0x264 => Consumer::ACExpandAll,
            0x265 => Consumer::ACCollapse,
            0x266 => Consumer::ACCollapseAll,
            0x267 => Consumer::ACPrintPreview,
            0x268 => Consumer::ACPasteSpecial,
            0x269 => Consumer::ACInsertMode,
            0x26A => Consumer::ACDelete,
            0x26B => Consumer::ACLock,
            0x26C => Consumer::ACUnlock,
            0x26D => Consumer::ACProtect,
            0x26E => Consumer::ACUnprotect,
            0x26F => Consumer::ACAttachComment,
            0x270 => Consumer::ACDeleteComment,
            0x271 => Consumer::ACViewComment,
            0x272 => Consumer::ACSelectWord,
            0x273 => Consumer::ACSelectSentence,
            0x274 => Consumer::ACSelectParagraph,
            0x275 => Consumer::ACSelectColumn,
            0x276 => Consumer::ACSelectRow,
            0x277 => Consumer::ACSelectTable,
            0x278 => Consumer::ACSelectObject,
            0x279 => Consumer::ACRedoRepeat,
            0x27A => Consumer::ACSort,
            0x27B => Consumer::ACSortAscending,
            0x27C => Consumer::ACSortDescending,
            0x27D => Consumer::ACFilter,
            0x27E => Consumer::ACSetClock,
            0x27F => Consumer::ACViewClock,
            0x280 => Consumer::ACSelectTimeZone,
            0x281 => Consumer::ACEditTimeZones,
            0x282 => Consumer::ACSetAlarm,
            0x283 => Consumer::ACClearAlarm,
            0x284 => Consumer::ACSnoozeAlarm,
            0x285 => Consumer::ACResetAlarm,
            0x286 => Consumer::ACSynchronize,
            0x287 => Consumer::ACSendReceive,
            0x288 => Consumer::ACSendTo,
            0x289 => Consumer::ACReply,
            0x28A => Consumer::ACReplyAll,
            0x28B => Consumer::ACForwardMsg,
            0x28C => Consumer::ACSend,
            0x28D => Consumer::ACAttachFile,
            0x28E => Consumer::ACUpload,
            0x28F => Consumer::ACDownloadSaveTargetAs,
            0x290 => Consumer::ACSetBorders,
            0x291 => Consumer::ACInsertRow,
            0x292 => Consumer::ACInsertColumn,
            0x293 => Consumer::ACInsertFile,
            0x294 => Consumer::ACInsertPicture,
            0x295 => Consumer::ACInsertObject,
            0x296 => Consumer::ACInsertSymbol,
            0x297 => Consumer::ACSaveAndClose,
            0x298 => Consumer::ACRename,
            0x299 => Consumer::ACMerge,
            0x29A => Consumer::ACSplit,
            0x29B => Consumer::ACDistributeHorizontally,
            0x29C => Consumer::ACDistributeVertically,
            _ => Consumer::Unassigned,
        };
        proof {
            if usage.code() == code {
                Consumer::lemma_round_trip(usage);
            } else {
                assert forall|other: Consumer| other.code() != code by {}
            }
        }
        usage
    }

    /// The wire code of a usage.
    pub fn to_code(self) -> (code: u16)
        ensures
            code == self.code(),
    {
        match self {
            Consumer::Unassigned => 0x00,
            Consumer::ConsumerControl => 0x01,
            Consumer::NumericKeyPad => 0x02,
            Consumer::ProgrammableButtons => 0x03,
            Consumer::Microphone => 0x04,
            Consumer::Headphone => 0x05,
            Consumer::GraphicEqualizer => 0x06,
            Consumer::Plus10 => 0x20,
            Consumer::Plus100 => 0x21,
            Consumer::AmPm => 0x22,
            Consumer::Power => 0x30,
            Consumer::Reset => 0x31,
            Consumer::Sleep => 0x32,
            Consumer::SleepAfter => 0x33,
            Consumer::SleepMode => 0x34,
            Consumer::Illumination => 0x35,
            Consumer::FunctionButtons => 0x36,
            Consumer::Menu => 0x40,
            Consumer::MenuPick => 0x41,
            Consumer::MenuUp => 0x42,
            Consumer::MenuDown => 0x43,
            Consumer::MenuLeft => 0x44,
            Consumer::MenuRight => 0x45,
            Consumer::MenuEscape => 0x46,
            Consumer::MenuValueIncrease => 0x47,
            Consumer::MenuValueDecrease => 0x48,
            Consumer::DataOnScreen => 0x60,
            Consumer::ClosedCaption => 0x61,
            Consumer::ClosedCaptionSelect => 0x62,
            Consumer::VcrTv => 0x63,
            Consumer::BroadcastMode => 0x64,
            Consumer::Snapshot => 0x65,
            Consumer::Still => 0x66,
            Consumer::Selection => 0x80,
            Consumer::AssignSelection => 0x81,
            Consumer::ModeStep => 0x82,
            Consumer::RecallLast => 0x83,
            Consumer::EnterChannel => 0x84,
            Consumer::OrderMovie => 0x85,
            Consumer::Channel => 0x86,
            Consumer::MediaSelection => 0x87,
            Consumer::MediaSelectComputer => 0x88,
            Consumer::MediaSelectTV => 0x89,
            Consumer::MediaSelectWWW => 0x8A,
            Consumer::MediaSelectDVD => 0x8B,
            Consumer::MediaSelectTelephone => 0x8C,
            Consumer::MediaSelectProgramGuide => 0x8D,
            Consumer::MediaSelectVideoPhone => 0x8E,
            Consumer::MediaSelectGames => 0x8F,
            Consumer::MediaSelectMessages => 0x90,
            Consumer::MediaSelectCD => 0x91,
            Consumer::MediaSelectVCR => 0x92,
            Consumer::MediaSelectTuner => 0x93,
            Consumer::Quit => 0x94,
            Consumer::Help => 0x95,
            Consumer::MediaSelectTape => 0x96,
            Consumer::MediaSelectCable => 0x97,
            Consumer::MediaSelectSatellite => 0x98,
            Consumer::MediaSelectSecurity => 0x99,
            Consumer::MediaSelectHome => 0x9A,
            Consumer::MediaSelectCall => 0x9B,
            Consumer::ChannelIncrement => 0x9C,
            Consumer::ChannelDecrement => 0x9D,
            Consumer::MediaSelectSAP => 0x9E,
            Consumer::VCRPlus => 0xA0,
            Consumer::Once => 0xA1,
            Consumer::Daily => 0xA2,
            Consumer::Weekly => 0xA3,
            Consumer::Monthly => 0xA4,
            Consumer::Play => 0xB0,
            Consumer::Pause => 0xB1,
            Consumer::Record => 0xB2,
            Consumer::FastForward => 0xB3,
            Consumer::Rewind => 0xB4,
            Consumer::ScanNextTrack => 0xB5,
            Consumer::ScanPreviousTrack => 0xB6,
            Consumer::Stop => 0xB7,
            Consumer::Eject => 0xB8,
            Consumer::RandomPlay => 0xB9,
            Consumer::SelectDisc => 0xBA,
            Consumer::EnterDisc => 0xBB,
            Consumer::Repeat => 0xBC,
            Consumer::Tracking => 0xBD,
            Consumer::TrackNormal => 0xBE,
            Consumer::SlowTracking => 0xBF,
            Consumer::FrameForward => 0xC0,
            Consumer::FrameBack => 0xC1,
            Consumer::Mark => 0xC2,
            Consumer::ClearMark => 0xC3,
            Consumer::RepeatFromMark => 0xC4,
            Consumer::ReturnToMark => 0xC5,
            Consumer::SearchMarkForward => 0xC6,
            Consumer::SearchMarkBackwards => 0xC7,
            Consumer::CounterReset => 0xC8,
            Consumer::ShowCounter => 0xC9,
            Consumer::TrackingIncrement => 0xCA,
            Consumer::TrackingDecrement => 0xCB,
            Consumer::StopEject => 0xCC,
            Consumer::PlayPause => 0xCD,
            Consumer::PlaySkip => 0xCE,
            Consumer::Volume => 0xE0,
            Consumer::Balance => 0xE1,
            Consumer::Mute => 0xE2,
            Consumer::Bass => 0xE3,
            Consumer::Treble => 0xE4,
            Consumer::BassBoost => 0xE5,
            Consumer::SurroundMode => 0xE6,
            Consumer::Loudness => 0xE7,
            Consumer::MPX => 0xE8,
            Consumer::VolumeIncrement => 0xE9,
            Consumer::VolumeDecrement => 0xEA,
            Consumer::SpeedSelect => 0xF0,
            Consumer::PlaybackSpeed => 0xF1,
            Consumer::StandardPlay => 0xF2,
            Consumer::LongPlay => 0xF3,
            Consumer::ExtendedPlay => 0xF4,
            Consumer::Slow => 0xF5,
            Consumer::FanEnable => 0x100,
            Consumer::FanSpeed => 0x101,
            Consumer::LightEnable => 0x102,
            Consumer::LightIlluminationLevel => 0x103,
            Consumer::ClimateControlEnable => 0x104,
            Consumer::RoomTemperature => 0x105,
            Consumer::SecurityEnable => 0x106,
            Consumer::FireAlarm => 0x107,
            Consumer::PoliceAlarm => 0x108,
            Consumer::Proximity => 0x109,
            Consumer::Motion => 0x10A,
            Consumer::DuressAlarm => 0x10B,
            Consumer::HoldupAlarm => 0x10C,
            Consumer::MedicalAlarm => 0x10D,
            Consumer::BalanceRight => 0x150,
            Consumer::BalanceLeft => 0x151,
            Consumer::BassIncrement => 0x152,
            Consumer::BassDecrement => 0x153,
            Consumer::TrebleIncrement => 0x154,
            Consumer::TrebleDecrement => 0x155,
            Consumer::SpeakerSystem => 0x160,
            Consumer::ChannelLeft => 0x161,
            Consumer::ChannelRight => 0x162,
            Consumer::ChannelCenter => 0x163,
            Consumer::ChannelFront => 0x164,
            Consumer::ChannelCenterFront => 0x165,
            Consumer::ChannelSide => 0x166,
            Consumer::ChannelSurround => 0x167,
            Consumer::ChannelLowFrequencyEnhancement => 0x168,
            Consumer::ChannelTop => 0x169,
            Consumer::ChannelUnknown => 0x16A,
            Consumer::SubChannel => 0x170,
            Consumer::SubChannelIncrement => 0x171,
            Consumer::SubChannelDecrement => 0x172,
            Consumer::AlternateAudioIncrement => 0x173,
            Consumer::AlternateAudioDecrement => 0x174,
            Consumer::ApplicationLaunchButtons => 0x180,
            Consumer::ALLaunchButtonConfigurationTool => 0x181,
            Consumer::ALProgrammableButtonConfiguration => 0x182,
            Consumer::ALConsumerControlConfiguration => 0x183,
            Consumer::ALWordProcessor => 0x184,
            Consumer::ALTextEditor => 0x185,
            Consumer::ALSpreadsheet => 0x186,
            Consumer::ALGraphicsEditor => 0x187,
            Consumer::ALPresentationApp => 0x188,
            Consumer::ALDatabaseApp => 0x189,
            Consumer::ALEmailReader => 0x18A,
            Consumer::ALNewsreader => 0x18B,
            Consumer::ALVoicemail => 0x18C,
            Consumer::ALContactsAddressBook => 0x18D,
            Consumer::ALCalendarSchedule => 0x18E,
            Consumer::ALTaskProjectManager => 0x18F,
            Consumer::ALLogJournalTimecard => 0x190,
            Consumer::ALCheckbookFinance => 0x191,
            Consumer::ALCalculator => 0x192,
            Consumer::ALAvCapturePlayback => 0x193,
            Consumer::ALLocalMachineBrowser => 0x194,
            Consumer::ALLanWanBrowser => 0x195,
            Consumer::ALInternetBrowser => 0x196,
            Consumer::ALRemoteNetworkingISPConnect => 0x197,
            Consumer::ALNetworkConference => 0x198,
            Consumer::ALNetworkChat => 0x199,
            Consumer::ALTelephonyDialer => 0x19A,
            Consumer::ALLogon => 0x19B,
            Consumer::ALLogoff => 0x19C,
            Consumer::ALLogonLogoff => 0x19D,
            Consumer::ALTerminalLockScreensaver => 0x19E,
            Consumer::ALControlPanel => 0x19F,
            Consumer::ALCommandLineProcessorRun => 0x1A0,
            Consumer::ALProcessTaskManager => 0x1A1,
            Consumer::ALSelectTaskApplication => 0x1A2,
            Consumer::ALNextTaskApplication => 0x1A3,
            Consumer::ALPreviousTaskApplication => 0x1A4,
            Consumer::ALPreemptiveHaltTaskApplication => 0x1A5,
            Consumer::ALIntegratedHelpCenter => 0x1A6,
            Consumer::ALDocuments => 0x1A7,
            Consumer::ALThesaurus => 0x1A8,
            Consumer::ALDictionary => 0x1A9,
            Consumer::ALDesktop => 0x1AA,
            Consumer::ALSpellCheck => 0x1AB,
            Consumer::ALGrammarCheck => 0x1AC,
            Consumer::ALWirelessStatus => 0x1AD,
            Consumer::ALKeyboardLayout => 0x1AE,
            Consumer::ALVirusProtection => 0x1AF,
            Consumer::ALEncryption => 0x1B0,
            Consumer::ALScreenSaver => 0x1B1,
            Consumer::ALAlarms => 0x1B2,
            Consumer::ALClock => 0x1B3,
            Consumer::ALFileBrowser => 0x1B4,
            Consumer::ALPowerStatus => 0x1B5,
            Consumer::ALImageBrowser => 0x1B6,
            Consumer::ALAudioBrowser => 0x1B7,
            Consumer::ALMovieBrowser => 0x1B8,
            Consumer::ALDigitalRightsManager => 0x1B9,
            Consumer::ALDigitalWallet => 0x1BA,
            Consumer::ALInstantMessaging => 0x1BC,
            Consumer::ALOemFeaturesTipsTutorialBrowser => 0x1BD,
            Consumer::ALOemHelp => 0x1BE,
            Consumer::ALOnlineCommunity => 0x1BF,
            Consumer::ALEntertainmentContentBrowser => 0x1C0,
            Consumer::ALOnlineShoppingBrowser => 0x1C1,
            Consumer::ALSmartCardInformationHelp => 0x1C2,
            Consumer::ALMarketMonitorFinanceBrowser => 0x1C3,
            Consumer::ALCustomizedCorporateNewsBrowser => 0x1C4,
            Consumer::ALOnlineActivityBrowser => 0x1C5,
            Consumer::ALResearchSearchBrowser => 0x1C6,
            Consumer::ALAudioPlayer => 0x1C7,
            Consumer::GenericGUIApplicationControls => 0x200,
            Consumer::ACNew => 0x201,
            Consumer::ACOpen => 0x202,
            Consumer::ACClose => 0x203,
            Consumer::ACExit => 0x204,
            Consumer::ACMaximize => 0x205,
            Consumer::ACMinimize => 0x206,
            Consumer::ACSave => 0x207,
            Consumer::ACPrint => 0x208,
            Consumer::ACProperties => 0x209,
            Consumer::ACUndo => 0x21A,
            Consumer::ACCopy => 0x21B,
            Consumer::ACCut => 0x21C,
            Consumer::ACPaste => 0x21D,
            Consumer::ACSelectAll => 0x21E,
            Consumer::ACFind => 0x21F,
            Consumer::ACFindAndReplace => 0x220,
            Consumer::ACSearch => 0x221,
            Consumer::ACGoTo => 0x222,
            Consumer::ACHome => 0x223,
            Consumer::ACBack => 0x224,
            Consumer::ACForward => 0x225,
            Consumer::ACStop => 0x226,
            Consumer::ACRefresh => 0x227,
            Consumer::ACPreviousLink => 0x228,
            Consumer::ACNextLink => 0x229,
            Consumer::ACBookmarks => 0x22A,
            Consumer::ACHistory => 0x22B,
            Consumer::ACSubscriptions => 0x22C,
            Consumer::ACZoomIn => 0x22D,
            Consumer::ACZoomOut => 0x22E,
            Consumer::ACZoom => 0x22F,
            Consumer::ACFullScreenView => 0x230,
            Consumer::ACNormalView => 0x231,
            Consumer::ACViewToggle => 0x232,
            Consumer::ACScrollUp => 0x233,
            Consumer::ACScrollDown => 0x234,
            Consumer::ACScroll => 0x235,
            Consumer::ACPanLeft => 0x236,
            Consumer::ACPanRight => 0x237,
            Consumer::ACPan => 0x238,
            Consumer::ACNewWindow => 0x239,
            Consumer::ACTileHorizontally => 0x23A,
            Consumer::ACTileVertically => 0x23B,
            Consumer::ACFormat => 0x23C,
            Consumer::ACEdit => 0x23D,
            Consumer::ACBold => 0x23E,
            Consumer::ACItalics => 0x23F,
            Consumer::ACUnderline => 0x240,
            Consumer::ACStrikethrough => 0x241,
            Consumer::ACSubscript => 0x242,
            Consumer::ACSuperscript => 0x243,
            Consumer::ACAllCaps => 0x244,
            Consumer::ACRotate => 0x245,
            Consumer::ACResize => 0x246,
            Consumer::ACFlipHorizontal => 0x247,
            Consumer::ACFlipVertical => 0x248,
            Consumer::ACMirrorHorizontal => 0x249,
            Consumer::ACMirrorVertical => 0x24A,
            Consumer::ACFontSelect => 0x24B,
            Consumer::ACFontColor => 0x24C,
            Consumer::ACFontSize => 0x24D,
            Consumer::ACJustifyLeft => 0x24E,
            Consumer::ACJustifyCenterH => 0x24F,
            Consumer::ACJustifyRight => 0x250,
            Consumer::ACJustifyBlockH => 0x251,
            Consumer::ACJustifyTop => 0x252,
            Consumer::ACJustifyCenterV => 0x253,
            Consumer::ACJustifyBottom => 0x254,
            Consumer::ACJustifyBlockV => 0x255,
            Consumer::ACIndentDecrease => 0x256,
            Consumer::ACIndentIncrease => 0x257,
            Consumer::ACNumberedList => 0x258,
            Consumer::ACRestartNumbering => 0x259,
            Consumer::ACBulletedList => 0x25A,
            Consumer::ACPromote => 0x25B,
            Consumer::ACDemote => 0x25C,
            Consumer::ACYes => 0x25D,
            Consumer::ACNo => 0x25E,
            Consumer::ACCancel => 0x25F,
            Consumer::ACCatalog => 0x260,
            Consumer::ACBuyCheckout => 0x261,
            Consumer::ACAddToCart => 0x262,
            Consumer::ACExpand => 0x263,
            Consumer::ACExpandAll => 0x264,
            Consumer::ACCollapse => 0x265,
            Consumer::ACCollapseAll => 0x266,
            Consumer::ACPrintPreview => 0x267,
            Consumer::ACPasteSpecial => 0x268,
            Consumer::ACInsertMode => 0x269,
            Consumer::ACDelete => 0x26A,
            Consumer::ACLock => 0x26B,
            Consumer::ACUnlock => 0x26C,
            Consumer::ACProtect => 0x26D,
            Consumer::ACUnprotect => 0x26E,
            Consumer::ACAttachComment => 0x26F,
            Consumer::ACDeleteComment => 0x270,
            Consumer::ACViewComment => 0x271,
            Consumer::ACSelectWord => 0x272,
            Consumer::ACSelectSentence => 0x273,
            Consumer::ACSelectParagraph => 0x274,
            Consumer::ACSelectColumn => 0x275,
            Consumer::ACSelectRow => 0x276,
            Consumer::ACSelectTable => 0x277,
            Consumer::ACSelectObject => 0x278,
            Consumer::ACRedoRepeat => 0x279,
            Consumer::ACSort => 0x27A,
            Consumer::ACSortAscending => 0x27B,
            Consumer::ACSortDescending => 0x27C,
            Consumer::ACFilter => 0x27D,
            Consumer::ACSetClock => 0x27E,
            Consumer::ACViewClock => 0x27F,
            Consumer::ACSelectTimeZone => 0x280,
            Consumer::ACEditTimeZones => 0x281,
            Consumer::ACSetAlarm => 0x282,
            Consumer::ACClearAlarm => 0x283,
            Consumer::ACSnoozeAlarm => 0x284,
            Consumer::ACResetAlarm => 0x285,
            Consumer::ACSynchronize => 0x286,
            Consumer::ACSendReceive => 0x287,
            Consumer::ACSendTo => 0x288,
            Consumer::ACReply => 0x289,
            Consumer::ACReplyAll => 0x28A,
            Consumer::ACForwardMsg => 0x28B,
            Consumer::ACSend => 0x28C,
            Consumer::ACAttachFile => 0x28D,
            Consumer::ACUpload => 0x28E,
            Consumer::ACDownloadSaveTargetAs => 0x28F,
            Consumer::ACSetBorders => 0x290,
            Consumer::ACInsertRow => 0x291,
            Consumer::ACInsertColumn => 0x292,
            Consumer::ACInsertFile => 0x293,
            Consumer::ACInsertPicture => 0x294,
            Consumer::ACInsertObject => 0x295,
            Consumer::ACInsertSymbol => 0x296,
            Consumer::ACSaveAndClose => 0x297,
            Consumer::ACRename => 0x298,
            Consumer::ACMerge => 0x299,
            Consumer::ACSplit => 0x29A,
            Consumer::ACDistributeHorizontally => 0x29B,
            Consumer::ACDistributeVertically => 0x29C,
        }
    }

    /// The little-endian bytes of the usage's code, as fed to a hasher.
    pub fn to_le_bytes(self) -> (bytes: [u8; 2])
        ensures
            bytes@ == self.le_bytes(),
    {
        encode_u16(self.to_code())
    }

    /// Hashes the usage: the 32-bit Fowler-Noll-Vo digest of the
    /// little-endian bytes of its code.
    pub fn hash(&self) -> (digest: u32)
        ensures
            digest == self.digest(),
    {
        let bytes = self.to_le_bytes();
        fnv_hash(bytes.as_slice())
    }

    /// Distinct usages have distinct wire codes, the fallback included.
    pub proof fn lemma_codes_distinct(a: Consumer, b: Consumer)
        ensures
            a != b ==> a.code() != b.code(),
    {
    }

    /// A usage's own code resolves back to that usage. This holds of the
    /// fallback too, whose code is 0.
    pub proof fn lemma_round_trip(usage: Consumer)
        ensures
            Consumer::resolve(usage.code()) == usage,
    {
        let found = choose|other: Consumer| other.code() == usage.code();
        Consumer::lemma_codes_distinct(found, usage);
    }

    /// A code that no named usage is bound to resolves to the fallback.
    pub proof fn lemma_unbound_is_fallback(code: u16)
        requires
            forall|usage: Consumer| usage.is_named() ==> usage.code() != code,
        ensures
            Consumer::resolve(code) == Consumer::Unassigned,
    {
        if exists|usage: Consumer| usage.code() == code {
            let found = choose|usage: Consumer| usage.code() == code;
            assert(!found.is_named());
        }
    }

    /// Every code resolves to the usage bound to it or to the fallback.
    pub proof fn lemma_resolve_total(code: u16)
        ensures
            Consumer::resolve(code).code() == code || Consumer::resolve(code) == Consumer::Unassigned,
    {
    }

    /// Usages are ordered as their codes are.
    pub proof fn lemma_order_follows_code(a: Consumer, b: Consumer)
        ensures
            PartialOrdSpec::partial_cmp_spec(&a, &b) == Some(Ordering::Less) <==> a.code() < b.code(),
            PartialOrdSpec::partial_cmp_spec(&a, &b) == Some(Ordering::Equal) <==> a.code() == b.code(),
            PartialOrdSpec::partial_cmp_spec(&a, &b) == Some(Ordering::Greater) <==> a.code() > b.code(),
            PartialOrdSpec::partial_cmp_spec(&a, &b) == Some(Ordering::Equal) <==> a == b,
    {
        Consumer::lemma_codes_distinct(a, b);
    }

    /// Two usages are equal exactly when their hashes and their codes
    /// are: equal codes always hash alike.
    pub proof fn lemma_hash_follows_equality(a: Consumer, b: Consumer)
        ensures
            a == b <==> (a.digest() == b.digest() && a.code() == b.code()),
            a.code() == b.code() ==> a.digest() == b.digest(),
    {
        Consumer::lemma_codes_distinct(a, b);
    }
}

impl Default for Consumer {
    /// The fallback usage, for use where no code is known yet.
    fn default() -> (usage: Consumer)
        ensures
            usage == Consumer::Unassigned,
    {
        Consumer::Unassigned
    }
}

impl PartialOrd for Consumer {
    /// Compares two usages by their wire codes.
    fn partial_cmp(&self, other: &Consumer) -> (order: Option<Ordering>) {
        let left = self.to_code();
        let right = other.to_code();
        if left < right {
            Some(Ordering::Less)
        } else if left == right {
            Some(Ordering::Equal)
        } else {
            Some(Ordering::Greater)
        }
    }
}

impl PartialOrdSpecImpl for Consumer {
    open spec fn obeys_partial_cmp_spec() -> bool {
        true
    }

    open spec fn partial_cmp_spec(&self, other: &Consumer) -> Option<Ordering> {
        if self.code() < other.code() {
            Some(Ordering::Less)
        } else if self.code() == other.code() {
            Some(Ordering::Equal)
        } else {
            Some(Ordering::Greater)
        }
    }
}

impl From<u16> for Consumer {
    /// Classifies a wire code, as [`Consumer::from_code`] does.
    fn from(code: u16) -> (usage: Consumer) {
        Consumer::from_code(code)
    }
}

impl FromSpecImpl<u16> for Consumer {
    open spec fn obeys_from_spec() -> bool {
        true
    }

    open spec fn from_spec(code: u16) -> Consumer {
        Consumer::resolve(code)
    }
}

impl From<Consumer> for u16 {
    /// The wire code of a usage, as [`Consumer::to_code`] gives it.
    fn from(usage: Consumer) -> (code: u16) {
        usage.to_code()
    }
}

impl FromSpecImpl<Consumer> for u16 {
    open spec fn obeys_from_spec() -> bool {
        true
    }

    open spec fn from_spec(usage: Consumer) -> u16 {
        usage.code()
    }
}

} // verus!
