use usbd_hid_devices::page::Consumer;
use usbd_hid_devices::report::{line_bit, report_code, LINE_COUNT};

#[test]
fn consumer_code_zero_is_unassigned() {
    assert_eq!(Consumer::from_code(0x00), Consumer::Unassigned);
}

#[test]
fn consumer_play() {
    assert_eq!(Consumer::from_code(0xB0), Consumer::Play);
    assert_eq!(Consumer::Play.to_code(), 0xB0);
}

#[test]
fn consumer_mute() {
    assert_eq!(Consumer::from_code(0xE2), Consumer::Mute);
    assert_eq!(Consumer::Mute.to_code(), 0xE2);
}

#[test]
fn consumer_gap_before_vcr_plus_is_unassigned() {
    assert_eq!(Consumer::from_code(0x9F), Consumer::Unassigned);
    assert_eq!(Consumer::from_code(0x9E), Consumer::MediaSelectSAP);
    assert_eq!(Consumer::from_code(0xA0), Consumer::VCRPlus);
}

#[test]
fn consumer_top_of_reserved_range_is_unassigned() {
    assert_eq!(Consumer::from_code(0x29D), Consumer::Unassigned);
    assert_eq!(Consumer::from_code(0xFFFF), Consumer::Unassigned);
    assert_eq!(Consumer::from_code(0x29C), Consumer::ACDistributeVertically);
}

#[test]
fn consumer_play_sorts_before_volume() {
    assert!(Consumer::Play < Consumer::Volume);
    assert!(Consumer::Play.to_code() < Consumer::Volume.to_code());
}

#[test]
fn consumer_application_control_gap() {
    assert_eq!(Consumer::from_code(0x209), Consumer::ACProperties);
    assert_eq!(Consumer::from_code(0x20A), Consumer::Unassigned);
    assert_eq!(Consumer::from_code(0x219), Consumer::Unassigned);
    assert_eq!(Consumer::from_code(0x21A), Consumer::ACUndo);
    assert_eq!(Consumer::from_code(0x1BB), Consumer::Unassigned);
}

#[test]
fn consumer_block_borders() {
    assert_eq!(Consumer::from_code(0xF5), Consumer::Slow);
    assert_eq!(Consumer::from_code(0xFF), Consumer::Unassigned);
    assert_eq!(Consumer::from_code(0x100), Consumer::FanEnable);
    assert_eq!(Consumer::from_code(0x1C7), Consumer::ALAudioPlayer);
    assert_eq!(Consumer::from_code(0x1FF), Consumer::Unassigned);
    assert_eq!(Consumer::from_code(0x200), Consumer::GenericGUIApplicationControls);
}

#[test]
fn consumer_hash_differs_from_its_bytes() {
    let bytes = Consumer::Play.to_le_bytes();
    assert_eq!(bytes, [0xB0, 0x00]);
    assert_ne!(Consumer::Play.hash(), u32::from(u16::from_le_bytes(bytes)));
    assert_ne!(Consumer::Play.hash(), Consumer::Pause.hash());
}

#[test]
fn report_stop_and_mute() {
    let lines = [false, false, true, false, true, false, false];
    assert_eq!(report_code(&lines), 0x14);
}

#[test]
fn report_of_idle_lines_is_zero() {
    assert_eq!(report_code(&[false; 7]), 0x00);
}

#[test]
fn report_of_all_lines() {
    assert_eq!(report_code(&[true; 7]), 0x7F);
}

#[test]
fn report_of_single_lines() {
    let expected = [0x01u8, 0x02, 0x04, 0x08, 0x10, 0x20, 0x40];
    assert_eq!(LINE_COUNT, 7);
    for line in 0..LINE_COUNT {
        let mut lines = [false; 7];
        lines[line] = true;
        assert_eq!(line_bit(line), expected[line]);
        assert_eq!(report_code(&lines), expected[line]);
    }
}

#[test]
fn report_has_no_bit_for_a_missing_line() {
    assert_eq!(line_bit(7), 0x00);
    assert_eq!(line_bit(8), 0x00);
    assert_eq!(line_bit(usize::MAX), 0x00);
}

#[test]
fn report_is_the_or_of_the_active_bits() {
    for pattern in 0u8..0x80 {
        let mut lines = [false; 7];
        let mut expected = 0u8;
        for line in 0..7 {
            if pattern & (1 << line) != 0 {
                lines[line] = true;
                expected |= line_bit(line);
            }
        }
        let report = report_code(&lines);
        assert_eq!(report, expected);
        assert_eq!(report, pattern);
        assert_eq!(report & 0x80, 0);
    }
}

#[test]
fn report_pairs() {
    let next_and_previous = [true, true, false, false, false, false, false];
    assert_eq!(report_code(&next_and_previous), 0x03);
    let play_pause_and_volume_up = [false, false, false, true, false, true, false];
    assert_eq!(report_code(&play_pause_and_volume_up), 0x28);
    let volume_up_and_down = [false, false, false, false, false, true, true];
    assert_eq!(report_code(&volume_up_and_down), 0x60);
}
