use display_interface::DisplayError;
use ssd1322::command::{
    ColumnRemap, ComLayout, ComScanDirection, Command, IncrementAxis, NibbleRemap, Step,
    Transmission,
};
use ssd1322::testing::Sent;

#[test]
fn opcodes() {
    assert_eq!(Command::SetPhaseLengths(5, 3).opcode(), 0xb1);
    assert_eq!(Command::SetContrastCurrent(0).opcode(), 0xc1);
    assert_eq!(Command::SetClockFoscDivset(0, 0).opcode(), 0xb3);
    assert_eq!(Command::SetDisplayEnhancements(false, false).opcode(), 0xb4);
    assert_eq!(Command::SetSecondPrechargePeriod(0).opcode(), 0xb6);
    assert_eq!(Command::SetPreChargeVoltage(0).opcode(), 0xbb);
    assert_eq!(Command::SetComDeselectVoltage(0).opcode(), 0xbe);
}

#[test]
fn remapping_all_bits() {
    let c = Command::SetRemapping(
        IncrementAxis::Vertical,
        ColumnRemap::Reverse,
        NibbleRemap::Forward,
        ComScanDirection::RowZeroLast,
        ComLayout::Interlaced,
    );
    assert_eq!(c.opcode(), 0xa0);
    assert_eq!(c.args(), Some(vec![0x37, 0x01]));
}

#[test]
fn phase_lengths_encoding_and_range() {
    assert_eq!(Command::SetPhaseLengths(5, 3).args(), Some(vec![0x32]));
    assert_eq!(Command::SetPhaseLengths(31, 15).args(), Some(vec![0xff]));
    assert_eq!(Command::SetPhaseLengths(9, 7).args(), Some(vec![0x74]));
    assert_eq!(Command::SetPhaseLengths(4, 3).args(), None);
    assert_eq!(Command::SetPhaseLengths(32, 3).args(), None);
    assert_eq!(Command::SetPhaseLengths(5, 2).args(), None);
    assert_eq!(Command::SetPhaseLengths(5, 16).args(), None);
}

#[test]
fn clock_encoding_and_range() {
    assert_eq!(Command::SetClockFoscDivset(15, 10).args(), Some(vec![0xfa]));
    assert_eq!(Command::SetClockFoscDivset(0, 0).args(), Some(vec![0x00]));
    assert_eq!(Command::SetClockFoscDivset(16, 0).args(), None);
    assert_eq!(Command::SetClockFoscDivset(0, 11).args(), None);
}

#[test]
fn enhancements_encoding() {
    assert_eq!(Command::SetDisplayEnhancements(true, true).args(), Some(vec![0xa0, 0xfd]));
    assert_eq!(Command::SetDisplayEnhancements(false, false).args(), Some(vec![0xa2, 0xb5]));
}

#[test]
fn single_byte_ranges() {
    assert_eq!(Command::SetContrastCurrent(0xff).args(), Some(vec![0xff]));
    assert_eq!(Command::SetSecondPrechargePeriod(15).args(), Some(vec![15]));
    assert_eq!(Command::SetSecondPrechargePeriod(16).args(), None);
    assert_eq!(Command::SetPreChargeVoltage(0x1f).args(), Some(vec![0x1f]));
    assert_eq!(Command::SetPreChargeVoltage(0x20).args(), None);
    assert_eq!(Command::SetComDeselectVoltage(7).args(), Some(vec![7]));
    assert_eq!(Command::SetComDeselectVoltage(8).args(), None);
}

#[test]
fn writes_of_a_command() {
    assert_eq!(
        Command::SetContrastCurrent(0x42).writes(),
        Some(vec![Sent::Cmd(0xc1), Sent::Data(vec![0x42])])
    );
    assert_eq!(Command::SetComDeselectVoltage(9).writes(), None);
}

#[test]
fn transmission_of_empty_sequence_finishes_ok() {
    let mut t = Transmission::new(&[]);
    assert!(matches!(t.advance::<DisplayError>(Ok(())), Step::Finish(Ok(()))));
}

#[test]
fn transmission_with_first_command_out_of_range_writes_nothing() {
    let mut t = Transmission::new(&[Command::SetPreChargeVoltage(0xff), Command::SetContrastCurrent(1)]);
    assert!(matches!(
        t.advance::<DisplayError>(Ok(())),
        Step::Finish(Err(ssd1322::command::CommandError::OutOfRange))
    ));
}
