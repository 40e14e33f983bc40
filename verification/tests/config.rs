use display_interface::DisplayError;
use ssd1322::command::{
    ColumnRemap, ComLayout, ComScanDirection, Command, CommandError, IncrementAxis, NibbleRemap,
    Step,
};
use ssd1322::config::Config;
use ssd1322::testing::{Sent, TestSpyInterface};

fn data(bytes: &[u8]) -> Sent {
    Sent::Data(bytes.to_vec())
}

#[test]
fn new_config_sends_only_remapping() {
    let cfg = Config::new(ComScanDirection::RowZeroLast, ComLayout::Progressive);
    assert_eq!(
        cfg.commands(),
        vec![Command::SetRemapping(
            IncrementAxis::Horizontal,
            ColumnRemap::Forward,
            NibbleRemap::Forward,
            ComScanDirection::RowZeroLast,
            ComLayout::Progressive,
        )]
    );
    let mut spy = TestSpyInterface::new();
    assert!(cfg.send(&mut spy).is_ok());
    assert!(spy.logged_single(0xa0, &[0x14, 0x01]));
}

#[test]
fn full_config_commands_in_fixed_order() {
    let cfg = Config::new(ComScanDirection::RowZeroLast, ComLayout::Progressive)
        .column_remap(ColumnRemap::Reverse)
        .clock_fosc_divset(9, 1)
        .display_enhancements(true, true)
        .contrast_current(0x7f)
        .phase_lengths(5, 15)
        .precharge_voltage(0x1f)
        .com_deselect_voltage(0x04);
    assert_eq!(
        cfg.commands(),
        vec![
            Command::SetRemapping(
                IncrementAxis::Horizontal,
                ColumnRemap::Reverse,
                NibbleRemap::Forward,
                ComScanDirection::RowZeroLast,
                ComLayout::Progressive,
            ),
            Command::SetPhaseLengths(5, 15),
            Command::SetContrastCurrent(0x7f),
            Command::SetClockFoscDivset(9, 1),
            Command::SetDisplayEnhancements(true, true),
            Command::SetPreChargeVoltage(0x1f),
            Command::SetComDeselectVoltage(0x04),
        ]
    );
}

#[test]
fn full_config_sends_encoded_bytes() {
    let cfg = Config::new(ComScanDirection::RowZeroLast, ComLayout::Progressive)
        .column_remap(ColumnRemap::Reverse)
        .clock_fosc_divset(9, 1)
        .display_enhancements(true, true)
        .contrast_current(0x7f)
        .phase_lengths(5, 15)
        .second_precharge_period(8)
        .precharge_voltage(0x1f)
        .com_deselect_voltage(0x04);
    let mut spy = TestSpyInterface::new();
    assert!(cfg.send(&mut spy).is_ok());
    assert!(spy.logged(&[
        Sent::Cmd(0xa0),
        data(&[0x16, 0x01]),
        Sent::Cmd(0xb1),
        data(&[0xf2]),
        Sent::Cmd(0xc1),
        data(&[0x7f]),
        Sent::Cmd(0xb3),
        data(&[0x91]),
        Sent::Cmd(0xb4),
        data(&[0xa0, 0xfd]),
        Sent::Cmd(0xb6),
        data(&[0x08]),
        Sent::Cmd(0xbb),
        data(&[0x1f]),
        Sent::Cmd(0xbe),
        data(&[0x04]),
    ]));
}

#[test]
fn remapping_options_set_their_bits() {
    let cfg = Config::new(ComScanDirection::RowZeroFirst, ComLayout::Interlaced)
        .increment_axis(IncrementAxis::Vertical)
        .nibble_remap(NibbleRemap::Reverse);
    let mut spy = TestSpyInterface::new();
    assert!(cfg.send(&mut spy).is_ok());
    assert!(spy.logged_single(0xa0, &[0x21, 0x01]));

    let cfg = Config::new(ComScanDirection::RowZeroFirst, ComLayout::DualProgressive);
    let mut spy = TestSpyInterface::new();
    assert!(cfg.send(&mut spy).is_ok());
    assert!(spy.logged_single(0xa0, &[0x04, 0x11]));
}

#[test]
fn builder_keeps_last_value() {
    let cfg = Config::new(ComScanDirection::RowZeroFirst, ComLayout::Progressive)
        .contrast_current(1)
        .contrast_current(2);
    assert_eq!(cfg.commands().len(), 2);
    assert_eq!(cfg.commands()[1], Command::SetContrastCurrent(2));
}

#[test]
fn out_of_range_stops_before_the_command() {
    let cfg = Config::new(ComScanDirection::RowZeroFirst, ComLayout::Progressive)
        .contrast_current(0x10)
        .phase_lengths(4, 3);
    let mut spy = TestSpyInterface::new();
    let r = cfg.send(&mut spy);
    assert!(matches!(r, Err(CommandError::OutOfRange)));
    assert!(spy.logged_single(0xa0, &[0x04, 0x01]));
}

#[test]
fn out_of_range_later_command_sends_earlier_ones() {
    let cfg = Config::new(ComScanDirection::RowZeroFirst, ComLayout::Progressive)
        .contrast_current(0x10)
        .com_deselect_voltage(8);
    let mut spy = TestSpyInterface::new();
    let r = cfg.send(&mut spy);
    assert!(matches!(r, Err(CommandError::OutOfRange)));
    assert!(spy.logged(&[
        Sent::Cmd(0xa0),
        data(&[0x04, 0x01]),
        Sent::Cmd(0xc1),
        data(&[0x10]),
    ]));
}

#[test]
fn transmission_stops_at_interface_error() {
    let cfg = Config::new(ComScanDirection::RowZeroFirst, ComLayout::Progressive);
    let mut t = cfg.transmission();
    match t.advance::<DisplayError>(Ok(())) {
        Step::Write(w) => assert_eq!(w, Sent::Cmd(0xa0)),
        other => panic!("unexpected step {:?}", other),
    }
    match t.advance(Err(DisplayError::BusWriteError)) {
        Step::Finish(Err(CommandError::InterfaceError(DisplayError::BusWriteError))) => {},
        other => panic!("unexpected step {:?}", other),
    }
}

#[test]
fn transmission_hands_out_all_writes_then_finishes() {
    let cfg = Config::new(ComScanDirection::RowZeroFirst, ComLayout::Progressive);
    let mut t = cfg.transmission();
    let mut writes = Vec::new();
    loop {
        match t.advance::<DisplayError>(Ok(())) {
            Step::Write(w) => writes.push(w),
            Step::Finish(r) => {
                assert!(r.is_ok());
                break;
            },
        }
    }
    assert_eq!(writes, vec![Sent::Cmd(0xa0), data(&[0x04, 0x01])]);
}

#[test]
fn two_sends_of_one_config_agree() {
    let cfg = Config::new(ComScanDirection::RowZeroFirst, ComLayout::Progressive)
        .contrast_current(5)
        .precharge_voltage(3);
    let mut a = TestSpyInterface::new();
    let mut b = TestSpyInterface::new();
    assert!(cfg.send(&mut a).is_ok());
    assert!(cfg.send(&mut b).is_ok());
    assert!(cfg.send(&mut a).is_ok());
    let once = [Sent::Cmd(0xa0), data(&[0x04, 0x01]), Sent::Cmd(0xc1), data(&[5]), Sent::Cmd(0xbb), data(&[3])];
    assert!(b.logged(&once));
    let twice: Vec<Sent> = once.iter().chain(once.iter()).cloned().collect();
    assert!(a.logged(&twice));
}

#[test]
fn builder_order_does_not_change_what_is_sent() {
    let n = || Config::new(ComScanDirection::RowZeroLast, ComLayout::Progressive);
    let c1 = n().contrast_current(9).phase_lengths(7, 4).precharge_voltage(2);
    let c2 = n().precharge_voltage(2).phase_lengths(7, 4).contrast_current(9);
    let mut s1 = TestSpyInterface::new();
    let mut s2 = TestSpyInterface::new();
    assert!(c1.send(&mut s1).is_ok());
    assert!(c2.send(&mut s2).is_ok());
    assert_eq!(c1.commands(), c2.commands());
    assert!(s1.logged(&[
        Sent::Cmd(0xa0),
        data(&[0x14, 0x01]),
        Sent::Cmd(0xb1),
        data(&[0x43]),
        Sent::Cmd(0xc1),
        data(&[9]),
        Sent::Cmd(0xbb),
        data(&[2]),
    ]));
    assert!(s2.logged(&[
        Sent::Cmd(0xa0),
        data(&[0x14, 0x01]),
        Sent::Cmd(0xb1),
        data(&[0x43]),
        Sent::Cmd(0xc1),
        data(&[9]),
        Sent::Cmd(0xbb),
        data(&[2]),
    ]));
}
