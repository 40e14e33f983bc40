use ssd1322::interface::DisplayInterface;
use ssd1322::testing::{is_single, same_writes, Sent, TestSpyInterface};

#[test]
fn spy_records_commands_and_data() {
    let mut spy = TestSpyInterface::new();
    assert!(spy.logged(&[]));
    assert!(spy.send_command(0xaf).is_ok());
    assert!(spy.logged_single(0xaf, &[]));
    assert!(!spy.logged_single(0xae, &[]));
    assert!(spy.send_data(&[1, 2]).is_ok());
    assert!(spy.logged_single(0xaf, &[1, 2]));
    assert!(!spy.logged_single(0xaf, &[1, 3]));
    assert!(spy.logged(&[Sent::Cmd(0xaf), Sent::Data(vec![1, 2])]));
}

#[test]
fn empty_data_write_is_not_a_single_command() {
    let mut spy = TestSpyInterface::new();
    assert!(spy.send_command(0x5c).is_ok());
    assert!(spy.send_data(&[]).is_ok());
    assert!(!spy.logged_single(0x5c, &[]));
}

#[test]
fn record_commands_logs_each_byte() {
    let mut spy = TestSpyInterface::new();
    spy.record_commands(&[0xa0, 0xb1]);
    spy.record(Sent::Data(vec![7]));
    assert!(spy.logged(&[Sent::Cmd(0xa0), Sent::Cmd(0xb1), Sent::Data(vec![7])]));
}

#[test]
fn clear_empties_log() {
    let mut spy = TestSpyInterface::new();
    assert!(spy.send_command(1).is_ok());
    spy.clear();
    assert!(spy.logged(&[]));
    assert!(!spy.logged_single(1, &[]));
}

#[test]
fn comparisons_on_plain_values() {
    assert!(is_single(&[Sent::Cmd(3)], 3, &[]));
    assert!(!is_single(&[Sent::Cmd(3), Sent::Data(vec![])], 3, &[]));
    assert!(is_single(&[Sent::Cmd(3), Sent::Data(vec![4])], 3, &[4]));
    assert!(!is_single(&[Sent::Data(vec![4])], 3, &[4]));
    assert!(same_writes(&[Sent::Cmd(1), Sent::Data(vec![2])], &[Sent::Cmd(1), Sent::Data(vec![2])]));
    assert!(!same_writes(&[Sent::Cmd(1)], &[Sent::Data(vec![1])]));
    assert!(!same_writes(&[Sent::Cmd(1)], &[]));
}

#[test]
fn check_passes_on_the_logged_writes() {
    let mut spy = TestSpyInterface::new();
    assert!(spy.send_command(0x15).is_ok());
    assert!(spy.send_data(&[0x1c, 0x5b]).is_ok());
    assert!(spy.logged_single(0x15, &[0x1c, 0x5b]));
    spy.check(0x15, &[0x1c, 0x5b]);
    let expect = [Sent::Cmd(0x15), Sent::Data(vec![0x1c, 0x5b])];
    assert!(spy.logged(&expect));
    spy.check_multi(&expect);
    assert!(!spy.logged(&[Sent::Cmd(0x15)]));
    assert!(!spy.logged(&[]));
}
