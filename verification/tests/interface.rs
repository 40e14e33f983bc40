use ssd1322::interface::{BusEvent, BusOp, BusStep, SpiInterface, SpiInterfaceAsync, SpiInterfaceError, SpiTransfer};

#[test]
fn error_constructors() {
    assert!(matches!(SpiInterfaceError::<u8, u16>::from_dc(3), SpiInterfaceError::DCError(3)));
    assert!(matches!(SpiInterfaceError::<u8, u16>::from_spi(7), SpiInterfaceError::SPIError(7)));
}

#[test]
fn interface_holds_its_parts() {
    let mut iface = SpiInterface::new(10u32, 20u8);
    *iface.spi_mut() += 1;
    *iface.dc_mut() += 2;
    assert_eq!(*iface.spi_mut(), 11);
    assert_eq!(*iface.dc_mut(), 22);
    let mut iface = SpiInterfaceAsync::new(1u8, 2u8);
    assert_eq!(*iface.spi_mut(), 1);
    assert_eq!(*iface.dc_mut(), 2);
}

#[test]
fn command_transfer_lowers_writes_raises() {
    let mut t = SpiTransfer::command(0x5c);
    match t.advance::<(), ()>(BusEvent::Start) {
        BusStep::Perform(op) => assert_eq!(op, BusOp::SetDcLow),
        other => panic!("unexpected {:?}", other),
    }
    match t.advance::<(), ()>(BusEvent::Pin(Ok(()))) {
        BusStep::Perform(op) => assert_eq!(op, BusOp::Write(vec![0x5c])),
        other => panic!("unexpected {:?}", other),
    }
    match t.advance::<(), ()>(BusEvent::Bus(Ok(()))) {
        BusStep::Perform(op) => assert_eq!(op, BusOp::SetDcHigh),
        other => panic!("unexpected {:?}", other),
    }
    assert!(matches!(t.advance::<(), ()>(BusEvent::Pin(Ok(()))), BusStep::Finish(Ok(()))));
}

#[test]
fn command_transfer_pin_failure_is_dc_error() {
    let mut t = SpiTransfer::command(0xaf);
    assert!(matches!(t.advance::<u8, u16>(BusEvent::Start), BusStep::Perform(BusOp::SetDcLow)));
    assert!(matches!(
        t.advance::<u8, u16>(BusEvent::Pin(Err(5))),
        BusStep::Finish(Err(SpiInterfaceError::DCError(5)))
    ));
}

#[test]
fn command_transfer_bus_failure_is_spi_error() {
    let mut t = SpiTransfer::command(0xaf);
    assert!(matches!(t.advance::<u8, u16>(BusEvent::Start), BusStep::Perform(BusOp::SetDcLow)));
    assert!(matches!(t.advance::<u8, u16>(BusEvent::Pin(Ok(()))), BusStep::Perform(BusOp::Write(_))));
    assert!(matches!(
        t.advance::<u8, u16>(BusEvent::Bus(Err(9))),
        BusStep::Finish(Err(SpiInterfaceError::SPIError(9)))
    ));
}

#[test]
fn data_transfer_is_one_write() {
    let mut t = SpiTransfer::data(&[1, 2, 3]);
    match t.advance::<(), ()>(BusEvent::Start) {
        BusStep::Perform(op) => assert_eq!(op, BusOp::Write(vec![1, 2, 3])),
        other => panic!("unexpected {:?}", other),
    }
    assert!(matches!(t.advance::<(), ()>(BusEvent::Bus(Ok(()))), BusStep::Finish(Ok(()))));
}
