//! The interface between the display driver and the bus that reaches the chip, and the decisions
//! of the 4-wire SPI interface: which pin and bus operations carry a command or data, and which
//! error a failed operation is reported as.

use crate::testing::SentView;
use vstd::prelude::*;

verus! {

/// An interface for the SSD1322 implements this trait, which provides the basic operations for
/// sending pre-encoded commands and data to the chip via the interface.
///
/// An implementation is modelled by the log of the writes that reached the chip: a successful
/// write appends itself to the log; a failed one leaves the log as it was, or appends itself
/// (when it reached the chip before the failure was seen). An interface may also promise that it
/// accepts every write.
pub trait DisplayInterface {
    type Error;

    /// The writes that have reached the display through this interface, in order.
    spec fn sent_log(&self) -> Seq<SentView>;

    /// Whether this interface accepts every write.
    spec fn accepts_all(&self) -> bool;

    /// Send a command word to the display's command register.
    fn send_command(&mut self, cmd: u8) -> (r: Result<(), Self::Error>)
        ensures
            r is Ok ==> final(self).sent_log() == old(self).sent_log().push(SentView::Cmd(cmd)),
            r is Err ==> final(self).sent_log() == old(self).sent_log() || final(self).sent_log()
                == old(self).sent_log().push(SentView::Cmd(cmd)),
            old(self).accepts_all() ==> r is Ok && final(self).accepts_all(),
    ;

    /// Send a sequence of data words to the display from a buffer.
    fn send_data(&mut self, buf: &[u8]) -> (r: Result<(), Self::Error>)
        ensures
            r is Ok ==> final(self).sent_log() == old(self).sent_log().push(SentView::Data(buf@)),
            r is Err ==> final(self).sent_log() == old(self).sent_log() || final(self).sent_log()
                == old(self).sent_log().push(SentView::Data(buf@)),
            old(self).accepts_all() ==> r is Ok && final(self).accepts_all(),
    ;
}

/// The union of all errors that may occur on the SPI interface. This consists of variants for
/// the error types of the D/C GPIO and the SPI bus.
#[derive(Debug)]
pub enum SpiInterfaceError<DCE, SPIE> {
    DCError(DCE),
    SPIError(SPIE),
}

impl<DCE, SPIE> SpiInterfaceError<DCE, SPIE> {
    /// The error of a failed operation on the D/C pin.
    pub fn from_dc(e: DCE) -> (r: Self)
        ensures
            r == SpiInterfaceError::<DCE, SPIE>::DCError(e),
    {
        Self::DCError(e)
    }

    /// The error of a failed write on the SPI bus.
    pub fn from_spi(e: SPIE) -> (r: Self)
        ensures
            r == SpiInterfaceError::<DCE, SPIE>::SPIError(e),
    {
        Self::SPIError(e)
    }
}

/// A configured `DisplayInterface` for controlling an SSD1322 via 4-wire SPI: an SPI device
/// connected to the chip, and a GPIO output pin connected to its D/C (data/command) pin.
pub struct SpiInterface<SPI, DC> {
    spi: SPI,
    dc: DC,
}

impl<SPI, DC> SpiInterface<SPI, DC> {
    /// The SPI device.
    pub closed spec fn spi(self) -> SPI {
        self.spi
    }

    /// The D/C pin.
    pub closed spec fn dc(self) -> DC {
        self.dc
    }

    /// Create a new SPI interface to communicate with the display driver. `spi` is the SPI
    /// master device, and `dc` is the GPIO output pin connected to the D/C pin of the SSD1322.
    pub fn new(spi: SPI, dc: DC) -> (r: Self)
        ensures
            r.spi() == spi,
            r.dc() == dc,
    {
        Self { spi, dc }
    }

    /// The SPI device, to perform a bus operation on.
    pub fn spi_mut(&mut self) -> (r: &mut SPI)
        ensures
            *r == old(self).spi(),
            final(self).spi() == *final(r),
            final(self).dc() == old(self).dc(),
    {
        &mut self.spi
    }

    /// The D/C pin, to perform a pin operation on.
    pub fn dc_mut(&mut self) -> (r: &mut DC)
        ensures
            *r == old(self).dc(),
            final(self).dc() == *final(r),
            final(self).spi() == old(self).spi(),
    {
        &mut self.dc
    }
}

/// A configured async interface for controlling an SSD1322 via 4-wire SPI: an async SPI device
/// connected to the chip, and a GPIO output pin connected to its D/C pin.
pub struct SpiInterfaceAsync<SPI, DC> {
    spi: SPI,
    dc: DC,
}

impl<SPI, DC> SpiInterfaceAsync<SPI, DC> {
    /// The SPI device.
    pub closed spec fn spi(self) -> SPI {
        self.spi
    }

    /// The D/C pin.
    pub closed spec fn dc(self) -> DC {
        self.dc
    }

    /// Create a new async SPI interface to communicate with the display driver. `spi` is the
    /// SPI master device, and `dc` is the GPIO output pin connected to the D/C pin of the SSD1322.
    pub fn new(spi: SPI, dc: DC) -> (r: Self)
        ensures
            r.spi() == spi,
            r.dc() == dc,
    {
        Self { spi, dc }
    }

    /// The SPI device, to perform a bus operation on.
    pub fn spi_mut(&mut self) -> (r: &mut SPI)
        ensures
            *r == old(self).spi(),
            final(self).spi() == *final(r),
            final(self).dc() == old(self).dc(),
    {
        &mut self.spi
    }

    /// The D/C pin, to perform a pin operation on.
    pub fn dc_mut(&mut self) -> (r: &mut DC)
        ensures
            *r == old(self).dc(),
            final(self).dc() == *final(r),
            final(self).spi() == old(self).spi(),
    {
        &mut self.dc
    }
}

/// One operation of the SPI interface on its pins and bus.
#[derive(Debug, PartialEq)]
pub enum BusOp {
    /// Drive the D/C pin low: what follows is a command.
    SetDcLow,
    /// Write these bytes on the SPI bus.
    Write(Vec<u8>),
    /// Drive the D/C pin high: what follows is data.
    SetDcHigh,
}

/// The mathematical value of a [`BusOp`].
pub ghost enum BusOpView {
    SetDcLow,
    Write(Seq<u8>),
    SetDcHigh,
}

impl View for BusOp {
    type V = BusOpView;

    open spec fn view(&self) -> BusOpView {
        match self {
            BusOp::SetDcLow => BusOpView::SetDcLow,
            BusOp::Write(b) => BusOpView::Write(b@),
            BusOp::SetDcHigh => BusOpView::SetDcHigh,
        }
    }
}

impl BusOp {
    /// A copy of this operation.
    pub fn duplicate(&self) -> (r: BusOp)
        ensures
            r@ == self@,
    {
        match self {
            BusOp::SetDcLow => BusOp::SetDcLow,
            BusOp::Write(b) => BusOp::Write(copy_bytes(b.as_slice())),
            BusOp::SetDcHigh => BusOp::SetDcHigh,
        }
    }
}

/// A vector holding the bytes of `buf`.
pub fn copy_bytes(buf: &[u8]) -> (r: Vec<u8>)
    ensures
        r@ == buf@,
{
    let mut out: Vec<u8> = Vec::new();
    for i in 0..buf.len()
        invariant
            out@ == buf@.take(i as int),
    {
        out.push(buf[i]);
        assert(out@ =~= buf@.take(i + 1));
    }
    assert(out@ =~= buf@);
    out
}

/// What the driver of an [`SpiTransfer`] reports: the start, or the outcome of the operation
/// handed out last, a pin operation or a bus write.
#[derive(Debug)]
pub enum BusEvent<DCE, SPIE> {
    Start,
    Pin(Result<(), DCE>),
    Bus(Result<(), SPIE>),
}

/// What the driver of an [`SpiTransfer`] does next.
#[derive(Debug)]
pub enum BusStep<DCE, SPIE> {
    /// Perform this operation, then report its outcome.
    Perform(BusOp),
    /// The transfer is over, with this result.
    Finish(Result<(), SpiInterfaceError<DCE, SPIE>>),
}

/// The operations that send a command byte: D/C low, the byte on the bus, D/C high again.
pub open spec fn command_ops(cmd: u8) -> Seq<BusOpView> {
    seq![BusOpView::SetDcLow, BusOpView::Write(seq![cmd]), BusOpView::SetDcHigh]
}

/// The operations that send data: the bytes on the bus, with D/C left high.
pub open spec fn data_ops(buf: Seq<u8>) -> Seq<BusOpView> {
    seq![BusOpView::Write(buf)]
}

/// Whether the D/C pin is high after the operations `ops`, when it was `initial` before them.
pub open spec fn dc_high_after(ops: Seq<BusOpView>, initial: bool) -> bool
    decreases ops.len(),
{
    if ops.len() == 0 {
        initial
    } else {
        match ops.last() {
            BusOpView::SetDcLow => false,
            BusOpView::SetDcHigh => true,
            BusOpView::Write(_) => dc_high_after(ops.drop_last(), initial),
        }
    }
}

/// The bytes that the operations `ops` put on the bus while the D/C pin is at the level `high`
/// (true: data; false: command), the pin being `initial` before them.
pub open spec fn bytes_at(ops: Seq<BusOpView>, initial: bool, high: bool) -> Seq<u8>
    decreases ops.len(),
{
    if ops.len() == 0 {
        seq![]
    } else {
        let before = bytes_at(ops.drop_last(), initial, high);
        match ops.last() {
            BusOpView::Write(b) => if dc_high_after(ops.drop_last(), initial) == high {
                before + b
            } else {
                before
            },
            _ => before,
        }
    }
}

/// Whether `ops` holds an operation on the D/C pin.
pub open spec fn touches_dc(ops: Seq<BusOpView>) -> bool {
    exists|i: int| 0 <= i < ops.len() && !(#[trigger] ops[i] is Write)
}

/// A command transfer puts exactly the command byte on the bus, with D/C low, and leaves D/C
/// high (data mode), whatever the byte and whatever the pin was before.
pub proof fn lemma_command_transfer_frames_the_byte(cmd: u8, initial: bool)
    ensures
        bytes_at(command_ops(cmd), initial, false) == seq![cmd],
        bytes_at(command_ops(cmd), initial, true) == Seq::<u8>::empty(),
        dc_high_after(command_ops(cmd), initial),
{
    let ops = command_ops(cmd);
    let o1 = ops.drop_last();
    let o0 = o1.drop_last();
    assert(o0.drop_last() =~= Seq::<BusOpView>::empty());
    assert(o0 =~= seq![BusOpView::SetDcLow]);
    assert(o1 =~= seq![BusOpView::SetDcLow, BusOpView::Write(seq![cmd])]);
    assert(!dc_high_after(o0, initial));
    assert(bytes_at(o0.drop_last(), initial, false) == Seq::<u8>::empty());
    assert(bytes_at(o0, initial, false) == Seq::<u8>::empty());
    assert(bytes_at(o0.drop_last(), initial, true) == Seq::<u8>::empty());
    assert(bytes_at(o0, initial, true) == Seq::<u8>::empty());
    assert(bytes_at(o1, initial, false) =~= seq![cmd]);
    assert(bytes_at(o1, initial, true) =~= Seq::<u8>::empty());
}

/// A data transfer never touches the D/C pin and puts exactly the buffer on the bus, at the
/// level the pin already has, whatever the length of the buffer.
pub proof fn lemma_data_transfer_keeps_dc(buf: Seq<u8>, initial: bool)
    ensures
        !touches_dc(data_ops(buf)),
        dc_high_after(data_ops(buf), initial) == initial,
        bytes_at(data_ops(buf), initial, initial) == buf,
        bytes_at(data_ops(buf), initial, !initial) == Seq::<u8>::empty(),
{
    let ops = data_ops(buf);
    assert(ops.drop_last() =~= Seq::<BusOpView>::empty());
    assert(ops.last() == BusOpView::Write(buf));
    assert(dc_high_after(ops.drop_last(), initial) == initial);
    assert(bytes_at(ops.drop_last(), initial, initial) == Seq::<u8>::empty());
    assert(bytes_at(ops.drop_last(), initial, !initial) == Seq::<u8>::empty());
    assert(Seq::<u8>::empty() + buf =~= buf);
    assert(bytes_at(ops, initial, initial) =~= buf);
}

/// Over 4-wire SPI a command followed by its data reaches the chip as the command byte with D/C
/// low and the data with D/C high, whatever level the pin had before.
pub proof fn lemma_command_then_data(cmd: u8, buf: Seq<u8>, initial: bool)
    ensures
        bytes_at(command_ops(cmd) + data_ops(buf), initial, false) == seq![cmd],
        bytes_at(command_ops(cmd) + data_ops(buf), initial, true) == buf,
        dc_high_after(command_ops(cmd) + data_ops(buf), initial),
{
    lemma_command_transfer_frames_the_byte(cmd, initial);
    let ops = command_ops(cmd) + data_ops(buf);
    assert(ops.drop_last() =~= command_ops(cmd));
    assert(ops.last() == BusOpView::Write(buf));
    assert(bytes_at(ops, initial, true) =~= buf);
}

/// One transfer of the SPI interface as a state machine: it hands out one operation at a time,
/// is told the outcome of each, and stops at the first that fails, reporting a pin failure as a
/// D/C error and a bus failure as an SPI error.
pub struct SpiTransfer {
    ops: Vec<BusOp>,
    issued: usize,
    finished: bool,
}

impl SpiTransfer {
    #[verifier::type_invariant]
    spec fn issued_within_ops(self) -> bool {
        self.issued <= self.ops.len()
    }

    /// All the operations of the transfer, in order.
    pub closed spec fn planned(self) -> Seq<BusOpView> {
        self.ops@.map_values(|op: BusOp| op@)
    }

    /// How many operations have been handed out.
    pub closed spec fn issued(self) -> nat {
        self.issued as nat
    }

    /// Whether the transfer has ended.
    pub closed spec fn finished(self) -> bool {
        self.finished
    }

    /// The transfer that sends the command word `cmd` to the command register.
    pub fn command(cmd: u8) -> (r: SpiTransfer)
        ensures
            r.planned() == command_ops(cmd),
            r.issued() == 0,
            !r.finished(),
    {
        let mut ops: Vec<BusOp> = Vec::new();
        ops.push(BusOp::SetDcLow);
        let mut byte: Vec<u8> = Vec::new();
        byte.push(cmd);
        ops.push(BusOp::Write(byte));
        ops.push(BusOp::SetDcHigh);
        let r = SpiTransfer { ops, issued: 0, finished: false };
        assert(r.planned() =~= command_ops(cmd));
        r
    }

    /// The transfer that sends the data words of `buf`.
    pub fn data(buf: &[u8]) -> (r: SpiTransfer)
        ensures
            r.planned() == data_ops(buf@),
            r.issued() == 0,
            !r.finished(),
    {
        let mut ops: Vec<BusOp> = Vec::new();
        ops.push(BusOp::Write(copy_bytes(buf)));
        let r = SpiTransfer { ops, issued: 0, finished: false };
        assert(r.planned() =~= data_ops(buf@));
        r
    }

    /// Advances the transfer by `event`: `Start` on the first call, then the outcome of the
    /// operation handed out last.
    pub fn advance<DCE, SPIE>(&mut self, event: BusEvent<DCE, SPIE>) -> (step: BusStep<DCE, SPIE>)
        requires
            !old(self).finished(),
        ensures
            final(self).planned() == old(self).planned(),
            event matches BusEvent::Pin(Err(e)) ==> {
                &&& final(self).finished()
                &&& final(self).issued() == old(self).issued()
                &&& step == BusStep::<DCE, SPIE>::Finish(Err(SpiInterfaceError::DCError(e)))
            },
            event matches BusEvent::Bus(Err(e)) ==> {
                &&& final(self).finished()
                &&& final(self).issued() == old(self).issued()
                &&& step == BusStep::<DCE, SPIE>::Finish(Err(SpiInterfaceError::SPIError(e)))
            },
            !(event matches BusEvent::Pin(Err(_))) && !(event matches BusEvent::Bus(Err(_))) ==> {
                if old(self).issued() < old(self).planned().len() {
                    &&& !final(self).finished()
                    &&& final(self).issued() == old(self).issued() + 1
                    &&& step matches BusStep::Perform(op)
                    &&& op@ == old(self).planned()[old(self).issued() as int]
                } else {
                    &&& final(self).finished()
                    &&& final(self).issued() == old(self).issued()
                    &&& step matches BusStep::Finish(Ok(()))
                }
            },
    {
        proof {
            use_type_invariant(&*self);
        }
        match event {
            BusEvent::Pin(Err(e)) => {
                self.finished = true;
                BusStep::Finish(Err(SpiInterfaceError::from_dc(e)))
            },
            BusEvent::Bus(Err(e)) => {
                self.finished = true;
                BusStep::Finish(Err(SpiInterfaceError::from_spi(e)))
            },
            _ => {
                if self.issued < self.ops.len() {
                    let op = self.ops[self.issued].duplicate();
                    self.issued = self.issued + 1;
                    BusStep::Perform(op)
                } else {
                    self.finished = true;
                    BusStep::Finish(Ok(()))
                }
            },
        }
    }
}

} // verus!
