//! The SSD1322 commands that put the chip into a configuration, and their encoding into a command
//! byte followed by argument bytes.

use crate::testing::{sent_views, Sent, SentView};
use vstd::prelude::*;

verus! {

/// The error type of the `display-interface` crate, carried through this library unopened.
#[verifier::external_type_specification]
#[verifier::external_body]
pub struct ExDisplayError(display_interface::DisplayError);

/// The order in which the chip scans its COM (row) lines.
#[derive(Clone, Copy, Debug, PartialEq, Eq, Structural)]
pub enum ComScanDirection {
    /// Row 0 is scanned first.
    RowZeroFirst,
    /// Row 0 is scanned last (the rows are scanned in reverse).
    RowZeroLast,
}

/// How the COM lines are wired to the panel's rows.
#[derive(Clone, Copy, Debug, PartialEq, Eq, Structural)]
pub enum ComLayout {
    /// Consecutive COM lines drive consecutive rows.
    Progressive,
    /// Odd and even COM lines are split (odd/even interlacing).
    Interlaced,
    /// Dual COM line mode.
    DualProgressive,
}

/// The axis along which the RAM address advances after each write.
#[derive(Clone, Copy, Debug, PartialEq, Eq, Structural)]
pub enum IncrementAxis {
    Horizontal,
    Vertical,
}

/// Whether column addresses map to segments forwards or in reverse.
#[derive(Clone, Copy, Debug, PartialEq, Eq, Structural)]
pub enum ColumnRemap {
    Forward,
    Reverse,
}

/// The order of the two 4-bit pixels within a RAM byte.
#[derive(Clone, Copy, Debug, PartialEq, Eq, Structural)]
pub enum NibbleRemap {
    Reverse,
    Forward,
}

/// The configuration commands of the SSD1322.
#[derive(Clone, Copy, Debug, PartialEq, Eq, Structural)]
pub enum Command {
    /// Remapping and dual COM line mode (0xA0).
    SetRemapping(IncrementAxis, ColumnRemap, NibbleRemap, ComScanDirection, ComLayout),
    /// Reset phase length (5 to 31 clocks) and first precharge length (3 to 15 clocks) (0xB1).
    SetPhaseLengths(u8, u8),
    /// Segment output current, 0 to 255 (0xC1).
    SetContrastCurrent(u8),
    /// Oscillator frequency (0 to 15) and clock divider exponent (0 to 10) (0xB3).
    SetClockFoscDivset(u8, u8),
    /// External VSL, and enhanced low grey scale quality (0xB4).
    SetDisplayEnhancements(bool, bool),
    /// Second precharge period, 0 to 15 clocks (0xB6).
    SetSecondPrechargePeriod(u8),
    /// Precharge voltage level, 0 to 31 (0xBB).
    SetPreChargeVoltage(u8),
    /// COM deselect voltage level, 0 to 7 (0xBE).
    SetComDeselectVoltage(u8),
}

/// The failure of sending a command: an argument out of the chip's range, or an error of the
/// interface that carries the bytes.
#[derive(Debug)]
pub enum CommandError<E> {
    OutOfRange,
    InterfaceError(E),
}

/// First argument byte of the remapping command: one bit per option.
pub open spec fn remap_first_byte(
    increment_axis: IncrementAxis,
    column_remap: ColumnRemap,
    nibble_remap: NibbleRemap,
    com_scan_direction: ComScanDirection,
    com_layout: ComLayout,
) -> int {
    (match increment_axis {
        IncrementAxis::Horizontal => 0x00int,
        IncrementAxis::Vertical => 0x01int,
    }) + (match column_remap {
        ColumnRemap::Forward => 0x00int,
        ColumnRemap::Reverse => 0x02int,
    }) + (match nibble_remap {
        NibbleRemap::Reverse => 0x00int,
        NibbleRemap::Forward => 0x04int,
    }) + (match com_scan_direction {
        ComScanDirection::RowZeroFirst => 0x00int,
        ComScanDirection::RowZeroLast => 0x10int,
    }) + (match com_layout {
        ComLayout::Interlaced => 0x20int,
        _ => 0x00int,
    })
}

/// Second argument byte of the remapping command: dual COM line mode, with its reserved bit set.
pub open spec fn remap_second_byte(com_layout: ComLayout) -> int {
    match com_layout {
        ComLayout::DualProgressive => 0x11int,
        _ => 0x01int,
    }
}

impl Command {
    /// Whether every argument lies in the range that the chip accepts.
    pub open spec fn in_range(self) -> bool {
        match self {
            Command::SetPhaseLengths(reset, first) => 5 <= reset <= 31 && 3 <= first <= 15,
            Command::SetClockFoscDivset(fosc, divset) => fosc <= 15 && divset <= 10,
            Command::SetSecondPrechargePeriod(period) => period <= 15,
            Command::SetPreChargeVoltage(voltage) => voltage <= 0x1f,
            Command::SetComDeselectVoltage(voltage) => voltage <= 0x07,
            _ => true,
        }
    }

    /// The command byte.
    pub open spec fn spec_opcode(self) -> u8 {
        match self {
            Command::SetRemapping(..) => 0xa0,
            Command::SetPhaseLengths(..) => 0xb1,
            Command::SetContrastCurrent(..) => 0xc1,
            Command::SetClockFoscDivset(..) => 0xb3,
            Command::SetDisplayEnhancements(..) => 0xb4,
            Command::SetSecondPrechargePeriod(..) => 0xb6,
            Command::SetPreChargeVoltage(..) => 0xbb,
            Command::SetComDeselectVoltage(..) => 0xbe,
        }
    }

    /// The argument bytes, for a command whose arguments are in range.
    pub open spec fn spec_args(self) -> Seq<int> {
        match self {
            Command::SetRemapping(ia, cr, nr, csd, layout) => seq![
                remap_first_byte(ia, cr, nr, csd, layout),
                remap_second_byte(layout),
            ],
            Command::SetPhaseLengths(reset, first) => seq![(reset - 1) / 2 + first * 16],
            Command::SetContrastCurrent(current) => seq![current as int],
            Command::SetClockFoscDivset(fosc, divset) => seq![fosc * 16 + divset],
            Command::SetDisplayEnhancements(external_vsl, enhanced) => seq![
                if external_vsl { 0xa0int } else { 0xa2int },
                if enhanced { 0xfdint } else { 0xb5int },
            ],
            Command::SetSecondPrechargePeriod(period) => seq![period as int],
            Command::SetPreChargeVoltage(voltage) => seq![voltage as int],
            Command::SetComDeselectVoltage(voltage) => seq![voltage as int],
        }
    }

    /// The writes that send this command: the command byte, then the arguments as one data run
    /// when there are any.
    pub open spec fn spec_writes(self) -> Seq<SentView> {
        let args = self.spec_args().map_values(|b: int| b as u8);
        if args.len() == 0 {
            seq![SentView::Cmd(self.spec_opcode())]
        } else {
            seq![SentView::Cmd(self.spec_opcode()), SentView::Data(args)]
        }
    }

    /// The command byte of this command.
    pub fn opcode(&self) -> (r: u8)
        ensures
            r == self.spec_opcode(),
    {
        match self {
            Command::SetRemapping(..) => 0xa0,
            Command::SetPhaseLengths(..) => 0xb1,
            Command::SetContrastCurrent(..) => 0xc1,
            Command::SetClockFoscDivset(..) => 0xb3,
            Command::SetDisplayEnhancements(..) => 0xb4,
            Command::SetSecondPrechargePeriod(..) => 0xb6,
            Command::SetPreChargeVoltage(..) => 0xbb,
            Command::SetComDeselectVoltage(..) => 0xbe,
        }
    }

    /// The argument bytes of this command, or `None` where an argument is out of range.
    pub fn args(&self) -> (r: Option<Vec<u8>>)
        ensures
            r is Some <==> self.in_range(),
            r matches Some(a) ==> a@.len() == self.spec_args().len() && forall|i: int|
                0 <= i < a@.len() ==> a@[i] as int == #[trigger] self.spec_args()[i],
    {
        match *self {
            Command::SetRemapping(ia, cr, nr, csd, layout) => {
                let a: u8 = match ia {
                    IncrementAxis::Horizontal => 0x00,
                    IncrementAxis::Vertical => 0x01,
                };
                let b: u8 = match cr {
                    ColumnRemap::Forward => 0x00,
                    ColumnRemap::Reverse => 0x02,
                };
                let c: u8 = match nr {
                    NibbleRemap::Reverse => 0x00,
                    NibbleRemap::Forward => 0x04,
                };
                let d: u8 = match csd {
                    ComScanDirection::RowZeroFirst => 0x00,
                    ComScanDirection::RowZeroLast => 0x10,
                };
                let (e, f): (u8, u8) = match layout {
                    ComLayout::Progressive => (0x00, 0x01),
                    ComLayout::Interlaced => (0x20, 0x01),
                    ComLayout::DualProgressive => (0x00, 0x11),
                };
                Some(vec![a + b + c + d + e, f])
            },
            Command::SetPhaseLengths(reset, first) => {
                if 5 <= reset && reset <= 31 && 3 <= first && first <= 15 {
                    Some(vec![(reset - 1) / 2 + first * 16])
                } else {
                    None
                }
            },
            Command::SetContrastCurrent(current) => Some(vec![current]),
            Command::SetClockFoscDivset(fosc, divset) => {
                if fosc <= 15 && divset <= 10 {
                    Some(vec![fosc * 16 + divset])
                } else {
                    None
                }
            },
            Command::SetDisplayEnhancements(external_vsl, enhanced) => {
                let a: u8 = if external_vsl { 0xa0 } else { 0xa2 };
                let b: u8 = if enhanced { 0xfd } else { 0xb5 };
                Some(vec![a, b])
            },
            Command::SetSecondPrechargePeriod(period) => {
                if period <= 15 {
                    Some(vec![period])
                } else {
                    None
                }
            },
            Command::SetPreChargeVoltage(voltage) => {
                if voltage <= 0x1f {
                    Some(vec![voltage])
                } else {
                    None
                }
            },
            Command::SetComDeselectVoltage(voltage) => {
                if voltage <= 0x07 {
                    Some(vec![voltage])
                } else {
                    None
                }
            },
        }
    }

    /// The writes that send this command, or `None` where an argument is out of range (then
    /// nothing of the command is sent).
    pub fn writes(&self) -> (r: Option<Vec<Sent>>)
        ensures
            r is Some <==> self.in_range(),
            r matches Some(w) ==> sent_views(w@) == self.spec_writes(),
    {
        let op = self.opcode();
        match self.args() {
            None => None,
            Some(args) => {
                let ghost bytes = self.spec_args().map_values(|b: int| b as u8);
                assert(args@ =~= bytes);
                let mut out: Vec<Sent> = Vec::new();
                out.push(Sent::Cmd(op));
                if args.len() > 0 {
                    out.push(Sent::Data(args));
                }
                assert(sent_views(out@) =~= self.spec_writes());
                Some(out)
            },
        }
    }
}

/// Whether the bit of value `mask` (a power of two) is set in `b`.
pub open spec fn has_bit(b: int, mask: int) -> bool {
    (b / mask) % 2 == 1
}

/// Each remapping option owns one bit of the first argument byte, whatever the other options
/// are: bit 0 the vertical increment axis, bit 1 the reversed columns, bit 2 the forward nibble
/// order, bit 4 row 0 scanned last, bit 5 the interlaced layout; bits 3, 6 and 7 stay clear. The
/// second byte has bit 4 set exactly in dual COM mode, and always its reserved bit 0.
pub proof fn lemma_remapping_bits(
    ia: IncrementAxis,
    cr: ColumnRemap,
    nr: NibbleRemap,
    csd: ComScanDirection,
    layout: ComLayout,
)
    ensures
        ({
            let a = Command::SetRemapping(ia, cr, nr, csd, layout).spec_args();
            &&& a.len() == 2
            &&& 0 <= a[0] < 0x40 && 0 <= a[1] < 0x20
            &&& (has_bit(a[0], 0x01) <==> ia == IncrementAxis::Vertical)
            &&& (has_bit(a[0], 0x02) <==> cr == ColumnRemap::Reverse)
            &&& (has_bit(a[0], 0x04) <==> nr == NibbleRemap::Forward)
            &&& !has_bit(a[0], 0x08)
            &&& (has_bit(a[0], 0x10) <==> csd == ComScanDirection::RowZeroLast)
            &&& (has_bit(a[0], 0x20) <==> layout == ComLayout::Interlaced)
            &&& has_bit(a[1], 0x01)
            &&& !has_bit(a[1], 0x02) && !has_bit(a[1], 0x04) && !has_bit(a[1], 0x08)
            &&& (has_bit(a[1], 0x10) <==> layout == ComLayout::DualProgressive)
        }),
{
}

/// The two display enhancement settings are independent: the first byte depends on the VSL
/// choice alone (bit 1 set for the internal VSL), the second on the low grey scale quality alone
/// (0xFD enhanced, 0xB5 normal).
pub proof fn lemma_display_enhancements_independent(x: bool, e: bool)
    ensures
        Command::SetDisplayEnhancements(x, e).spec_args().len() == 2,
        Command::SetDisplayEnhancements(x, e).spec_args()[0] == Command::SetDisplayEnhancements(
            x,
            !e,
        ).spec_args()[0],
        Command::SetDisplayEnhancements(x, e).spec_args()[1] == Command::SetDisplayEnhancements(
            !x,
            e,
        ).spec_args()[1],
        has_bit(Command::SetDisplayEnhancements(x, e).spec_args()[0], 0x02) <==> !x,
        (Command::SetDisplayEnhancements(x, e).spec_args()[1] == 0xfd) <==> e,
        (Command::SetDisplayEnhancements(x, e).spec_args()[1] == 0xb5) <==> !e,
{
}

/// Each single-byte setting is sent as its own value, and the packed settings decode back to
/// their parts: the phase lengths byte holds the first precharge in its high nibble and
/// (reset - 1) / 2 in its low nibble, the clock byte the oscillator frequency in its high
/// nibble and the divider in its low nibble.
pub proof fn lemma_argument_bytes_hold_the_settings(v: u8, w: u8)
    ensures
        Command::SetContrastCurrent(v).spec_args() == seq![v as int],
        Command::SetSecondPrechargePeriod(v).spec_args() == seq![v as int],
        Command::SetPreChargeVoltage(v).spec_args() == seq![v as int],
        Command::SetComDeselectVoltage(v).spec_args() == seq![v as int],
        Command::SetContrastCurrent(v).in_range(),
        Command::SetSecondPrechargePeriod(v).in_range() <==> v <= 15,
        Command::SetPreChargeVoltage(v).in_range() <==> v <= 31,
        Command::SetComDeselectVoltage(v).in_range() <==> v <= 7,
        Command::SetPhaseLengths(v, w).in_range() ==> {
            let b = Command::SetPhaseLengths(v, w).spec_args()[0];
            &&& Command::SetPhaseLengths(v, w).spec_args().len() == 1
            &&& 0 <= b < 0x100
            &&& b / 16 == w
            &&& b % 16 == (v - 1) / 2
            &&& (v % 2 == 1 ==> (b % 16) * 2 + 1 == v)
        },
        Command::SetClockFoscDivset(v, w).in_range() ==> {
            let b = Command::SetClockFoscDivset(v, w).spec_args()[0];
            &&& Command::SetClockFoscDivset(v, w).spec_args().len() == 1
            &&& 0 <= b < 0x100
            &&& b / 16 == v
            &&& b % 16 == w
        },
{
}

/// Whether every command of a sequence has its arguments in range.
pub open spec fn all_in_range(cmds: Seq<Command>) -> bool {
    forall|i: int| 0 <= i < cmds.len() ==> #[trigger] cmds[i].in_range()
}

/// The writes that sending a sequence of commands in order makes: those of each command, up to
/// the first command with an argument out of range, of which nothing is sent.
pub open spec fn plan_writes(cmds: Seq<Command>) -> Seq<SentView>
    decreases cmds.len(),
{
    if cmds.len() == 0 {
        seq![]
    } else if !cmds[0].in_range() {
        seq![]
    } else {
        cmds[0].spec_writes() + plan_writes(cmds.drop_first())
    }
}

/// What a driver of a [`Transmission`] does next.
#[derive(Debug)]
pub enum Step<E> {
    /// Perform this write on the interface, then report its outcome.
    Write(Sent),
    /// The transmission is over, with this result.
    Finish(Result<(), CommandError<E>>),
}

/// The sending of a sequence of commands as a state machine: it hands out one write at a time,
/// is told the outcome of each, and stops at the first failed write, or after the last write
/// before the first command with an argument out of range.
pub struct Transmission {
    writes: Vec<Sent>,
    complete: bool,
    issued: usize,
    finished: bool,
}

impl Transmission {
    #[verifier::type_invariant]
    spec fn issued_within_plan(self) -> bool {
        self.issued <= self.writes.len()
    }

    /// All the writes of the transmission, in order.
    pub closed spec fn planned(self) -> Seq<SentView> {
        sent_views(self.writes@)
    }

    /// Whether every command is in range, so that the transmission ends in success when every
    /// write succeeds.
    pub closed spec fn complete(self) -> bool {
        self.complete
    }

    /// How many writes have been handed out.
    pub closed spec fn issued(self) -> nat {
        self.issued as nat
    }

    /// Whether the transmission has ended.
    pub closed spec fn finished(self) -> bool {
        self.finished
    }

    /// The transmission of `cmds`, in order, with nothing handed out yet.
    pub fn new(cmds: &[Command]) -> (r: Transmission)
        ensures
            r.planned() == plan_writes(cmds@),
            r.complete() == all_in_range(cmds@),
            r.issued() == 0,
            !r.finished(),
    {
        let mut writes: Vec<Sent> = Vec::new();
        let mut i: usize = 0;
        let mut complete = true;
        assert(cmds@.skip(0) =~= cmds@);
        assert(sent_views(writes@) + plan_writes(cmds@) =~= plan_writes(cmds@));
        while i < cmds.len()
            invariant_except_break
                complete,
            invariant
                i <= cmds@.len(),
                forall|j: int| 0 <= j < i ==> #[trigger] cmds@[j].in_range(),
                plan_writes(cmds@) == sent_views(writes@) + plan_writes(cmds@.skip(i as int)),
                all_in_range(cmds@) == all_in_range(cmds@.skip(i as int)),
            ensures
                complete ==> i >= cmds@.len(),
                !complete ==> i < cmds@.len() && !cmds@[i as int].in_range() && plan_writes(cmds@)
                    == sent_views(writes@),
            decreases cmds@.len() - i,
        {
            let ghost rest = cmds@.skip(i as int);
            assert(rest[0] == cmds@[i as int]);
            assert(rest.drop_first() =~= cmds@.skip(i + 1));
            match cmds[i].writes() {
                None => {
                    assert(plan_writes(rest) == Seq::<SentView>::empty());
                    assert(plan_writes(cmds@) =~= sent_views(writes@));
                    assert(sent_views(writes@) + plan_writes(rest) =~= sent_views(writes@));
                    complete = false;
                    break;
                },
                Some(w) => {
                    let ghost before = writes@;
                    let mut w = w;
                    writes.append(&mut w);
                    assert(sent_views(writes@) =~= sent_views(before) + cmds@[i as int].spec_writes());
                    assert(plan_writes(rest) == cmds@[i as int].spec_writes() + plan_writes(
                        cmds@.skip(i + 1),
                    ));
                    assert(sent_views(writes@) + plan_writes(cmds@.skip(i + 1)) =~= sent_views(before)
                        + plan_writes(rest));
                    assert(all_in_range(rest) == all_in_range(cmds@.skip(i + 1))) by {
                        if all_in_range(cmds@.skip(i + 1)) {
                            assert forall|j: int| 0 <= j < rest.len() implies #[trigger] rest[j].in_range() by {
                                if j > 0 {
                                    assert(rest[j] == cmds@.skip(i + 1)[j - 1]);
                                }
                            }
                        }
                    }
                    i = i + 1;
                },
            }
        }
        if complete {
            assert(cmds@.skip(i as int) =~= Seq::<Command>::empty());
            assert(plan_writes(cmds@) =~= sent_views(writes@));
        } else {
            assert(!cmds@[i as int].in_range());
            assert(!all_in_range(cmds@));
        }
        Transmission { writes, complete, issued: 0, finished: false }
    }

    /// Advances the transmission by the outcome of the write handed out last (`Ok(())` on the
    /// first call, before any write).
    pub fn advance<E>(&mut self, outcome: Result<(), E>) -> (step: Step<E>)
        requires
            !old(self).finished(),
        ensures
            final(self).planned() == old(self).planned(),
            final(self).complete() == old(self).complete(),
            outcome is Err ==> {
                &&& final(self).finished()
                &&& final(self).issued() == old(self).issued()
                &&& step matches Step::Finish(Err(CommandError::InterfaceError(e)))
                &&& e == outcome->Err_0
            },
            outcome is Ok && old(self).issued() < old(self).planned().len() ==> {
                &&& !final(self).finished()
                &&& final(self).issued() == old(self).issued() + 1
                &&& step matches Step::Write(w)
                &&& w@ == old(self).planned()[old(self).issued() as int]
            },
            outcome is Ok && old(self).issued() >= old(self).planned().len() ==> {
                &&& final(self).finished()
                &&& final(self).issued() == old(self).issued()
                &&& step matches Step::Finish(r)
                &&& (r is Ok <==> old(self).complete())
                &&& (r matches Err(e) ==> e is OutOfRange)
            },
    {
        proof {
            use_type_invariant(&*self);
        }
        match outcome {
            Err(e) => {
                self.finished = true;
                Step::Finish(Err(CommandError::InterfaceError(e)))
            },
            Ok(()) => {
                if self.issued < self.writes.len() {
                    let w = self.writes[self.issued].duplicate();
                    self.issued = self.issued + 1;
                    Step::Write(w)
                } else {
                    self.finished = true;
                    if self.complete {
                        Step::Finish(Ok(()))
                    } else {
                        Step::Finish(Err(CommandError::OutOfRange))
                    }
                }
            },
        }
    }
}

} // verus!
