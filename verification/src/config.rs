//! The configuration of the display: register values of relatively static settings, sent once
//! when the display is brought up.

use crate::command::{
    all_in_range, plan_writes, ColumnRemap, ComLayout, ComScanDirection, Command, CommandError,
    IncrementAxis, NibbleRemap, Step, Transmission,
};
use crate::interface::DisplayInterface;
use crate::testing::Sent;
use vstd::prelude::*;

verus! {

/// What a [`Config`] holds: the mandatory COM settings, the remapping options, and for each
/// optional setting the command that sets it, or `None` to leave it at the chip's power-on
/// default.
pub ghost struct ConfigView {
    pub com_scan_direction: ComScanDirection,
    pub com_layout: ComLayout,
    pub increment_axis: IncrementAxis,
    pub column_remap: ColumnRemap,
    pub nibble_remap: NibbleRemap,
    pub contrast_current_cmd: Option<Command>,
    pub phase_lengths_cmd: Option<Command>,
    pub clock_fosc_divset_cmd: Option<Command>,
    pub display_enhancements_cmd: Option<Command>,
    pub second_precharge_period_cmd: Option<Command>,
    pub precharge_voltage_cmd: Option<Command>,
    pub com_deselect_voltage_cmd: Option<Command>,
}

/// The commands that a slot holds: none, or its one command.
pub open spec fn slot(cmd: Option<Command>) -> Seq<Command> {
    match cmd {
        Some(c) => seq![c],
        None => seq![],
    }
}

impl ConfigView {
    /// Each optional setting holds, if anything, the command of that setting.
    pub open spec fn wf(self) -> bool {
        &&& (self.contrast_current_cmd matches Some(c) ==> c is SetContrastCurrent)
        &&& (self.phase_lengths_cmd matches Some(c) ==> c is SetPhaseLengths)
        &&& (self.clock_fosc_divset_cmd matches Some(c) ==> c is SetClockFoscDivset)
        &&& (self.display_enhancements_cmd matches Some(c) ==> c is SetDisplayEnhancements)
        &&& (self.second_precharge_period_cmd matches Some(c) ==> c is SetSecondPrechargePeriod)
        &&& (self.precharge_voltage_cmd matches Some(c) ==> c is SetPreChargeVoltage)
        &&& (self.com_deselect_voltage_cmd matches Some(c) ==> c is SetComDeselectVoltage)
    }

    /// The remapping command, which is always sent.
    pub open spec fn remapping(self) -> Command {
        Command::SetRemapping(
            self.increment_axis,
            self.column_remap,
            self.nibble_remap,
            self.com_scan_direction,
            self.com_layout,
        )
    }

    /// The commands that put the display into this configuration, in the order they are sent:
    /// the remapping first, then each optional setting that was given.
    pub open spec fn commands(self) -> Seq<Command> {
        seq![self.remapping()] + slot(self.phase_lengths_cmd) + slot(self.contrast_current_cmd)
            + slot(self.clock_fosc_divset_cmd) + slot(self.display_enhancements_cmd) + slot(
            self.second_precharge_period_cmd,
        ) + slot(self.precharge_voltage_cmd) + slot(self.com_deselect_voltage_cmd)
    }
}

/// Whether an optional setting was given: 1 if so, 0 if it is left at its default.
pub open spec fn given(o: Option<Command>) -> int {
    if o is Some {
        1
    } else {
        0
    }
}

/// Each optional setting that was given is sent exactly once, whichever other settings are
/// given, and nothing else is sent besides the remapping: the settings go out in the fixed order
/// phase lengths, contrast current, clock, display enhancements, second precharge period,
/// precharge voltage, COM deselect voltage, each at position one plus the number of given
/// settings before it in that order.
pub proof fn lemma_given_settings_sent_in_order(v: ConfigView)
    ensures
        v.commands().len() == 1 + given(v.phase_lengths_cmd) + given(v.contrast_current_cmd)
            + given(v.clock_fosc_divset_cmd) + given(v.display_enhancements_cmd) + given(
            v.second_precharge_period_cmd,
        ) + given(v.precharge_voltage_cmd) + given(v.com_deselect_voltage_cmd),
        v.commands()[0] == v.remapping(),
        v.phase_lengths_cmd matches Some(x) ==> v.commands()[1] == x && v.commands().contains(x),
        v.contrast_current_cmd matches Some(x) ==> v.commands()[1 + given(v.phase_lengths_cmd)]
            == x && v.commands().contains(x),
        v.clock_fosc_divset_cmd matches Some(x) ==> v.commands()[1 + given(v.phase_lengths_cmd)
            + given(v.contrast_current_cmd)] == x && v.commands().contains(x),
        v.display_enhancements_cmd matches Some(x) ==> v.commands()[1 + given(
            v.phase_lengths_cmd,
        ) + given(v.contrast_current_cmd) + given(v.clock_fosc_divset_cmd)] == x
            && v.commands().contains(x),
        v.second_precharge_period_cmd matches Some(x) ==> v.commands()[1 + given(
            v.phase_lengths_cmd,
        ) + given(v.contrast_current_cmd) + given(v.clock_fosc_divset_cmd) + given(
            v.display_enhancements_cmd,
        )] == x && v.commands().contains(x),
        v.precharge_voltage_cmd matches Some(x) ==> v.commands()[1 + given(v.phase_lengths_cmd)
            + given(v.contrast_current_cmd) + given(v.clock_fosc_divset_cmd) + given(
            v.display_enhancements_cmd,
        ) + given(v.second_precharge_period_cmd)] == x && v.commands().contains(x),
        v.com_deselect_voltage_cmd matches Some(x) ==> v.commands()[1 + given(
            v.phase_lengths_cmd,
        ) + given(v.contrast_current_cmd) + given(v.clock_fosc_divset_cmd) + given(
            v.display_enhancements_cmd,
        ) + given(v.second_precharge_period_cmd) + given(v.precharge_voltage_cmd)] == x
            && v.commands().contains(x),
{
    let cmds = v.commands();
    let p1 = seq![v.remapping()];
    let p2 = p1 + slot(v.phase_lengths_cmd);
    let p3 = p2 + slot(v.contrast_current_cmd);
    let p4 = p3 + slot(v.clock_fosc_divset_cmd);
    let p5 = p4 + slot(v.display_enhancements_cmd);
    let p6 = p5 + slot(v.second_precharge_period_cmd);
    let p7 = p6 + slot(v.precharge_voltage_cmd);
    let p8 = p7 + slot(v.com_deselect_voltage_cmd);
    assert(cmds == p8);
    lemma_slot_at_end(p1, v.phase_lengths_cmd);
    lemma_slot_at_end(p2, v.contrast_current_cmd);
    lemma_slot_at_end(p3, v.clock_fosc_divset_cmd);
    lemma_slot_at_end(p4, v.display_enhancements_cmd);
    lemma_slot_at_end(p5, v.second_precharge_period_cmd);
    lemma_slot_at_end(p6, v.precharge_voltage_cmd);
    lemma_slot_at_end(p7, v.com_deselect_voltage_cmd);
    if let Some(x) = v.phase_lengths_cmd {
        assert(cmds[1] == x);
    }
    if let Some(x) = v.contrast_current_cmd {
        assert(cmds[p2.len() as int] == x);
    }
    if let Some(x) = v.clock_fosc_divset_cmd {
        assert(cmds[p3.len() as int] == x);
    }
    if let Some(x) = v.display_enhancements_cmd {
        assert(cmds[p4.len() as int] == x);
    }
    if let Some(x) = v.second_precharge_period_cmd {
        assert(cmds[p5.len() as int] == x);
    }
    if let Some(x) = v.precharge_voltage_cmd {
        assert(cmds[p6.len() as int] == x);
    }
    if let Some(x) = v.com_deselect_voltage_cmd {
        assert(cmds[p7.len() as int] == x);
    }
}

/// A slot appended to `p` adds its command, if any, at position `p.len()`.
proof fn lemma_slot_at_end(p: Seq<Command>, o: Option<Command>)
    ensures
        (p + slot(o)).len() == p.len() + given(o),
        o matches Some(x) ==> (p + slot(o))[p.len() as int] == x,
        forall|i: int| 0 <= i < p.len() ==> (p + slot(o))[i] == p[i],
{
}

/// The COM scan direction and layout are always set: whatever else a configuration holds, the
/// first writes that send it are those of the remapping command, which is always in range.
pub proof fn lemma_remapping_sent_first(v: ConfigView)
    ensures
        v.commands()[0] == v.remapping(),
        v.remapping().in_range(),
        plan_writes(v.commands()).take(2) == v.remapping().spec_writes(),
{
    let cmds = v.commands();
    assert(cmds[0] == v.remapping());
    let w = v.remapping().spec_writes();
    assert(w.len() == 2);
    assert(plan_writes(cmds) == w + plan_writes(cmds.drop_first()));
    assert((w + plan_writes(cmds.drop_first())).take(2) =~= w);
}

/// A configuration for the display. Builder methods offer a declarative way to either send a
/// configuration command at init time, or to leave it at the chip's power-on default.
pub struct Config {
    com_scan_direction: ComScanDirection,
    com_layout: ComLayout,
    increment_axis: IncrementAxis,
    column_remap: ColumnRemap,
    nibble_remap: NibbleRemap,
    contrast_current_cmd: Option<Command>,
    phase_lengths_cmd: Option<Command>,
    clock_fosc_divset_cmd: Option<Command>,
    display_enhancements_cmd: Option<Command>,
    second_precharge_period_cmd: Option<Command>,
    precharge_voltage_cmd: Option<Command>,
    com_deselect_voltage_cmd: Option<Command>,
}

impl View for Config {
    type V = ConfigView;

    closed spec fn view(&self) -> ConfigView {
        ConfigView {
            com_scan_direction: self.com_scan_direction,
            com_layout: self.com_layout,
            increment_axis: self.increment_axis,
            column_remap: self.column_remap,
            nibble_remap: self.nibble_remap,
            contrast_current_cmd: self.contrast_current_cmd,
            phase_lengths_cmd: self.phase_lengths_cmd,
            clock_fosc_divset_cmd: self.clock_fosc_divset_cmd,
            display_enhancements_cmd: self.display_enhancements_cmd,
            second_precharge_period_cmd: self.second_precharge_period_cmd,
            precharge_voltage_cmd: self.precharge_voltage_cmd,
            com_deselect_voltage_cmd: self.com_deselect_voltage_cmd,
        }
    }
}

impl Config {
    #[verifier::type_invariant]
    spec fn slots_hold_their_commands(self) -> bool {
        self@.wf()
    }

    /// Create a new configuration. COM scan direction and COM layout are mandatory because the
    /// display will not function correctly unless they are set, so they must be provided here.
    /// All other options can be set by the builder methods.
    pub fn new(com_scan_direction: ComScanDirection, com_layout: ComLayout) -> (r: Self)
        ensures
            r@ == (ConfigView {
                com_scan_direction,
                com_layout,
                increment_axis: IncrementAxis::Horizontal,
                column_remap: ColumnRemap::Forward,
                nibble_remap: NibbleRemap::Forward,
                contrast_current_cmd: None,
                phase_lengths_cmd: None,
                clock_fosc_divset_cmd: None,
                display_enhancements_cmd: None,
                second_precharge_period_cmd: None,
                precharge_voltage_cmd: None,
                com_deselect_voltage_cmd: None,
            }),
            r@.wf(),
    {
        Config {
            com_scan_direction: com_scan_direction,
            com_layout: com_layout,
            increment_axis: IncrementAxis::Horizontal,
            column_remap: ColumnRemap::Forward,
            nibble_remap: NibbleRemap::Forward,
            contrast_current_cmd: None,
            phase_lengths_cmd: None,
            clock_fosc_divset_cmd: None,
            display_enhancements_cmd: None,
            second_precharge_period_cmd: None,
            precharge_voltage_cmd: None,
            com_deselect_voltage_cmd: None,
        }
    }

    /// Extend this `Config` to explicitly configure the increment axis. See
    /// `Command::SetRemapping`.
    pub fn increment_axis(self, increment_axis: IncrementAxis) -> (r: Self)
        ensures
            r@ == (ConfigView { increment_axis, ..self@ }),
            r@.wf(),
    {
        proof {
            use_type_invariant(&self);
        }
        Self { increment_axis, ..self }
    }

    /// Extend this `Config` to explicitly configure the column remapping. See
    /// `Command::SetRemapping`.
    pub fn column_remap(self, column_remap: ColumnRemap) -> (r: Self)
        ensures
            r@ == (ConfigView { column_remap: column_remap, ..self@ }),
            r@.wf(),
    {
        proof {
            use_type_invariant(&self);
        }
        Self { column_remap: column_remap, ..self }
    }

    /// Extend this `Config` to explicitly configure the nibble remapping. See
    /// `Command::SetRemapping`.
    pub fn nibble_remap(self, nibble_remap: NibbleRemap) -> (r: Self)
        ensures
            r@ == (ConfigView { nibble_remap: nibble_remap, ..self@ }),
            r@.wf(),
    {
        proof {
            use_type_invariant(&self);
        }
        Self { nibble_remap: nibble_remap, ..self }
    }

    /// Extend this `Config` to explicitly configure display contrast current. See
    /// `Command::SetContrastCurrent`.
    pub fn contrast_current(self, current: u8) -> (r: Self)
        ensures
            r@ == (ConfigView { contrast_current_cmd: Some(Command::SetContrastCurrent(current)), ..self@ }),
            r@.wf(),
    {
        proof {
            use_type_invariant(&self);
        }
        Self { contrast_current_cmd: Some(Command::SetContrastCurrent(current)), ..self }
    }

    /// Extend this `Config` to explicitly configure OLED drive phase lengths. See
    /// `Command::SetPhaseLengths`.
    pub fn phase_lengths(self, reset: u8, first_precharge: u8) -> (r: Self)
        ensures
            r@ == (ConfigView { phase_lengths_cmd: Some(Command::SetPhaseLengths(reset, first_precharge)), ..self@ }),
            r@.wf(),
    {
        proof {
            use_type_invariant(&self);
        }
        Self { phase_lengths_cmd: Some(Command::SetPhaseLengths(reset, first_precharge)), ..self }
    }

    /// Extend this `Config` to explicitly configure the display clock frequency and divider. See
    /// `Command::SetClockFoscDivset`.
    pub fn clock_fosc_divset(self, fosc: u8, divset: u8) -> (r: Self)
        ensures
            r@ == (ConfigView { clock_fosc_divset_cmd: Some(Command::SetClockFoscDivset(fosc, divset)), ..self@ }),
            r@.wf(),
    {
        proof {
            use_type_invariant(&self);
        }
        Self { clock_fosc_divset_cmd: Some(Command::SetClockFoscDivset(fosc, divset)), ..self }
    }

    /// Extend this `Config` to explicitly configure display enhancement features. See
    /// `Command::SetDisplayEnhancements`.
    pub fn display_enhancements(self, external_vsl: bool, enhanced_low_gs_quality: bool) -> (r: Self)
        ensures
            r@ == (ConfigView { display_enhancements_cmd: Some(Command::SetDisplayEnhancements(external_vsl, enhanced_low_gs_quality)), ..self@ }),
            r@.wf(),
    {
        proof {
            use_type_invariant(&self);
        }
        Self { display_enhancements_cmd: Some(Command::SetDisplayEnhancements(external_vsl, enhanced_low_gs_quality)), ..self }
    }

    /// Extend this `Config` to explicitly configure OLED drive second precharge period length.
    /// See `Command::SetSecondPrechargePeriod`.
    pub fn second_precharge_period(self, period: u8) -> (r: Self)
        ensures
            r@ == (ConfigView { second_precharge_period_cmd: Some(Command::SetSecondPrechargePeriod(period)), ..self@ }),
            r@.wf(),
    {
        proof {
            use_type_invariant(&self);
        }
        Self { second_precharge_period_cmd: Some(Command::SetSecondPrechargePeriod(period)), ..self }
    }

    /// Extend this `Config` to explicitly configure OLED drive precharge voltage. See
    /// `Command::SetPreChargeVoltage`.
    pub fn precharge_voltage(self, voltage: u8) -> (r: Self)
        ensures
            r@ == (ConfigView { precharge_voltage_cmd: Some(Command::SetPreChargeVoltage(voltage)), ..self@ }),
            r@.wf(),
    {
        proof {
            use_type_invariant(&self);
        }
        Self { precharge_voltage_cmd: Some(Command::SetPreChargeVoltage(voltage)), ..self }
    }

    /// Extend this `Config` to explicitly configure OLED drive COM deselect voltage. See
    /// `Command::SetComDeselectVoltage`.
    pub fn com_deselect_voltage(self, voltage: u8) -> (r: Self)
        ensures
            r@ == (ConfigView { com_deselect_voltage_cmd: Some(Command::SetComDeselectVoltage(voltage)), ..self@ }),
            r@.wf(),
    {
        proof {
            use_type_invariant(&self);
        }
        Self { com_deselect_voltage_cmd: Some(Command::SetComDeselectVoltage(voltage)), ..self }
    }

    /// The commands that put the display into this configuration, in the order they are sent.
    pub fn commands(&self) -> (r: Vec<Command>)
        ensures
            r@ == self@.commands(),
    {
        let mut cmds: Vec<Command> = Vec::new();
        cmds.push(Command::SetRemapping(
            self.increment_axis,
            self.column_remap,
            self.nibble_remap,
            self.com_scan_direction,
            self.com_layout,
        ));
        let ghost mut expected = seq![self@.remapping()];
        assert(cmds@ =~= expected);
        if let Some(c) = self.phase_lengths_cmd {
            cmds.push(c);
        }
        proof {
            expected = expected + slot(self.phase_lengths_cmd);
            assert(cmds@ =~= expected);
        }
        if let Some(c) = self.contrast_current_cmd {
            cmds.push(c);
        }
        proof {
            expected = expected + slot(self.contrast_current_cmd);
            assert(cmds@ =~= expected);
        }
        if let Some(c) = self.clock_fosc_divset_cmd {
            cmds.push(c);
        }
        proof {
            expected = expected + slot(self.clock_fosc_divset_cmd);
            assert(cmds@ =~= expected);
        }
        if let Some(c) = self.display_enhancements_cmd {
            cmds.push(c);
        }
        proof {
            expected = expected + slot(self.display_enhancements_cmd);
            assert(cmds@ =~= expected);
        }
        if let Some(c) = self.second_precharge_period_cmd {
            cmds.push(c);
        }
        proof {
            expected = expected + slot(self.second_precharge_period_cmd);
            assert(cmds@ =~= expected);
        }
        if let Some(c) = self.precharge_voltage_cmd {
            cmds.push(c);
        }
        proof {
            expected = expected + slot(self.precharge_voltage_cmd);
            assert(cmds@ =~= expected);
        }
        if let Some(c) = self.com_deselect_voltage_cmd {
            cmds.push(c);
        }
        proof {
            expected = expected + slot(self.com_deselect_voltage_cmd);
            assert(cmds@ =~= expected);
        }
        cmds
    }

    /// The transmission that sends this configuration: the writes of its commands in order, up
    /// to the first command with an argument out of range.
    pub fn transmission(&self) -> (r: Transmission)
        ensures
            r.planned() == plan_writes(self@.commands()),
            r.complete() == all_in_range(self@.commands()),
            r.issued() == 0,
            !r.finished(),
    {
        let cmds = self.commands();
        Transmission::new(cmds.as_slice())
    }

    /// Transmit commands to the display at `iface` necessary to put that display into the
    /// configuration encoded in `self`. The writes of the commands reach the interface in order;
    /// sending stops at the first write the interface fails (nothing is written after it), and
    /// before the first command with an argument out of range.
    pub fn send<DI: DisplayInterface>(&self, iface: &mut DI) -> (r: Result<
        (),
        CommandError<DI::Error>,
    >)
        ensures
            r is Ok ==> all_in_range(self@.commands()) && final(iface).sent_log() == old(
                iface,
            ).sent_log() + plan_writes(self@.commands()),
            r matches Err(CommandError::OutOfRange) ==> !all_in_range(self@.commands())
                && final(iface).sent_log() == old(iface).sent_log() + plan_writes(
                self@.commands(),
            ),
            r matches Err(CommandError::InterfaceError(_)) ==> exists|k: int|
                0 <= k < plan_writes(self@.commands()).len() && (final(iface).sent_log() == old(
                    iface,
                ).sent_log() + #[trigger] plan_writes(self@.commands()).take(k)
                    || final(iface).sent_log() == old(iface).sent_log() + plan_writes(
                    self@.commands(),
                ).take(k + 1)),
            !all_in_range(self@.commands()) ==> r is Err,
            old(iface).accepts_all() ==> final(iface).accepts_all() && !(r matches Err(
                CommandError::InterfaceError(_),
            )),
    {
        let ghost start = iface.sent_log();
        let ghost plan = plan_writes(self@.commands());
        let ghost accepting = iface.accepts_all();
        let mut t = self.transmission();
        let mut outcome: Result<(), DI::Error> = Ok(());
        assert(start + plan.take(0) =~= start);
        loop
            invariant
                !t.finished(),
                t.complete() == all_in_range(self@.commands()),
                t.planned() == plan,
                t.issued() <= plan.len(),
                plan == plan_writes(self@.commands()),
                start == old(iface).sent_log(),
                accepting == old(iface).accepts_all(),
                outcome is Ok ==> iface.sent_log() == start + plan.take(t.issued() as int),
                outcome is Err ==> t.issued() >= 1 && (iface.sent_log() == start + plan.take(
                    t.issued() - 1,
                ) || iface.sent_log() == start + plan.take(t.issued() as int)),
                accepting ==> outcome is Ok && iface.accepts_all(),
            decreases plan.len() - t.issued(),
        {
            let ghost before = iface.sent_log();
            let ghost issued: int = t.issued() as int;
            match t.advance(outcome) {
                Step::Write(w) => {
                    outcome = match w {
                        Sent::Cmd(c) => iface.send_command(c),
                        Sent::Data(d) => iface.send_data(d.as_slice()),
                    };
                    proof {
                        assert(plan.take(issued + 1int) =~= plan.take(issued).push(
                            plan[issued],
                        ));
                        assert(t.issued() - 1 == issued);
                    }
                },
                Step::Finish(r) => {
                    proof {
                        if outcome is Ok {
                            assert(plan.take(plan.len() as int) =~= plan);
                        } else {
                            let k = issued - 1;
                            assert(plan.take(k + 1) == plan.take(issued));
                            assert(0 <= k < plan_writes(self@.commands()).len());
                            assert(iface.sent_log() == start + plan_writes(self@.commands()).take(k)
                                || iface.sent_log() == start + plan_writes(self@.commands()).take(
                                k + 1,
                            ));
                            assert(exists|j: int|
                                0 <= j < plan_writes(self@.commands()).len() && (iface.sent_log()
                                    == start + #[trigger] plan_writes(self@.commands()).take(j)
                                    || iface.sent_log() == start + plan_writes(
                                    self@.commands(),
                                ).take(j + 1)));
                        }
                    }
                    return r;
                },
            }
        }
    }
}

} // verus!
