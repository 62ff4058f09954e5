//! The command protocol of a Macronix octal-SPI NOR flash: the transfers
//! that make up each operation, and how the status register is read.
//!
//! The driver executes the steps of a plan in order on the OCTOSPI
//! peripheral: a poll step reads the status register until its condition
//! holds, waiting a millisecond between reads.
use vstd::prelude::*;

verus! {

/// Read the status register (single-line mode).
pub const READ_STATUS_REG_CMD: u32 = 0x05;

/// Set the write-enable latch (single-line mode).
pub const WRITE_ENABLE_CMD: u32 = 0x06;

/// Write configuration register 2 (single-line mode).
pub const WRITE_CFG_REG_2_CMD: u32 = 0x72;

/// Read the status register (octal mode).
pub const OCTAL_READ_STATUS_REG_CMD: u32 = 0x05FA;

/// Set the write-enable latch (octal mode).
pub const OCTAL_WRITE_ENABLE_CMD: u32 = 0x06F9;

/// Read with double transfer rate (octal mode).
pub const OCTAL_IO_DTR_READ_CMD: u32 = 0xEE11;

/// Erase a 32 KiB block (octal mode).
pub const OCTAL_32KB_BLOCK_ERASE_CMD: u32 = 0x52AD;

/// Program a page (octal mode).
pub const OCTAL_PAGE_PROG_CMD: u32 = 0x12ED;

/// Value written to configuration register 2 to switch to octal DTR mode.
pub const OCTAL_DTR_MODE_CFG: u8 = 0x2;

/// Status register bit: the write-enable latch is set.
pub const STATUS_WRITE_ENABLE_LATCH: u8 = 0x02;

/// Status register bit: a write or erase is in progress.
pub const STATUS_WRITE_IN_PROGRESS: u8 = 0x01;

/// Number of lines a transfer phase uses.
#[derive(Clone, Copy, Debug, PartialEq, Eq, Structural)]
pub enum OspiWidth {
    Off,
    Single,
    Dual,
    Quad,
    Octo,
}

/// Size of an instruction, address or alternate-bytes phase.
#[derive(Clone, Copy, Debug, PartialEq, Eq, Structural)]
pub enum AddressSize {
    Bits8,
    Bits16,
    Bits24,
    Bits32,
}

/// One OCTOSPI transfer: its instruction, address, alternate-bytes and data
/// phases, and the dummy cycles before the data.
#[derive(Clone, Copy, Debug, PartialEq, Eq, Structural)]
pub struct TransferSpec {
    pub iwidth: OspiWidth,
    pub instruction: Option<u32>,
    pub isize: AddressSize,
    pub idtr: bool,
    pub adwidth: OspiWidth,
    pub address: Option<u32>,
    pub adsize: AddressSize,
    pub addtr: bool,
    pub abwidth: OspiWidth,
    pub alternate_bytes: Option<u32>,
    pub absize: AddressSize,
    pub abdtr: bool,
    pub dwidth: OspiWidth,
    pub ddtr: bool,
    pub dummy_cycles: u8,
    pub dqse: bool,
    pub sioo: bool,
}

/// A condition on the first status byte that a poll waits for.
#[derive(Clone, Copy, Debug, PartialEq, Eq, Structural)]
pub enum StatusCondition {
    /// The write-enable latch is set.
    WriteEnabled,
    /// No write or erase is in progress.
    MemoryReady,
}

/// What a plan writes in a data phase.
#[derive(Clone, Copy, Debug, PartialEq, Eq, Structural)]
pub enum Payload {
    /// This one byte.
    Byte(u8),
    /// The buffer the operation was given.
    Buffer,
}

/// One step of an operation on the chip.
#[derive(Clone, Copy, Debug, PartialEq, Eq, Structural)]
pub enum OspiStep {
    /// A transfer without data phase.
    Command(TransferSpec),
    /// A transfer that writes `payload`.
    Write(TransferSpec, Payload),
    /// Read `status_len` status bytes with `read` until `until` holds.
    Poll { read: TransferSpec, status_len: usize, until: StatusCondition },
    /// Wait this many milliseconds.
    Wait(u64),
    /// Switch to memory-mapped mode with these read and write transfers.
    MemoryMapped { read: TransferSpec, write: TransferSpec },
}

/// What the driver does next while running a plan.
#[derive(Clone, Copy, Debug, PartialEq, Eq, Structural)]
pub enum ExecRequest {
    /// Perform this step (never a poll).
    Perform(OspiStep),
    /// Read `status_len` status bytes with `read`.
    ReadStatus { read: TransferSpec, status_len: usize },
    /// Wait this many milliseconds before reading the status again.
    Pause(u64),
    /// The plan is over: `true` when every step succeeded.
    Finished(bool),
}

/// How the last request went.
#[derive(Clone, Copy, Debug, PartialEq, Eq, Structural)]
pub enum ExecOutcome {
    /// The step or the pause completed.
    Done,
    /// The transfer failed.
    Failed,
    /// The status read completed; this is its first byte.
    Status(u8),
}

/// The mathematical content of a [`PlanRun`].
pub struct PlanRunView {
    pub plan: Seq<OspiStep>,
    pub index: nat,
    pub retrying: bool,
    pub failed: bool,
}

impl PlanRunView {
    /// What the driver has to do next: nothing more after a failure or once
    /// every step is done; wait a millisecond before reading a status again;
    /// read the status for a poll step; otherwise perform the current step.
    pub open spec fn request(self) -> ExecRequest {
        if self.failed {
            ExecRequest::Finished(false)
        } else if self.index >= self.plan.len() {
            ExecRequest::Finished(true)
        } else if self.retrying {
            ExecRequest::Pause(1)
        } else {
            match self.plan[self.index as int] {
                OspiStep::Poll { read, status_len, .. } => ExecRequest::ReadStatus { read, status_len },
                step => ExecRequest::Perform(step),
            }
        }
    }

    /// The run after `outcome`: a failure ends it; a completed step moves
    /// on to the next one; a completed pause leads to another status read;
    /// a status read moves on when the poll's condition holds, and otherwise
    /// pauses and polls again.  An outcome that does not answer the current
    /// request changes nothing.
    pub open spec fn after(self, outcome: ExecOutcome) -> PlanRunView {
        if self.failed || self.index >= self.plan.len() {
            self
        } else {
            match outcome {
                ExecOutcome::Failed => PlanRunView { failed: true, ..self },
                ExecOutcome::Done => if self.retrying {
                    PlanRunView { retrying: false, ..self }
                } else if self.plan[self.index as int] is Poll {
                    self
                } else {
                    PlanRunView { index: self.index + 1, ..self }
                },
                ExecOutcome::Status(b) => if self.retrying {
                    self
                } else {
                    match self.plan[self.index as int] {
                        OspiStep::Poll { until, .. } => if status_holds(until, b) {
                            PlanRunView { index: self.index + 1, ..self }
                        } else {
                            PlanRunView { retrying: true, ..self }
                        },
                        _ => self,
                    }
                },
            }
        }
    }
}

/// A plan being run on the chip.
pub struct PlanRun {
    pub plan: Vec<OspiStep>,
    pub index: usize,
    pub retrying: bool,
    pub failed: bool,
}

impl View for PlanRun {
    type V = PlanRunView;

    open spec fn view(&self) -> PlanRunView {
        PlanRunView {
            plan: self.plan@,
            index: self.index as nat,
            retrying: self.retrying,
            failed: self.failed,
        }
    }
}

impl PlanRun {
    /// A run of `plan` from its first step.
    pub fn new(plan: Vec<OspiStep>) -> (r: Self)
        ensures
            r@ == (PlanRunView { plan: plan@, index: 0, retrying: false, failed: false }),
    {
        PlanRun { plan, index: 0, retrying: false, failed: false }
    }

    /// What the driver has to do next.
    pub fn request(&self) -> (r: ExecRequest)
        ensures
            r == self@.request(),
            self.failed ==> r == ExecRequest::Finished(false),
            !self.failed && !self.retrying && self.index < self.plan@.len() && !(
            self.plan@[self.index as int] is Poll) ==> r == ExecRequest::Perform(
                self.plan@[self.index as int],
            ),
    {
        if self.failed {
            ExecRequest::Finished(false)
        } else if self.index >= self.plan.len() {
            ExecRequest::Finished(true)
        } else if self.retrying {
            ExecRequest::Pause(1)
        } else {
            match self.plan[self.index] {
                OspiStep::Poll { read, status_len, .. } => ExecRequest::ReadStatus { read, status_len },
                step => ExecRequest::Perform(step),
            }
        }
    }

    /// Records how the last request went.
    pub fn record(&mut self, outcome: ExecOutcome)
        ensures
            final(self)@ == old(self)@.after(outcome),
            final(self).plan@ == old(self).plan@,
            old(self).failed ==> final(self).failed,
            outcome == ExecOutcome::Failed && old(self).index < old(self).plan@.len()
                ==> final(self).failed,
    {
        if self.failed || self.index >= self.plan.len() {
            return;
        }
        match outcome {
            ExecOutcome::Failed => {
                self.failed = true;
            },
            ExecOutcome::Done => {
                if self.retrying {
                    self.retrying = false;
                } else if let OspiStep::Poll { .. } = self.plan[self.index] {
                } else {
                    self.index = self.index + 1;
                }
            },
            ExecOutcome::Status(b) => {
                if !self.retrying {
                    if let OspiStep::Poll { until, .. } = self.plan[self.index] {
                        if status_satisfies(until, b) {
                            self.index = self.index + 1;
                        } else {
                            self.retrying = true;
                        }
                    }
                }
            },
        }
    }
}

/// Running a plan stops at the first failure, takes the steps in order, and
/// leaves a poll only when the status read satisfies its condition: after
/// a failure the run is over (unsuccessfully) and stays so; no outcome moves
/// the run back or skips a step; a poll step is passed only by a status
/// read that satisfies its condition, and a status that does not is
/// followed by a one-millisecond pause and another read; a run reports
/// success only once every step has completed without failure.
pub proof fn lemma_plan_run_laws(r: PlanRunView, outcome: ExecOutcome)
    ensures
        r.failed ==> r.request() == ExecRequest::Finished(false) && r.after(outcome) == r,
        r.index <= r.after(outcome).index <= r.index + 1,
        r.after(outcome).plan == r.plan,
        r.after(outcome).index == r.index + 1 && r.index < r.plan.len() ==> match r.plan[r.index as int] {
            OspiStep::Poll { until, .. } => outcome matches ExecOutcome::Status(b) && status_holds(until, b),
            _ => outcome == ExecOutcome::Done,
        },
        !r.failed && r.index < r.plan.len() && !r.retrying && (r.plan[r.index as int] matches OspiStep::Poll {
            until,
            ..
        } && outcome matches ExecOutcome::Status(b) && !status_holds(until, b)) ==> r.after(outcome).request()
            == ExecRequest::Pause(1),
        r.request() == ExecRequest::Finished(true) <==> !r.failed && r.index >= r.plan.len(),
{
}

/// A failing transfer ends a plan: whatever the current step (a command, a
/// write, a wait, a status read or a switch to memory-mapped mode), a run
/// that is still going and is told its last request failed is failed from
/// then on, asks for nothing more and reports failure, and stays at the
/// step that failed.
pub proof fn lemma_failure_ends_plan(r: PlanRunView)
    requires
        !r.failed,
        r.index < r.plan.len(),
    ensures
        r.after(ExecOutcome::Failed).failed,
        r.after(ExecOutcome::Failed).index == r.index,
        r.after(ExecOutcome::Failed).request() == ExecRequest::Finished(false),
        forall|o: ExecOutcome| r.after(ExecOutcome::Failed).after(o).request() == ExecRequest::Finished(false),
{
}

/// A run asks for the current step exactly as the plan gives it: a step
/// that is not a poll is performed unchanged (a write keeps its transfer and
/// its payload), a poll step is run as a read of its status bytes with its
/// own transfer, after a failure nothing more is asked, and after the last
/// step success is reported.
pub proof fn lemma_request_follows_plan(r: PlanRunView)
    ensures
        !r.failed && !r.retrying && r.index < r.plan.len() && !(r.plan[r.index as int] is Poll)
            ==> r.request() == ExecRequest::Perform(r.plan[r.index as int]),
        !r.failed && !r.retrying && r.index < r.plan.len() ==> (r.plan[r.index as int] matches OspiStep::Poll {
            read,
            status_len,
            ..
        } ==> r.request() == (ExecRequest::ReadStatus { read, status_len })),
        !r.failed && r.index < r.plan.len() && r.retrying ==> r.request() == ExecRequest::Pause(1),
        r.failed ==> r.request() == ExecRequest::Finished(false),
        !r.failed && r.index >= r.plan.len() ==> r.request() == ExecRequest::Finished(true),
        forall|t: TransferSpec, p: Payload|
            !r.failed && !r.retrying && r.index < r.plan.len() && r.plan[r.index as int] == OspiStep::Write(t, p)
                ==> #[trigger] r.request() == ExecRequest::Perform(OspiStep::Write(t, p)),
{
}

/// A completed step moves a run to the next step, and a completed pause
/// leads back to reading the status of the same poll.
pub proof fn lemma_completion_advances(r: PlanRunView)
    requires
        !r.failed,
        r.index < r.plan.len(),
    ensures
        !r.retrying && !(r.plan[r.index as int] is Poll) ==> r.after(ExecOutcome::Done).index == r.index
            + 1 && !r.after(ExecOutcome::Done).failed && !r.after(ExecOutcome::Done).retrying,
        r.retrying ==> r.after(ExecOutcome::Done).index == r.index && !r.after(ExecOutcome::Done).retrying
            && !r.after(ExecOutcome::Done).failed,
{
}

/// The status bits: writes are enabled exactly when bit 1 of the first
/// status byte is set, and the chip is ready exactly when bit 0 is clear.
pub proof fn lemma_status_bits(status: u8)
    ensures
        status_holds(StatusCondition::WriteEnabled, status) <==> (status / 2) % 2 == 1,
        status_holds(StatusCondition::MemoryReady, status) <==> status % 2 == 0,
{
    assert((status & 2u8 == 2u8) <==> (status / 2) % 2 == 1) by (bit_vector);
    assert((status & 1u8 == 0u8) <==> status % 2 == 0) by (bit_vector);
}

/// A poll moves on exactly when its status read satisfies its condition.
pub proof fn lemma_poll_advances_on_status(r: PlanRunView, b: u8)
    requires
        !r.failed,
        !r.retrying,
        r.index < r.plan.len(),
        r.plan[r.index as int] is Poll,
    ensures
        (r.after(ExecOutcome::Status(b)).index == r.index + 1) <==> status_holds(
            r.plan[r.index as int]->until,
            b,
        ),
        !r.after(ExecOutcome::Status(b)).failed,
{
}

/// Whether `status` satisfies `condition`.
pub open spec fn status_holds(condition: StatusCondition, status: u8) -> bool {
    match condition {
        StatusCondition::WriteEnabled => status & STATUS_WRITE_ENABLE_LATCH == STATUS_WRITE_ENABLE_LATCH,
        StatusCondition::MemoryReady => status & STATUS_WRITE_IN_PROGRESS == 0,
    }
}

/// Whether the first status byte read by a poll satisfies its condition.
pub fn status_satisfies(condition: StatusCondition, status: u8) -> (r: bool)
    ensures
        r == status_holds(condition, status),
{
    match condition {
        StatusCondition::WriteEnabled => (status & STATUS_WRITE_ENABLE_LATCH) == STATUS_WRITE_ENABLE_LATCH,
        StatusCondition::MemoryReady => (status & STATUS_WRITE_IN_PROGRESS) == 0,
    }
}

/// A transfer with nothing in it: every phase off, single data rate.
pub open spec fn blank_transfer() -> TransferSpec {
    TransferSpec {
        iwidth: OspiWidth::Off,
        instruction: None,
        isize: AddressSize::Bits8,
        idtr: false,
        adwidth: OspiWidth::Off,
        address: None,
        adsize: AddressSize::Bits8,
        addtr: false,
        abwidth: OspiWidth::Off,
        alternate_bytes: None,
        absize: AddressSize::Bits8,
        abdtr: false,
        dwidth: OspiWidth::Off,
        ddtr: false,
        dummy_cycles: 0,
        dqse: false,
        sioo: false,
    }
}

/// Set the write-enable latch, in single-line mode: instruction 0x06 on one
/// line, nothing else.
#[verifier::allow_in_spec]
pub fn write_enable_single() -> TransferSpec
    returns
        (TransferSpec {
            iwidth: OspiWidth::Single,
            instruction: Some(WRITE_ENABLE_CMD),
            ..blank_transfer()
        }),
{
    TransferSpec {
        iwidth: OspiWidth::Single,
        instruction: Some(WRITE_ENABLE_CMD),
        isize: AddressSize::Bits8,
        idtr: false,
        adwidth: OspiWidth::Off,
        address: None,
        adsize: AddressSize::Bits8,
        addtr: false,
        abwidth: OspiWidth::Off,
        alternate_bytes: None,
        absize: AddressSize::Bits8,
        abdtr: false,
        dwidth: OspiWidth::Off,
        ddtr: false,
        dummy_cycles: 0,
        dqse: false,
        sioo: false,
    }
}

/// Read the status register in single-line mode: instruction 0x05 on one
/// line, data on one line.
#[verifier::allow_in_spec]
pub fn read_status_single() -> TransferSpec
    returns
        (TransferSpec {
            iwidth: OspiWidth::Single,
            instruction: Some(READ_STATUS_REG_CMD),
            dwidth: OspiWidth::Single,
            ..blank_transfer()
        }),
{
    TransferSpec {
        iwidth: OspiWidth::Single,
        instruction: Some(READ_STATUS_REG_CMD),
        isize: AddressSize::Bits8,
        idtr: false,
        adwidth: OspiWidth::Off,
        address: None,
        adsize: AddressSize::Bits8,
        addtr: false,
        abwidth: OspiWidth::Off,
        alternate_bytes: None,
        absize: AddressSize::Bits8,
        abdtr: false,
        dwidth: OspiWidth::Single,
        ddtr: false,
        dummy_cycles: 0,
        dqse: false,
        sioo: false,
    }
}

/// Write configuration register 2 in single-line mode: instruction 0x72 and
/// the 32-bit register address 0 on one line, data on one line.
#[verifier::allow_in_spec]
pub fn write_cfg_reg_2_single() -> TransferSpec
    returns
        (TransferSpec {
            iwidth: OspiWidth::Single,
            instruction: Some(WRITE_CFG_REG_2_CMD),
            adwidth: OspiWidth::Single,
            address: Some(0u32),
            adsize: AddressSize::Bits32,
            dwidth: OspiWidth::Single,
            ..blank_transfer()
        }),
{
    TransferSpec {
        iwidth: OspiWidth::Single,
        instruction: Some(WRITE_CFG_REG_2_CMD),
        isize: AddressSize::Bits8,
        idtr: false,
        adwidth: OspiWidth::Single,
        address: Some(0),
        adsize: AddressSize::Bits32,
        addtr: false,
        abwidth: OspiWidth::Off,
        alternate_bytes: None,
        absize: AddressSize::Bits8,
        abdtr: false,
        dwidth: OspiWidth::Single,
        ddtr: false,
        dummy_cycles: 0,
        dqse: false,
        sioo: false,
    }
}

/// An octal transfer whose 16-bit instruction is sent at double rate.
pub open spec fn octal_instruction(instruction: u32) -> TransferSpec {
    TransferSpec {
        iwidth: OspiWidth::Octo,
        instruction: Some(instruction),
        isize: AddressSize::Bits16,
        idtr: true,
        ..blank_transfer()
    }
}

/// Set the write-enable latch in octal DTR mode: instruction 0x06F9, nothing
/// else.
#[verifier::allow_in_spec]
pub fn write_enable_octal() -> TransferSpec
    returns
        octal_instruction(OCTAL_WRITE_ENABLE_CMD),
{
    TransferSpec {
        iwidth: OspiWidth::Octo,
        instruction: Some(OCTAL_WRITE_ENABLE_CMD),
        isize: AddressSize::Bits16,
        idtr: true,
        adwidth: OspiWidth::Off,
        address: None,
        adsize: AddressSize::Bits8,
        addtr: false,
        abwidth: OspiWidth::Off,
        alternate_bytes: None,
        absize: AddressSize::Bits8,
        abdtr: false,
        dwidth: OspiWidth::Off,
        ddtr: false,
        dummy_cycles: 0,
        dqse: false,
        sioo: false,
    }
}

/// Read the status register in octal DTR mode: instruction 0x05FA, the
/// 32-bit address 0 at double rate, `dummy_cycles` dummy cycles, then data at
/// double rate with data strobe.
#[verifier::allow_in_spec]
pub fn read_status_octal(dummy_cycles: u8) -> TransferSpec
    returns
        (TransferSpec {
            adwidth: OspiWidth::Octo,
            address: Some(0u32),
            adsize: AddressSize::Bits32,
            addtr: true,
            dwidth: OspiWidth::Octo,
            ddtr: true,
            dummy_cycles,
            dqse: true,
            ..octal_instruction(OCTAL_READ_STATUS_REG_CMD)
        }),
{
    TransferSpec {
        iwidth: OspiWidth::Octo,
        instruction: Some(OCTAL_READ_STATUS_REG_CMD),
        isize: AddressSize::Bits16,
        idtr: true,
        adwidth: OspiWidth::Octo,
        address: Some(0),
        adsize: AddressSize::Bits32,
        addtr: true,
        abwidth: OspiWidth::Off,
        alternate_bytes: None,
        absize: AddressSize::Bits8,
        abdtr: false,
        dwidth: OspiWidth::Octo,
        ddtr: true,
        dummy_cycles,
        dqse: true,
        sioo: false,
    }
}

/// Erase the 32 KiB block at `addr`: instruction 0x52AD, then the 32-bit
/// address at double rate, no data.
#[verifier::allow_in_spec]
pub fn block_erase(addr: u32) -> TransferSpec
    returns
        (TransferSpec {
            adwidth: OspiWidth::Octo,
            address: Some(addr),
            adsize: AddressSize::Bits32,
            addtr: true,
            ..octal_instruction(OCTAL_32KB_BLOCK_ERASE_CMD)
        }),
{
    TransferSpec {
        iwidth: OspiWidth::Octo,
        instruction: Some(OCTAL_32KB_BLOCK_ERASE_CMD),
        isize: AddressSize::Bits16,
        idtr: true,
        adwidth: OspiWidth::Octo,
        address: Some(addr),
        adsize: AddressSize::Bits32,
        addtr: true,
        abwidth: OspiWidth::Off,
        alternate_bytes: None,
        absize: AddressSize::Bits8,
        abdtr: false,
        dwidth: OspiWidth::Off,
        ddtr: false,
        dummy_cycles: 0,
        dqse: false,
        sioo: false,
    }
}

/// Program the page at `addr`: instruction 0x12ED, the 32-bit address at
/// double rate, then data at double rate with data strobe.
#[verifier::allow_in_spec]
pub fn page_program(addr: u32) -> TransferSpec
    returns
        (TransferSpec {
            adwidth: OspiWidth::Octo,
            address: Some(addr),
            adsize: AddressSize::Bits32,
            addtr: true,
            dwidth: OspiWidth::Octo,
            ddtr: true,
            dqse: true,
            ..octal_instruction(OCTAL_PAGE_PROG_CMD)
        }),
{
    TransferSpec {
        iwidth: OspiWidth::Octo,
        instruction: Some(OCTAL_PAGE_PROG_CMD),
        isize: AddressSize::Bits16,
        idtr: true,
        adwidth: OspiWidth::Octo,
        address: Some(addr),
        adsize: AddressSize::Bits32,
        addtr: true,
        abwidth: OspiWidth::Off,
        alternate_bytes: None,
        absize: AddressSize::Bits8,
        abdtr: false,
        dwidth: OspiWidth::Octo,
        ddtr: true,
        dummy_cycles: 0,
        dqse: true,
        sioo: false,
    }
}

/// The write transfer of memory-mapped mode: no instruction, 32-bit
/// addresses and data at double rate with data strobe.
#[verifier::allow_in_spec]
pub fn memory_mapped_write() -> TransferSpec
    returns
        (TransferSpec {
            iwidth: OspiWidth::Octo,
            isize: AddressSize::Bits16,
            idtr: true,
            adsize: AddressSize::Bits32,
            addtr: true,
            dwidth: OspiWidth::Octo,
            ddtr: true,
            dqse: true,
            ..blank_transfer()
        }),
{
    TransferSpec {
        iwidth: OspiWidth::Octo,
        instruction: None,
        isize: AddressSize::Bits16,
        idtr: true,
        adwidth: OspiWidth::Off,
        address: None,
        adsize: AddressSize::Bits32,
        addtr: true,
        abwidth: OspiWidth::Off,
        alternate_bytes: None,
        absize: AddressSize::Bits8,
        abdtr: false,
        dwidth: OspiWidth::Octo,
        ddtr: true,
        dummy_cycles: 0,
        dqse: true,
        sioo: false,
    }
}

/// The read transfer of memory-mapped mode: instruction 0xEE11, 32-bit
/// addresses at double rate, `dummy_cycles` dummy cycles, data at double rate
/// with data strobe.
#[verifier::allow_in_spec]
pub fn memory_mapped_read(dummy_cycles: u8) -> TransferSpec
    returns
        (TransferSpec {
            adwidth: OspiWidth::Octo,
            adsize: AddressSize::Bits32,
            addtr: true,
            dwidth: OspiWidth::Octo,
            ddtr: true,
            dummy_cycles,
            dqse: true,
            ..octal_instruction(OCTAL_IO_DTR_READ_CMD)
        }),
{
    TransferSpec {
        iwidth: OspiWidth::Octo,
        instruction: Some(OCTAL_IO_DTR_READ_CMD),
        isize: AddressSize::Bits16,
        idtr: true,
        adwidth: OspiWidth::Octo,
        address: None,
        adsize: AddressSize::Bits32,
        addtr: true,
        abwidth: OspiWidth::Off,
        alternate_bytes: None,
        absize: AddressSize::Bits8,
        abdtr: false,
        dwidth: OspiWidth::Octo,
        ddtr: true,
        dummy_cycles,
        dqse: true,
        sioo: false,
    }
}

/// Switching the chip to octal DTR mode: set the write-enable latch in
/// single-line mode and wait until the status register shows it, write the
/// mode value to configuration register 2, then let the chip settle for
/// 40 ms.
pub fn enable_octal_dtr_mode_plan() -> (plan: Vec<OspiStep>)
    ensures
        plan@ == seq![
            OspiStep::Command(write_enable_single()),
            OspiStep::Poll {
                read: read_status_single(),
                status_len: 1,
                until: StatusCondition::WriteEnabled,
            },
            OspiStep::Write(write_cfg_reg_2_single(), Payload::Byte(OCTAL_DTR_MODE_CFG)),
            OspiStep::Wait(40),
        ],
{
    let mut plan: Vec<OspiStep> = Vec::new();
    plan.push(OspiStep::Command(write_enable_single()));
    plan.push(
        OspiStep::Poll {
            read: read_status_single(),
            status_len: 1,
            until: StatusCondition::WriteEnabled,
        },
    );
    plan.push(OspiStep::Write(write_cfg_reg_2_single(), Payload::Byte(OCTAL_DTR_MODE_CFG)));
    plan.push(OspiStep::Wait(40));
    assert(plan@ =~= seq![
        OspiStep::Command(write_enable_single()),
        OspiStep::Poll {
            read: read_status_single(),
            status_len: 1,
            until: StatusCondition::WriteEnabled,
        },
        OspiStep::Write(write_cfg_reg_2_single(), Payload::Byte(OCTAL_DTR_MODE_CFG)),
        OspiStep::Wait(40),
    ]);
    plan
}

/// The steps that set the write-enable latch in octal mode: the command,
/// then a poll of the two status bytes until the latch shows.
pub open spec fn octal_write_enable_steps(dummy_cycles: u8) -> Seq<OspiStep> {
    seq![
        OspiStep::Command(write_enable_octal()),
        OspiStep::Poll {
            read: read_status_octal(dummy_cycles),
            status_len: 2,
            until: StatusCondition::WriteEnabled,
        },
    ]
}

/// Erasing the block at `addr`: enable writes, send the erase, then poll the
/// status until the chip is no longer busy.
pub fn erase_plan(addr: u32, dummy_cycles: u8) -> (plan: Vec<OspiStep>)
    ensures
        plan@ == octal_write_enable_steps(dummy_cycles) + seq![
            OspiStep::Command(block_erase(addr)),
            OspiStep::Poll {
                read: read_status_octal(dummy_cycles),
                status_len: 2,
                until: StatusCondition::MemoryReady,
            },
        ],
{
    let mut plan: Vec<OspiStep> = Vec::new();
    plan.push(OspiStep::Command(write_enable_octal()));
    plan.push(
        OspiStep::Poll {
            read: read_status_octal(dummy_cycles),
            status_len: 2,
            until: StatusCondition::WriteEnabled,
        },
    );
    plan.push(OspiStep::Command(block_erase(addr)));
    plan.push(
        OspiStep::Poll {
            read: read_status_octal(dummy_cycles),
            status_len: 2,
            until: StatusCondition::MemoryReady,
        },
    );
    assert(plan@ =~= octal_write_enable_steps(dummy_cycles) + seq![
        OspiStep::Command(block_erase(addr)),
        OspiStep::Poll {
            read: read_status_octal(dummy_cycles),
            status_len: 2,
            until: StatusCondition::MemoryReady,
        },
    ]);
    plan
}

/// Programming the page at `addr` with the given buffer: enable writes, send
/// the program transfer with the buffer, then poll the status until the
/// chip is no longer busy.
pub fn write_plan(addr: u32, dummy_cycles: u8) -> (plan: Vec<OspiStep>)
    ensures
        plan@ == octal_write_enable_steps(dummy_cycles) + seq![
            OspiStep::Write(page_program(addr), Payload::Buffer),
            OspiStep::Poll {
                read: read_status_octal(dummy_cycles),
                status_len: 2,
                until: StatusCondition::MemoryReady,
            },
        ],
{
    let mut plan: Vec<OspiStep> = Vec::new();
    plan.push(OspiStep::Command(write_enable_octal()));
    plan.push(
        OspiStep::Poll {
            read: read_status_octal(dummy_cycles),
            status_len: 2,
            until: StatusCondition::WriteEnabled,
        },
    );
    plan.push(OspiStep::Write(page_program(addr), Payload::Buffer));
    plan.push(
        OspiStep::Poll {
            read: read_status_octal(dummy_cycles),
            status_len: 2,
            until: StatusCondition::MemoryReady,
        },
    );
    assert(plan@ =~= octal_write_enable_steps(dummy_cycles) + seq![
        OspiStep::Write(page_program(addr), Payload::Buffer),
        OspiStep::Poll {
            read: read_status_octal(dummy_cycles),
            status_len: 2,
            until: StatusCondition::MemoryReady,
        },
    ]);
    plan
}

/// Mapping the chip into the address space: switch to memory-mapped mode
/// with the DTR read and write transfers, then wait 1 ms.
pub fn memory_mapped_plan(dummy_cycles: u8) -> (plan: Vec<OspiStep>)
    ensures
        plan@ == seq![
            OspiStep::MemoryMapped { read: memory_mapped_read(dummy_cycles), write: memory_mapped_write() },
            OspiStep::Wait(1),
        ],
{
    let mut plan: Vec<OspiStep> = Vec::new();
    plan.push(
        OspiStep::MemoryMapped { read: memory_mapped_read(dummy_cycles), write: memory_mapped_write() },
    );
    plan.push(OspiStep::Wait(1));
    assert(plan@ =~= seq![
        OspiStep::MemoryMapped { read: memory_mapped_read(dummy_cycles), write: memory_mapped_write() },
        OspiStep::Wait(1),
    ]);
    plan
}

} // verus!
