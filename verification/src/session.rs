//! The CAN / FDCAN flashing session as a state machine.
//!
//! The board waits for a host request addressed to it, learns the size of the
//! application, erases the flash it will occupy, and then receives the
//! application sector by sector: each sector is assembled from seven-byte
//! data messages, written to flash when complete, and acknowledged.  The
//! host may restart the sector being received, and ends the session with a
//! finish message.
//!
//! The driver outside this module reads frames, waits, and performs the
//! actions that each step returns, in order.
use crate::can::{
    BeginCanFlashingMessage, FlashDataMessage, FlashFinishMessage, RevertSectorMessage,
    FLASH_DATA_CHUNK_LEN,
};
use crate::erase::{
    app_erase_end, app_erase_range, app_erase_range_fits, app_erase_range_fits_exec,
    erase_block_addresses, erase_block_count, erase_blocks_fit, erase_blocks_fit_exec,
};
use crate::frame::{CanFrame, CanId};
use crate::sector::{with_chunk, FlashSectorToWrite, FLASH_SECTOR_WRITE_SIZE, MESSAGES_PER_SECTOR};
use vstd::prelude::*;

verus! {

/// The CAN peripheral family, which decides the form of the flash
/// information message.
#[derive(Clone, Copy, Debug, PartialEq, Eq, Structural)]
pub enum Bus {
    /// Classic bxCAN: sectors are always 32 messages of 7 bytes.
    Can,
    /// FDCAN: the flash information tells the number of messages per sector.
    FdCan,
}

/// Where the application is written.
#[derive(Clone, Copy, Debug, PartialEq, Eq, Structural)]
pub enum FlashTarget {
    /// The microcontroller's own flash, after the bootloader.
    Internal { bootloader_size: u32, flash_size: u32 },
    /// An external flash chip erased in blocks of `erase_size` bytes; the
    /// application starts at its address 0.
    External { erase_size: u32 },
}

/// Where a session stands.
#[derive(Clone, Copy, Debug, PartialEq, Eq, Structural)]
pub enum Phase {
    /// Waiting for a flashing request addressed to this board.
    AwaitBegin,
    /// Waiting for the size of the application.
    AwaitInfo,
    /// The application's region of internal flash is being erased.
    Erasing,
    /// Erasing the application's region failed; all of the flash after the
    /// bootloader is being erased.
    ErasingAll,
    /// Receiving sectors.
    Receiving,
    /// The host finished the session.
    Finished,
    /// No flashing request came in time.
    TimedOut,
}

/// What the driver has to do, in order, after a step.
#[derive(Debug)]
pub enum Action {
    /// Send an acknowledgement frame.
    SendAck,
    /// Erase internal flash from `from` to `to`.
    EraseRange { from: u32, to: u32 },
    /// Erase the external-flash block that starts at `address`.
    EraseBlock { address: u32 },
    /// Write `data` to flash at `address`.
    WriteFlash { address: u32, data: Vec<u8> },
}

/// The mathematical content of an [`Action`].
pub enum ActionSpec {
    SendAck,
    EraseRange { from: u32, to: u32 },
    EraseBlock { address: u32 },
    WriteFlash { address: u32, data: Seq<u8> },
}

impl View for Action {
    type V = ActionSpec;

    open spec fn view(&self) -> ActionSpec {
        match self {
            Action::SendAck => ActionSpec::SendAck,
            Action::EraseRange { from, to } => ActionSpec::EraseRange { from: *from, to: *to },
            Action::EraseBlock { address } => ActionSpec::EraseBlock { address: *address },
            Action::WriteFlash { address, data } => ActionSpec::WriteFlash {
                address: *address,
                data: data@,
            },
        }
    }
}

/// The content of a list of actions.
pub open spec fn action_views(actions: Seq<Action>) -> Seq<ActionSpec> {
    actions.map_values(|a: Action| a@)
}

/// The mathematical content of a [`FlashSession`].
#[verifier::ext_equal]
pub struct SessionView {
    pub board_id: u64,
    pub bus: Bus,
    pub target: FlashTarget,
    pub phase: Phase,
    pub app_len: u32,
    pub messages_per_sector: nat,
    pub sector_bytes: nat,
    pub current_offset: u32,
    pub sector_offset: u32,
    pub sector: Seq<u8>,
    pub received: nat,
}

/// A sector buffer full of zeros.
pub open spec fn zero_sector() -> Seq<u8> {
    Seq::new(FLASH_SECTOR_WRITE_SIZE as nat, |i: int| 0u8)
}

/// The actions that erase the external-flash blocks covering `app_len` bytes.
pub open spec fn erase_block_actions(app_len: u32, erase_size: u32) -> Seq<ActionSpec> {
    Seq::new(
        erase_block_count(app_len, erase_size) as nat,
        |i: int| ActionSpec::EraseBlock { address: (i * erase_size) as u32 },
    )
}

/// The flash address at which the application's byte 0 is written.
pub open spec fn write_base(target: FlashTarget) -> int {
    match target {
        FlashTarget::Internal { bootloader_size, .. } => bootloader_size as int,
        FlashTarget::External { .. } => 0,
    }
}

/// The application length, messages per sector and bytes per sector that a
/// flash information frame carries, for each bus.
pub open spec fn parse_info(bus: Bus, id: CanId, data: Seq<u8>) -> Option<(u32, nat, nat)> {
    match bus {
        Bus::Can => match crate::can::BeginFlashInfoMessage::parse(id, data) {
            Some(m) => Some(
                (m.app_len, MESSAGES_PER_SECTOR as nat, FLASH_SECTOR_WRITE_SIZE as nat),
            ),
            None => None,
        },
        Bus::FdCan => match crate::fdcan::BeginFlashInfoMessage::parse(id, data) {
            Some(m) => Some((m.app_len, m.sector_size as nat, (m.sector_size * 7) as nat)),
            None => None,
        },
    }
}

/// Whether a flash information frame is decoded without a payload-size
/// failure on this bus.
pub open spec fn info_decodable(bus: Bus, id: CanId, data: Seq<u8>) -> bool {
    match bus {
        Bus::Can => crate::can::BeginFlashInfoMessage::decodable(id, data),
        Bus::FdCan => crate::fdcan::BeginFlashInfoMessage::decodable(id, data),
    }
}

impl SessionView {
    /// A fresh session waiting for a flashing request.
    pub open spec fn initial(board_id: u64, bus: Bus, target: FlashTarget) -> SessionView {
        SessionView {
            board_id,
            bus,
            target,
            phase: Phase::AwaitBegin,
            app_len: 0,
            messages_per_sector: 0,
            sector_bytes: 0,
            current_offset: 0,
            sector_offset: u32::MAX,
            sector: zero_sector(),
            received: 0,
        }
    }

    /// The session receiving a fresh sector that goes at `offset`.
    pub open spec fn start_sector(self, offset: u32) -> SessionView {
        SessionView {
            phase: Phase::Receiving,
            current_offset: offset,
            sector_offset: offset,
            sector: zero_sector(),
            received: 0,
            ..self
        }
    }

    /// The session in phase `phase`, all else unchanged.
    pub open spec fn in_phase(self, phase: Phase) -> SessionView {
        SessionView { phase, ..self }
    }

    /// What a session does with the flash information it has received.
    pub open spec fn after_info(self, app_len: u32, per_sector: nat, sector_bytes: nat) -> (
        SessionView,
        Seq<ActionSpec>,
    ) {
        let s = SessionView {
            app_len,
            messages_per_sector: per_sector,
            sector_bytes,
            ..self
        };
        match self.target {
            FlashTarget::Internal { bootloader_size, .. } => (
                s.in_phase(Phase::Erasing),
                seq![
                    ActionSpec::SendAck,
                    ActionSpec::EraseRange {
                        from: bootloader_size,
                        to: app_erase_end(bootloader_size, app_len) as u32,
                    },
                ],
            ),
            FlashTarget::External { erase_size } => (
                s.start_sector(0),
                seq![ActionSpec::SendAck] + erase_block_actions(app_len, erase_size) + seq![
                    ActionSpec::SendAck,
                ],
            ),
        }
    }

    /// What a receiving session does with a data message.
    pub open spec fn after_data(self, m: FlashDataMessage) -> (SessionView, Seq<ActionSpec>) {
        let sector = with_chunk(self.sector, m.index as int, m.data@);
        if self.received + 1 >= self.messages_per_sector {
            let next = (self.current_offset + self.sector_bytes) as u32;
            (
                self.start_sector(next),
                seq![
                    ActionSpec::SendAck,
                    ActionSpec::WriteFlash {
                        address: (write_base(self.target) + self.sector_offset) as u32,
                        data: sector.take(self.sector_bytes as int),
                    },
                    ActionSpec::SendAck,
                ],
            )
        } else {
            (SessionView { sector, received: self.received + 1, ..self }, seq![])
        }
    }

    /// The next session and the actions to perform when a frame with
    /// identifier `id` and payload `data` is received.
    pub open spec fn on_frame(self, id: CanId, data: Seq<u8>) -> (SessionView, Seq<ActionSpec>) {
        match self.phase {
            Phase::AwaitBegin => match BeginCanFlashingMessage::parse(id, data) {
                Some(m) => if m.board_id == self.board_id {
                    (self.in_phase(Phase::AwaitInfo), seq![ActionSpec::SendAck])
                } else {
                    (self, seq![])
                },
                None => (self, seq![]),
            },
            Phase::AwaitInfo => match parse_info(self.bus, id, data) {
                Some((app_len, per_sector, sector_bytes)) => self.after_info(
                    app_len,
                    per_sector,
                    sector_bytes,
                ),
                None => (self, seq![]),
            },
            Phase::Receiving => match FlashDataMessage::parse(id, data) {
                Some(m) => self.after_data(m),
                None => if RevertSectorMessage::parse(id, data) is Some {
                    (self.start_sector(self.current_offset), seq![ActionSpec::SendAck])
                } else if FlashFinishMessage::parse(id, data) is Some {
                    (self.in_phase(Phase::Finished), seq![ActionSpec::SendAck])
                } else {
                    (self, seq![])
                },
            },
            _ => (self, seq![]),
        }
    }

    /// Whether the frame can be handled without one of the failures that
    /// stop the bootloader: a payload of the wrong size for its message, a
    /// data message that does not fit in the sector, an erase range or
    /// address that overflows 32 bits, or a sector larger than the buffer.
    pub open spec fn frame_ok(self, id: CanId, data: Seq<u8>) -> bool {
        match self.phase {
            Phase::AwaitBegin => BeginCanFlashingMessage::decodable(id, data),
            Phase::AwaitInfo => {
                &&& info_decodable(self.bus, id, data)
                &&& (parse_info(self.bus, id, data) matches Some((app_len, _, _)) ==> match self.target {
                    FlashTarget::Internal { bootloader_size, .. } => app_erase_range_fits(
                        bootloader_size,
                        app_len,
                    ),
                    FlashTarget::External { erase_size } => erase_blocks_fit(app_len, erase_size),
                })
            },
            Phase::Receiving => {
                &&& FlashDataMessage::decodable(id, data)
                &&& (FlashDataMessage::parse(id, data) matches Some(m) ==> {
                    &&& m.index + FLASH_DATA_CHUNK_LEN <= FLASH_SECTOR_WRITE_SIZE
                    &&& (self.received + 1 >= self.messages_per_sector ==> {
                        &&& self.sector_bytes <= FLASH_SECTOR_WRITE_SIZE
                        &&& write_base(self.target) + self.sector_offset <= u32::MAX
                        &&& self.current_offset + self.sector_bytes <= u32::MAX
                    })
                })
            },
            _ => true,
        }
    }

    /// The next session and the actions to perform when no flashing request
    /// came in time: only a session waiting for one gives up.
    pub open spec fn on_timeout(self) -> (SessionView, Seq<ActionSpec>) {
        if self.phase == Phase::AwaitBegin {
            (self.in_phase(Phase::TimedOut), seq![])
        } else {
            (self, seq![])
        }
    }

    /// The next session and the actions to perform when an erase finished,
    /// successfully or not.  A failed erase of the application's region is
    /// followed by an erase of all the flash after the bootloader.
    pub open spec fn on_erase_done(self, ok: bool) -> (SessionView, Seq<ActionSpec>) {
        match self.phase {
            Phase::Erasing => if ok {
                (self.start_sector(0), seq![ActionSpec::SendAck])
            } else {
                match self.target {
                    FlashTarget::Internal { bootloader_size, flash_size } => (
                        self.in_phase(Phase::ErasingAll),
                        seq![ActionSpec::EraseRange { from: bootloader_size, to: flash_size }],
                    ),
                    FlashTarget::External { .. } => (self, seq![]),
                }
            },
            Phase::ErasingAll => if ok {
                (self.start_sector(0), seq![ActionSpec::SendAck])
            } else {
                (self, seq![])
            },
            _ => (self, seq![]),
        }
    }

    /// Whether the erase result can be handled: the fallback erase of all the
    /// flash must not fail.
    pub open spec fn erase_done_ok(self, ok: bool) -> bool {
        !(self.phase == Phase::ErasingAll && !ok)
    }

    /// The invariant of a session.
    pub open spec fn wf(self) -> bool {
        &&& self.sector.len() == FLASH_SECTOR_WRITE_SIZE
        &&& self.messages_per_sector <= 255
        &&& self.sector_bytes == self.messages_per_sector * 7
        &&& self.received <= self.messages_per_sector
        &&& (self.phase == Phase::AwaitBegin || self.phase == Phase::AwaitInfo || self.phase
            == Phase::Erasing || self.phase == Phase::ErasingAll) ==> self.received == 0
        &&& self.phase == Phase::Receiving ==> self.sector_offset == self.current_offset
        &&& self.bus == Bus::Can && self.phase != Phase::AwaitBegin && self.phase
            != Phase::AwaitInfo && self.phase != Phase::TimedOut ==> self.messages_per_sector
            == MESSAGES_PER_SECTOR
    }
}

/// A flashing session.
pub struct FlashSession {
    pub board_id: u64,
    pub bus: Bus,
    pub target: FlashTarget,
    pub phase: Phase,
    pub app_len: u32,
    pub messages_per_sector: usize,
    pub sector_bytes: usize,
    pub current_offset: u32,
    pub sector: FlashSectorToWrite,
    pub received: usize,
}

impl View for FlashSession {
    type V = SessionView;

    open spec fn view(&self) -> SessionView {
        SessionView {
            board_id: self.board_id,
            bus: self.bus,
            target: self.target,
            phase: self.phase,
            app_len: self.app_len,
            messages_per_sector: self.messages_per_sector as nat,
            sector_bytes: self.sector_bytes as nat,
            current_offset: self.current_offset,
            sector_offset: self.sector.offset,
            sector: self.sector.data@,
            received: self.received as nat,
        }
    }
}

impl FlashSession {
    /// A session waiting for a flashing request addressed to `board_id`.
    pub fn new(board_id: u64, bus: Bus, target: FlashTarget) -> (s: Self)
        ensures
            s@ == SessionView::initial(board_id, bus, target),
            s@.wf(),
    {
        FlashSession {
            board_id,
            bus,
            target,
            phase: Phase::AwaitBegin,
            app_len: 0,
            messages_per_sector: 0,
            sector_bytes: 0,
            current_offset: 0,
            sector: FlashSectorToWrite::empty(),
            received: 0,
        }
    }

    /// Whether the session is over, flashed or not.
    pub fn is_done(&self) -> (r: bool)
        ensures
            r == (self.phase == Phase::Finished || self.phase == Phase::TimedOut),
    {
        match self.phase {
            Phase::Finished | Phase::TimedOut => true,
            _ => false,
        }
    }

    /// Starts receiving a fresh sector that goes at `offset`.
    fn start_sector(&mut self, offset: u32)
        ensures
            final(self)@ == old(self)@.start_sector(offset),
    {
        let mut sector = FlashSectorToWrite::empty();
        sector.offset = offset;
        self.sector = sector;
        self.current_offset = offset;
        self.received = 0;
        self.phase = Phase::Receiving;
    }

    /// The application length, messages per sector and bytes per sector that
    /// `frame` carries, if it is a flash information frame for this bus.
    fn decode_info(&self, frame: &CanFrame) -> (r: Option<(u32, usize, usize)>)
        requires
            info_decodable(self.bus, frame.id, frame.data@),
        ensures
            match parse_info(self.bus, frame.id, frame.data@) {
                Some((app_len, per_sector, sector_bytes)) => r matches Some((a, p, b)) && a
                    == app_len && p == per_sector && b == sector_bytes,
                None => r is None,
            },
    {
        match self.bus {
            Bus::Can => match crate::can::BeginFlashInfoMessage::try_from_frame(frame) {
                Some(m) => Some((m.app_len, MESSAGES_PER_SECTOR, FLASH_SECTOR_WRITE_SIZE)),
                None => None,
            },
            Bus::FdCan => match crate::fdcan::BeginFlashInfoMessage::try_from_frame(frame) {
                Some(m) => Some((m.app_len, m.sector_size as usize, m.sector_size as usize * 7)),
                None => None,
            },
        }
    }

    /// Whether [`FlashSession::on_frame`] can handle `frame` (see
    /// [`SessionView::frame_ok`]).
    pub fn accepts_frame(&self, frame: &CanFrame) -> (r: bool)
        requires
            self@.wf(),
        ensures
            r == self@.frame_ok(frame.id, frame.data@),
            self.phase == Phase::AwaitBegin && frame.data@.len() == crate::can::BEGIN_CAN_FLASHING_LEN
                ==> r,
            self.phase == Phase::AwaitBegin && frame.id != CanId::Standard(
                crate::can::BEGIN_CAN_FLASHING_ID,
            ) ==> r,
    {
        match self.phase {
            Phase::AwaitBegin => frame.id != CanId::Standard(crate::can::BEGIN_CAN_FLASHING_ID)
                || frame.data.len() == crate::can::BEGIN_CAN_FLASHING_LEN,
            Phase::AwaitInfo => {
                let decodable = match self.bus {
                    Bus::Can => frame.id != CanId::Standard(crate::can::BEGIN_FLASH_INFO_ID)
                        || frame.data.len() == crate::can::BEGIN_FLASH_INFO_LEN,
                    Bus::FdCan => frame.id != CanId::Standard(crate::can::BEGIN_FLASH_INFO_ID)
                        || frame.data.len() == crate::fdcan::FD_BEGIN_FLASH_INFO_LEN,
                };
                if !decodable {
                    return false;
                }
                match self.decode_info(frame) {
                    Some((app_len, _, _)) => match self.target {
                        FlashTarget::Internal { bootloader_size, .. } => app_erase_range_fits_exec(
                            bootloader_size,
                            app_len,
                        ),
                        FlashTarget::External { erase_size } => erase_blocks_fit_exec(
                            app_len,
                            erase_size,
                        ),
                    },
                    None => true,
                }
            },
            Phase::Receiving => {
                if frame.id != CanId::Standard(crate::can::FLASH_DATA_ID) {
                    return true;
                }
                if frame.data.len() != crate::can::FLASH_DATA_LEN {
                    return false;
                }
                let index = frame.data[0] as usize;
                if index + FLASH_DATA_CHUNK_LEN > FLASH_SECTOR_WRITE_SIZE {
                    return false;
                }
                if self.received + 1 < self.messages_per_sector {
                    return true;
                }
                let base: u32 = match self.target {
                    FlashTarget::Internal { bootloader_size, .. } => bootloader_size,
                    FlashTarget::External { .. } => 0,
                };
                self.sector_bytes <= FLASH_SECTOR_WRITE_SIZE && base.checked_add(
                    self.sector.offset,
                ).is_some() && self.current_offset.checked_add(self.sector_bytes as u32).is_some()
            },
            _ => true,
        }
    }

    /// Handles a received frame: returns the actions to perform, in order.
    pub fn on_frame(&mut self, frame: &CanFrame) -> (actions: Vec<Action>)
        requires
            old(self)@.wf(),
            old(self)@.frame_ok(frame.id, frame.data@),
        ensures
            final(self)@ == old(self)@.on_frame(frame.id, frame.data@).0,
            action_views(actions@) == old(self)@.on_frame(frame.id, frame.data@).1,
            final(self)@.wf(),
    {
        let mut actions: Vec<Action> = Vec::new();
        match self.phase {
            Phase::AwaitBegin => {
                if let Some(m) = BeginCanFlashingMessage::try_from_frame(frame) {
                    if m.board_id == self.board_id {
                        self.phase = Phase::AwaitInfo;
                        actions.push(Action::SendAck);
                    }
                }
            },
            Phase::AwaitInfo => {
                if let Some((app_len, per_sector, sector_bytes)) = self.decode_info(frame) {
                    self.app_len = app_len;
                    self.messages_per_sector = per_sector;
                    self.sector_bytes = sector_bytes;
                    actions.push(Action::SendAck);
                    match self.target {
                        FlashTarget::Internal { bootloader_size, .. } => {
                            let (from, to) = app_erase_range(bootloader_size, app_len);
                            actions.push(Action::EraseRange { from, to });
                            self.phase = Phase::Erasing;
                        },
                        FlashTarget::External { erase_size } => {
                            let addresses = erase_block_addresses(app_len, erase_size);
                            let ghost blocks = erase_block_actions(app_len, erase_size);
                            let mut i: usize = 0;
                            while i < addresses.len()
                                invariant
                                    i <= addresses@.len(),
                                    actions@.len() == i + 1,
                                    addresses@.len() == blocks.len(),
                                    blocks == erase_block_actions(app_len, erase_size),
                                    forall|k: int|
                                        0 <= k < addresses@.len() ==> #[trigger] addresses@[k]
                                            == k * erase_size,
                                    action_views(actions@) == seq![ActionSpec::SendAck]
                                        + blocks.take(i as int),
                                decreases addresses.len() - i,
                            {
                                let address = addresses[i];
                                assert(blocks[i as int] == ActionSpec::EraseBlock { address });
                                let ghost prev = actions@;
                                actions.push(Action::EraseBlock { address });
                                assert(action_views(actions@) =~= action_views(prev).push(
                                    blocks[i as int],
                                ));
                                assert(action_views(actions@) =~= seq![ActionSpec::SendAck]
                                    + blocks.take(i + 1));
                                i = i + 1;
                            }
                            assert(blocks.take(i as int) =~= blocks);
                            self.start_sector(0);
                            actions.push(Action::SendAck);
                        },
                    }
                }
            },
            Phase::Receiving => {
                if let Some(m) = FlashDataMessage::try_from_frame(frame) {
                    self.sector.write_chunk(m.index as usize, &m.data);
                    self.received = self.received + 1;
                    if self.received >= self.messages_per_sector {
                        let base: u32 = match self.target {
                            FlashTarget::Internal { bootloader_size, .. } => bootloader_size,
                            FlashTarget::External { .. } => 0,
                        };
                        let data = self.sector.prefix(self.sector_bytes);
                        actions.push(Action::SendAck);
                        actions.push(Action::WriteFlash { address: base + self.sector.offset, data });
                        let next = self.current_offset + self.sector_bytes as u32;
                        self.start_sector(next);
                        actions.push(Action::SendAck);
                    }
                } else if RevertSectorMessage::try_from_frame(frame).is_some() {
                    let offset = self.current_offset;
                    self.start_sector(offset);
                    actions.push(Action::SendAck);
                } else if FlashFinishMessage::try_from_frame(frame).is_some() {
                    self.phase = Phase::Finished;
                    actions.push(Action::SendAck);
                }
            },
            _ => {},
        }
        assert(action_views(actions@) =~= old(self)@.on_frame(frame.id, frame.data@).1);
        actions
    }

    /// Handles the end of the wait for a flashing request.
    pub fn on_timeout(&mut self) -> (actions: Vec<Action>)
        requires
            old(self)@.wf(),
        ensures
            final(self)@ == old(self)@.on_timeout().0,
            action_views(actions@) == old(self)@.on_timeout().1,
            final(self)@.wf(),
    {
        if self.phase == Phase::AwaitBegin {
            self.phase = Phase::TimedOut;
        }
        let actions: Vec<Action> = Vec::new();
        assert(action_views(actions@) =~= old(self)@.on_timeout().1);
        actions
    }

    /// Handles the result of an erase.
    pub fn on_erase_done(&mut self, ok: bool) -> (actions: Vec<Action>)
        requires
            old(self)@.wf(),
            old(self)@.erase_done_ok(ok),
        ensures
            final(self)@ == old(self)@.on_erase_done(ok).0,
            action_views(actions@) == old(self)@.on_erase_done(ok).1,
            final(self)@.wf(),
    {
        let mut actions: Vec<Action> = Vec::new();
        match self.phase {
            Phase::Erasing => {
                if ok {
                    self.start_sector(0);
                    actions.push(Action::SendAck);
                } else {
                    match self.target {
                        FlashTarget::Internal { bootloader_size, flash_size } => {
                            self.phase = Phase::ErasingAll;
                            actions.push(Action::EraseRange { from: bootloader_size, to: flash_size });
                        },
                        FlashTarget::External { .. } => {},
                    }
                }
            },
            Phase::ErasingAll => {
                if ok {
                    self.start_sector(0);
                    actions.push(Action::SendAck);
                }
            },
            _ => {},
        }
        assert(action_views(actions@) =~= old(self)@.on_erase_done(ok).1);
        actions
    }
}

} // verus!
