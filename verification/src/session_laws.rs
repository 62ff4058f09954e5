//! Properties of whole flashing sessions: what holds of every sequence of
//! events a session can be driven through.
use crate::can::{BeginCanFlashingMessage, FlashDataMessage};
use crate::erase::app_erase_end;
use crate::frame::CanId;
use crate::sector::{with_chunk, FLASH_SECTOR_WRITE_SIZE};
use crate::session::{
    write_base, zero_sector, ActionSpec, Bus, FlashTarget, Phase, SessionView,
};
use vstd::prelude::*;

verus! {

/// Something that happens to a session.
pub enum SessionEvent {
    /// A frame with this identifier and payload was received.
    Frame(CanId, Seq<u8>),
    /// The wait for a flashing request ended.
    Timeout,
    /// An erase finished, successfully or not.
    EraseDone(bool),
}

impl SessionView {
    /// The next session and the actions to perform after `e`.
    pub open spec fn step(self, e: SessionEvent) -> (SessionView, Seq<ActionSpec>) {
        match e {
            SessionEvent::Frame(id, data) => self.on_frame(id, data),
            SessionEvent::Timeout => self.on_timeout(),
            SessionEvent::EraseDone(ok) => self.on_erase_done(ok),
        }
    }

    /// Whether `e` can be handled without one of the failures that stop the
    /// bootloader.
    pub open spec fn event_ok(self, e: SessionEvent) -> bool {
        match e {
            SessionEvent::Frame(id, data) => self.frame_ok(id, data),
            SessionEvent::Timeout => true,
            SessionEvent::EraseDone(ok) => self.erase_done_ok(ok),
        }
    }

    /// The session after `events`, one after the other, and all the actions
    /// performed on the way, in order.
    pub open spec fn run(self, events: Seq<SessionEvent>) -> (SessionView, Seq<ActionSpec>)
        decreases events.len(),
    {
        if events.len() == 0 {
            (self, seq![])
        } else {
            let (next, first) = self.step(events[0]);
            let (last, rest) = next.run(events.drop_first());
            (last, first + rest)
        }
    }

    /// Whether every event of `events` can be handled in turn.
    pub open spec fn run_ok(self, events: Seq<SessionEvent>) -> bool
        decreases events.len(),
    {
        events.len() == 0 || (self.event_ok(events[0]) && self.step(events[0]).0.run_ok(
            events.drop_first(),
        ))
    }
}

/// The flash writes among `actions`, as (address, bytes), in order.
pub open spec fn written(actions: Seq<ActionSpec>) -> Seq<(u32, Seq<u8>)>
    decreases actions.len(),
{
    if actions.len() == 0 {
        seq![]
    } else {
        let rest = written(actions.drop_first());
        match actions[0] {
            ActionSpec::WriteFlash { address, data } => seq![(address, data)] + rest,
            _ => rest,
        }
    }
}

proof fn lemma_written_append(a: Seq<ActionSpec>, b: Seq<ActionSpec>)
    ensures
        written(a + b) == written(a) + written(b),
    decreases a.len(),
{
    if a.len() == 0 {
        assert(a + b =~= b);
    } else {
        assert((a + b).drop_first() =~= a.drop_first() + b);
        lemma_written_append(a.drop_first(), b);
    }
}

/// A step of a well-formed session that can handle its event leaves it
/// well-formed.
pub proof fn lemma_step_keeps_wf(s: SessionView, e: SessionEvent)
    requires
        s.wf(),
        s.event_ok(e),
    ensures
        s.step(e).0.wf(),
{
    match e {
        SessionEvent::Frame(id, data) => {
            if s.phase == Phase::Receiving {
                if let Some(m) = FlashDataMessage::parse(id, data) {
                    let sector = with_chunk(s.sector, m.index as int, m.data@);
                    assert(sector.len() == FLASH_SECTOR_WRITE_SIZE);
                }
            }
        },
        _ => {},
    }
}

/// How far the writing of an application image has got: `w` sectors
/// written so far, each right after the previous one.
pub open spec fn written_so_far(s: SessionView, w: nat) -> bool {
    &&& s.wf()
    &&& (s.phase == Phase::AwaitBegin || s.phase == Phase::AwaitInfo || s.phase == Phase::Erasing
        || s.phase == Phase::ErasingAll || s.phase == Phase::TimedOut) ==> w == 0
    &&& s.phase == Phase::Receiving ==> s.current_offset == w * s.sector_bytes
}

proof fn lemma_step_writes(s: SessionView, w: nat, e: SessionEvent)
    requires
        written_so_far(s, w),
        s.event_ok(e),
    ensures
        ({
            let (t, acts) = s.step(e);
            let ws = written(acts);
            &&& written_so_far(t, w + ws.len())
            &&& ws.len() <= 1
            &&& ws.len() == 1 ==> ws[0].0 == write_base(s.target) + w * s.sector_bytes
                && ws[0].1.len() == s.sector_bytes && t.sector_bytes == s.sector_bytes
                && s.phase == Phase::Receiving && t.phase == Phase::Receiving
            &&& (s.phase != Phase::AwaitBegin && s.phase != Phase::AwaitInfo) ==> t.sector_bytes
                == s.sector_bytes
            &&& t.target == s.target
        }),
{
    lemma_step_keeps_wf(s, e);
    let (t, acts) = s.step(e);
    reveal_with_fuel(written, 4);
    match e {
        SessionEvent::Frame(id, data) => {
            match s.phase {
                Phase::AwaitInfo => {
                    if let Some((app_len, per, sb)) = crate::session::parse_info(s.bus, id, data) {
                        match s.target {
                            FlashTarget::Internal { .. } => {},
                            FlashTarget::External { erase_size } => {
                                let blocks = crate::session::erase_block_actions(app_len, erase_size);
                                lemma_no_writes_in_erase_blocks(app_len, erase_size);
                                lemma_written_append(seq![ActionSpec::SendAck], blocks);
                                lemma_written_append(
                                    seq![ActionSpec::SendAck] + blocks,
                                    seq![ActionSpec::SendAck],
                                );
                                assert(t.current_offset == 0 * t.sector_bytes);
                            },
                        }
                    }
                },
                Phase::Receiving => {
                    if let Some(m) = FlashDataMessage::parse(id, data) {
                        if s.received + 1 >= s.messages_per_sector {
                            let sector = with_chunk(s.sector, m.index as int, m.data@);
                            assert(sector.len() == FLASH_SECTOR_WRITE_SIZE);
                            assert(w * s.sector_bytes + s.sector_bytes == (w + 1) * s.sector_bytes)
                                by (nonlinear_arith);
                        }
                    }
                },
                _ => {},
            }
        },
        SessionEvent::Timeout => {},
        SessionEvent::EraseDone(ok) => {
            assert(0 * s.sector_bytes == 0);
        },
    }
}

proof fn lemma_no_writes_in_erase_blocks(app_len: u32, erase_size: u32)
    ensures
        written(crate::session::erase_block_actions(app_len, erase_size)) == Seq::<(u32, Seq<u8>)>::empty(),
{
    let blocks = crate::session::erase_block_actions(app_len, erase_size);
    lemma_no_writes_without_write_actions(blocks);
}

proof fn lemma_no_writes_without_write_actions(a: Seq<ActionSpec>)
    requires
        forall|i: int| 0 <= i < a.len() ==> !(#[trigger] a[i] is WriteFlash),
    ensures
        written(a) == Seq::<(u32, Seq<u8>)>::empty(),
    decreases a.len(),
{
    if a.len() > 0 {
        assert forall|i: int| 0 <= i < a.drop_first().len() implies !(
        #[trigger] a.drop_first()[i] is WriteFlash) by {
            assert(a.drop_first()[i] == a[i + 1]);
        }
        lemma_no_writes_without_write_actions(a.drop_first());
    }
}

#[verifier::spinoff_prover]
#[verifier::rlimit(40)]
proof fn lemma_run_writes(s: SessionView, w: nat, events: Seq<SessionEvent>)
    requires
        written_so_far(s, w),
        s.run_ok(events),
    ensures
        ({
            let (t, acts) = s.run(events);
            let ws = written(acts);
            &&& written_so_far(t, w + ws.len())
            &&& forall|j: int|
                0 <= j < ws.len() ==> #[trigger] ws[j].0 == write_base(s.target) + (w + j)
                    * t.sector_bytes && ws[j].1.len() == t.sector_bytes
            &&& (s.phase != Phase::AwaitBegin && s.phase != Phase::AwaitInfo) ==> t.sector_bytes
                == s.sector_bytes
            &&& t.target == s.target
        }),
    decreases events.len(),
{
    if events.len() > 0 {
        let e = events[0];
        let (s1, first) = s.step(e);
        let w1 = written(first);
        lemma_step_writes(s, w, e);
        lemma_run_writes(s1, w + w1.len(), events.drop_first());
        let (t, rest) = s1.run(events.drop_first());
        assert(s.run(events) == (t, first + rest));
        lemma_written_append(first, rest);
        let ws = written(first + rest);
        let w2 = written(rest);
        assert forall|j: int| 0 <= j < ws.len() implies #[trigger] ws[j].0 == write_base(s.target)
            + (w + j) * t.sector_bytes && ws[j].1.len() == t.sector_bytes by {
            if j < w1.len() {
                assert(j == 0);
                assert(ws[j] == w1[0]);
                assert(s1.phase == Phase::Receiving);
                assert(t.sector_bytes == s1.sector_bytes);
                assert(s1.sector_bytes == s.sector_bytes);
            } else {
                let k = j - w1.len();
                assert(ws[j] == w2[k]);
                assert(w2[k].0 == write_base(s1.target) + (w + w1.len() + k) * t.sector_bytes);
                assert(w + w1.len() + k == w + j);
            }
        }
    }
}

/// Only a session in phase `Receiving` writes to flash.
proof fn lemma_only_receiving_writes(s: SessionView, e: SessionEvent)
    requires
        s.phase != Phase::Receiving,
        s.wf(),
        s.event_ok(e),
    ensures
        written(s.step(e).1).len() == 0,
{
    reveal_with_fuel(written, 4);
    match e {
        SessionEvent::Frame(id, data) => {
            if s.phase == Phase::AwaitInfo {
                if let Some((app_len, per, sb)) = crate::session::parse_info(s.bus, id, data) {
                    if let FlashTarget::External { erase_size } = s.target {
                        let blocks = crate::session::erase_block_actions(app_len, erase_size);
                        lemma_no_writes_in_erase_blocks(app_len, erase_size);
                        lemma_written_append(seq![ActionSpec::SendAck], blocks);
                        lemma_written_append(
                            seq![ActionSpec::SendAck] + blocks,
                            seq![ActionSpec::SendAck],
                        );
                    }
                }
            }
        },
        _ => {},
    }
}

/// The application image is written contiguously: whatever frames, timeouts
/// and erase results a fresh session goes through (each one it can handle),
/// the `j`-th flash write it asks for puts one whole sector at the start of
/// the application region plus `j` sectors.
pub proof fn lemma_sectors_written_contiguously(
    board_id: u64,
    bus: Bus,
    target: FlashTarget,
    events: Seq<SessionEvent>,
)
    requires
        SessionView::initial(board_id, bus, target).run_ok(events),
    ensures
        ({
            let (t, acts) = SessionView::initial(board_id, bus, target).run(events);
            let ws = written(acts);
            forall|j: int|
                0 <= j < ws.len() ==> #[trigger] ws[j].0 == write_base(target) + j * t.sector_bytes
                    && ws[j].1.len() == t.sector_bytes
        }),
{
    let s = SessionView::initial(board_id, bus, target);
    assert(s.sector =~= zero_sector());
    lemma_run_writes(s, 0, events);
}

/// The first erase action of the application's region: the erase range of
/// internal flash, or the external-flash block at address 0.
pub open spec fn app_erase_start(target: FlashTarget, app_len: u32) -> ActionSpec {
    match target {
        FlashTarget::Internal { bootloader_size, .. } => ActionSpec::EraseRange {
            from: bootloader_size,
            to: app_erase_end(bootloader_size, app_len) as u32,
        },
        FlashTarget::External { .. } => ActionSpec::EraseBlock { address: 0 },
    }
}

/// Whether the application's region has anything to erase: always for
/// internal flash, and for external flash when the application is not empty.
pub open spec fn has_erase(target: FlashTarget, app_len: u32) -> bool {
    match target {
        FlashTarget::Internal { .. } => true,
        FlashTarget::External { .. } => app_len > 0,
    }
}

/// Whether the session has received the flash information.
pub open spec fn informed(s: SessionView) -> bool {
    s.phase != Phase::AwaitBegin && s.phase != Phase::AwaitInfo && s.phase != Phase::TimedOut
}

proof fn lemma_step_erases_first(s: SessionView, e: SessionEvent)
    requires
        s.wf(),
        s.event_ok(e),
    ensures
        ({
            let (t, a) = s.step(e);
            &&& t.target == s.target
            &&& informed(s) ==> informed(t) && t.app_len == s.app_len
            &&& !informed(s) ==> written(a).len() == 0
            &&& !informed(s) && informed(t) && has_erase(t.target, t.app_len) ==> exists|j: int|
                0 <= j < a.len() && a[j] == app_erase_start(t.target, t.app_len)
        }),
{
    if !informed(s) {
        lemma_only_receiving_writes(s, e);
    }
    let (t, a) = s.step(e);
    if !informed(s) && informed(t) && has_erase(t.target, t.app_len) {
        if let SessionEvent::Frame(id, data) = e {
            if let Some((app_len, per, sb)) = crate::session::parse_info(s.bus, id, data) {
                match s.target {
                    FlashTarget::Internal { .. } => {
                        assert(a[1] == app_erase_start(t.target, t.app_len));
                    },
                    FlashTarget::External { erase_size } => {
                        let blocks = crate::session::erase_block_actions(app_len, erase_size);
                        assert(erase_size > 0);
                        assert(crate::erase::erase_block_count(app_len, erase_size) > 0) by (nonlinear_arith)
                            requires
                                erase_size > 0,
                                app_len > 0,
                                crate::erase::erase_block_count(app_len, erase_size) == (app_len
                                    + erase_size - 1) / (erase_size as int),
                        ;
                        assert(blocks[0] == ActionSpec::EraseBlock { address: 0 });
                        assert(a[1] == blocks[0]);
                    },
                }
            }
        }
    }
}

/// Whether every flash write in `acts` from index `from` on comes after an
/// action equal to `erase`.
pub open spec fn writes_follow(acts: Seq<ActionSpec>, from: int, erase: ActionSpec) -> bool {
    forall|i: int|
        from <= i < acts.len() && #[trigger] acts[i] is WriteFlash ==> exists|j: int|
            0 <= j < i && acts[j] == erase
}

proof fn lemma_run_erases_first(s: SessionView, pre: Seq<ActionSpec>, events: Seq<SessionEvent>)
    requires
        s.wf(),
        s.run_ok(events),
        informed(s) && has_erase(s.target, s.app_len) ==> exists|j: int|
            0 <= j < pre.len() && pre[j] == app_erase_start(s.target, s.app_len),
    ensures
        ({
            let (t, acts) = s.run(events);
            &&& t.target == s.target
            &&& informed(s) ==> informed(t) && t.app_len == s.app_len
            &&& has_erase(t.target, t.app_len) ==> writes_follow(
                pre + acts,
                pre.len() as int,
                app_erase_start(t.target, t.app_len),
            )
        }),
    decreases events.len(),
{
    if events.len() == 0 {
        assert(pre + s.run(events).1 =~= pre);
    } else {
        let e = events[0];
        let (s1, a1) = s.step(e);
        lemma_step_erases_first(s, e);
        lemma_step_keeps_wf(s, e);
        let pre1 = pre + a1;
        if informed(s1) && has_erase(s1.target, s1.app_len) {
            if informed(s) {
                let j = choose|j: int| 0 <= j < pre.len() && pre[j] == app_erase_start(s.target, s.app_len);
                assert(pre1[j] == pre[j]);
            } else {
                let j = choose|j: int| 0 <= j < a1.len() && a1[j] == app_erase_start(s1.target, s1.app_len);
                assert(pre1[pre.len() + j] == a1[j]);
            }
        }
        lemma_run_erases_first(s1, pre1, events.drop_first());
        let (t, rest) = s1.run(events.drop_first());
        assert(s.run(events) == (t, a1 + rest));
        assert(pre + (a1 + rest) =~= pre1 + rest);
        let full = pre1 + rest;
        let erase = app_erase_start(t.target, t.app_len);
        if has_erase(t.target, t.app_len) {
            assert forall|i: int|
                pre.len() <= i < full.len() && #[trigger] full[i] is WriteFlash implies exists|j: int|
                0 <= j < i && full[j] == erase by {
                if i < pre1.len() {
                    // A write of this step: the session was receiving, so it
                    // had been told the application size and erased before.
                    assert(full[i] == a1[i - pre.len()]);
                    if !informed(s) {
                        lemma_written_has_writes(a1, i - pre.len());
                        assert(false);
                    }
                    let j = choose|j: int| 0 <= j < pre.len() && pre[j] == app_erase_start(s.target, s.app_len);
                    assert(full[j] == pre[j]);
                }
            }
        }
    }
}

proof fn lemma_written_has_writes(a: Seq<ActionSpec>, i: int)
    requires
        0 <= i < a.len(),
        a[i] is WriteFlash,
    ensures
        written(a).len() > 0,
    decreases a.len(),
{
    if i > 0 {
        assert(a.drop_first()[i - 1] == a[i]);
        lemma_written_has_writes(a.drop_first(), i - 1);
    }
}

/// Nothing is written before it is erased: in every run of a fresh session
/// (each event one it can handle), each flash write comes after the request
/// to erase the start of the application's region, for the application size
/// the session was told; on external flash this holds when the application
/// is not empty, as an empty one erases no block.
pub proof fn lemma_writes_follow_erase(
    board_id: u64,
    bus: Bus,
    target: FlashTarget,
    events: Seq<SessionEvent>,
)
    requires
        SessionView::initial(board_id, bus, target).run_ok(events),
    ensures
        ({
            let (t, acts) = SessionView::initial(board_id, bus, target).run(events);
            has_erase(target, t.app_len) ==> writes_follow(acts, 0, app_erase_start(target, t.app_len))
        }),
{
    let s = SessionView::initial(board_id, bus, target);
    assert(s.sector =~= zero_sector());
    lemma_run_erases_first(s, Seq::empty(), events);
    let acts = s.run(events).1;
    assert(Seq::<ActionSpec>::empty() + acts =~= acts);
}

/// A session waiting for a flashing request moves on only for a request
/// addressed to its own board; any other frame changes nothing and asks for
/// nothing.
pub proof fn lemma_only_own_board_starts(s: SessionView, id: CanId, data: Seq<u8>)
    requires
        s.phase == Phase::AwaitBegin,
    ensures
        BeginCanFlashingMessage::parse(id, data) == Some(
            BeginCanFlashingMessage { board_id: s.board_id },
        ) ==> s.on_frame(id, data) == (s.in_phase(Phase::AwaitInfo), seq![ActionSpec::SendAck]),
        BeginCanFlashingMessage::parse(id, data) != Some(
            BeginCanFlashingMessage { board_id: s.board_id },
        ) ==> s.on_frame(id, data) == (s, Seq::<ActionSpec>::empty()),
{
}

/// A finished or timed-out session ignores everything.
pub proof fn lemma_done_sessions_ignore_events(s: SessionView, e: SessionEvent)
    requires
        s.phase == Phase::Finished || s.phase == Phase::TimedOut,
    ensures
        s.step(e) == (s, Seq::<ActionSpec>::empty()),
{
}

/// A revert request returns a receiving session to the start of the sector
/// it is receiving: the data received for that sector is dropped, the
/// sector's place in the image stays, and the request is acknowledged.
pub proof fn lemma_revert_restarts_sector(s: SessionView, data: Seq<u8>)
    requires
        s.phase == Phase::Receiving,
    ensures
        s.on_frame(CanId::Standard(crate::can::REVERT_SECTOR_ID), data) == (
            s.start_sector(s.current_offset),
            seq![ActionSpec::SendAck],
        ),
        s.start_sector(s.current_offset).sector == zero_sector(),
        s.start_sector(s.current_offset).received == 0,
        s.start_sector(s.current_offset).phase == Phase::Receiving,
        s.start_sector(s.current_offset).current_offset == s.current_offset,
        s.start_sector(s.current_offset).sector_offset == s.current_offset,
        s.start_sector(s.current_offset).sector_bytes == s.sector_bytes,
        s.start_sector(s.current_offset).messages_per_sector == s.messages_per_sector,
{
}

/// A finish request ends a receiving session, acknowledged, without a write
/// of the sector being received.
pub proof fn lemma_finish_ends_session(s: SessionView, data: Seq<u8>)
    requires
        s.phase == Phase::Receiving,
    ensures
        s.on_frame(CanId::Standard(crate::can::FLASH_FINISH_ID), data) == (
            s.in_phase(Phase::Finished),
            seq![ActionSpec::SendAck],
        ),
{
}

/// Running `a` and then `b` is running `a + b`.
pub proof fn lemma_run_append(s: SessionView, a: Seq<SessionEvent>, b: Seq<SessionEvent>)
    ensures
        s.run(a + b) == (s.run(a).0.run(b).0, s.run(a).1 + s.run(a).0.run(b).1),
        s.run_ok(a + b) == (s.run_ok(a) && s.run(a).0.run_ok(b)),
    decreases a.len(),
{
    if a.len() == 0 {
        assert(a + b =~= b);
        assert(Seq::<ActionSpec>::empty() + s.run(b).1 =~= s.run(b).1);
    } else {
        assert((a + b).drop_first() =~= a.drop_first() + b);
        assert((a + b)[0] == a[0]);
        let s1 = s.step(a[0]).0;
        lemma_run_append(s1, a.drop_first(), b);
        let x = s.step(a[0]).1;
        let y = s1.run(a.drop_first()).1;
        let z = s1.run(a.drop_first()).0.run(b).1;
        assert(x + (y + z) =~= (x + y) + z);
    }
}

/// The sector buffer after the data messages `ms`, in order, on a fresh
/// sector: each message's bytes at its index, later ones over earlier ones,
/// zeros elsewhere.
pub open spec fn assemble(ms: Seq<FlashDataMessage>) -> Seq<u8>
    decreases ms.len(),
{
    if ms.len() == 0 {
        zero_sector()
    } else {
        with_chunk(assemble(ms.drop_last()), ms.last().index as int, ms.last().data@)
    }
}

/// The frames that carry the data messages `ms`.
pub open spec fn data_events(ms: Seq<FlashDataMessage>) -> Seq<SessionEvent> {
    ms.map_values(
        |m: FlashDataMessage| SessionEvent::Frame(CanId::Standard(crate::can::FLASH_DATA_ID), m.payload()),
    )
}

proof fn lemma_partial_sector(s: SessionView, ms: Seq<FlashDataMessage>)
    requires
        s.wf(),
        s.phase == Phase::Receiving,
        s.received == 0,
        s.sector == zero_sector(),
        ms.len() < s.messages_per_sector,
        s.run_ok(data_events(ms)),
    ensures
        s.run(data_events(ms)).0 == (SessionView { sector: assemble(ms), received: ms.len(), ..s }),
        s.run(data_events(ms)).1 == Seq::<ActionSpec>::empty(),
    decreases ms.len(),
{
    if ms.len() > 0 {
        let front = ms.drop_last();
        let m = ms.last();
        let last = SessionEvent::Frame(CanId::Standard(crate::can::FLASH_DATA_ID), m.payload());
        assert(data_events(ms) =~= data_events(front) + seq![last]);
        lemma_run_append(s, data_events(front), seq![last]);
        lemma_partial_sector(s, front);
        let mid = s.run(data_events(front)).0;
        lemma_data_frame_step(mid, m);
        assert(seq![last].drop_first() =~= Seq::<SessionEvent>::empty());
        lemma_run_single(mid, last);
        assert(Seq::<ActionSpec>::empty() + Seq::<ActionSpec>::empty() =~= Seq::<ActionSpec>::empty());
        assert(mid.step(last).0 =~= (SessionView { sector: assemble(ms), received: ms.len(), ..s }));
    } else {
        assert(s.sector =~= assemble(ms));
    }
}

proof fn lemma_run_single(s: SessionView, e: SessionEvent)
    ensures
        s.run(seq![e]) == (s.step(e).0, s.step(e).1),
        s.run_ok(seq![e]) == s.event_ok(e),
{
    let es = seq![e];
    assert(es.drop_first() =~= Seq::<SessionEvent>::empty());
    assert(es[0] == e);
    let t = s.step(e).0;
    assert(t.run(es.drop_first()) == (t, Seq::<ActionSpec>::empty()));
    assert(t.run_ok(es.drop_first()));
    assert(s.step(e).1 + Seq::<ActionSpec>::empty() =~= s.step(e).1);
}

/// What a receiving session does with the frame of a data message.
proof fn lemma_data_frame_step(s: SessionView, m: FlashDataMessage)
    requires
        s.phase == Phase::Receiving,
    ensures
        s.step(SessionEvent::Frame(CanId::Standard(crate::can::FLASH_DATA_ID), m.payload()))
            == s.after_data(m),
{
    crate::can::lemma_messages_roundtrip(
        BeginCanFlashingMessage { board_id: 0 },
        m,
        crate::can::BeginFlashInfoMessage { app_len: 0 },
    );
}

/// A sector holds exactly the data received for it: on a fresh sector, as
/// many data messages as a sector takes (each one the session can handle)
/// lead to one flash write, at the sector's place in the image, of the
/// sector's bytes as the messages assembled them; the next sector then
/// starts right after it.
pub proof fn lemma_sector_holds_received_data(s: SessionView, ms: Seq<FlashDataMessage>)
    requires
        s.wf(),
        s.phase == Phase::Receiving,
        s.received == 0,
        s.sector == zero_sector(),
        ms.len() == s.messages_per_sector,
        ms.len() > 0,
        s.run_ok(data_events(ms)),
    ensures
        written(s.run(data_events(ms)).1) == seq![
            (
                (write_base(s.target) + s.current_offset) as u32,
                assemble(ms).take(s.sector_bytes as int),
            ),
        ],
        s.run(data_events(ms)).0 == s.start_sector((s.current_offset + s.sector_bytes) as u32),
{
    let front = ms.drop_last();
    let m = ms.last();
    let last = SessionEvent::Frame(CanId::Standard(crate::can::FLASH_DATA_ID), m.payload());
    assert(data_events(ms) =~= data_events(front) + seq![last]);
    lemma_run_append(s, data_events(front), seq![last]);
    lemma_partial_sector(s, front);
    let mid = s.run(data_events(front)).0;
    lemma_data_frame_step(mid, m);
    assert(seq![last].drop_first() =~= Seq::<SessionEvent>::empty());
    lemma_run_single(mid, last);
    let acts = mid.step(last).1;
    assert(acts + Seq::<ActionSpec>::empty() =~= acts);
    assert(Seq::<ActionSpec>::empty() + acts =~= acts);
    assert(mid.sector_offset == s.sector_offset);
    reveal_with_fuel(written, 4);
    assert(acts.drop_first().drop_first().drop_first() =~= Seq::<ActionSpec>::empty());
    assert(written(acts) =~= seq![
        (
            (write_base(s.target) + s.current_offset) as u32,
            assemble(ms).take(s.sector_bytes as int),
        ),
    ]);
}

/// Whether no action of `acts` touches the first `bootloader_size` bytes of
/// internal flash: every erase range starts at or after them, every write
/// goes at or after them, and no external-flash block is erased.
pub open spec fn spares_bootloader(acts: Seq<ActionSpec>, bootloader_size: u32) -> bool {
    forall|i: int|
        0 <= i < acts.len() ==> match #[trigger] acts[i] {
            ActionSpec::EraseRange { from, .. } => from >= bootloader_size,
            ActionSpec::WriteFlash { address, .. } => address >= bootloader_size,
            ActionSpec::EraseBlock { .. } => false,
            ActionSpec::SendAck => true,
        }
}

proof fn lemma_spares_append(a: Seq<ActionSpec>, b: Seq<ActionSpec>, bootloader_size: u32)
    requires
        spares_bootloader(a, bootloader_size),
        spares_bootloader(b, bootloader_size),
    ensures
        spares_bootloader(a + b, bootloader_size),
{
    assert forall|i: int| 0 <= i < (a + b).len() implies match #[trigger] (a + b)[i] {
        ActionSpec::EraseRange { from, .. } => from >= bootloader_size,
        ActionSpec::WriteFlash { address, .. } => address >= bootloader_size,
        ActionSpec::EraseBlock { .. } => false,
        ActionSpec::SendAck => true,
    } by {
        if i < a.len() {
            assert((a + b)[i] == a[i]);
        } else {
            assert((a + b)[i] == b[i - a.len()]);
        }
    }
}

proof fn lemma_step_spares_bootloader(s: SessionView, e: SessionEvent, bootloader_size: u32, flash_size: u32)
    requires
        s.wf(),
        s.event_ok(e),
        s.target == (FlashTarget::Internal { bootloader_size, flash_size }),
    ensures
        spares_bootloader(s.step(e).1, bootloader_size),
{
    let a = s.step(e).1;
    assert forall|i: int| 0 <= i < a.len() implies match #[trigger] a[i] {
        ActionSpec::EraseRange { from, .. } => from >= bootloader_size,
        ActionSpec::WriteFlash { address, .. } => address >= bootloader_size,
        ActionSpec::EraseBlock { .. } => false,
        ActionSpec::SendAck => true,
    } by {
        if let SessionEvent::Frame(id, data) = e {
            if s.phase == Phase::Receiving {
                if let Some(m) = FlashDataMessage::parse(id, data) {
                    if s.received + 1 >= s.messages_per_sector {
                        assert(write_base(s.target) + s.sector_offset <= u32::MAX);
                    }
                }
            }
        }
    }
}

proof fn lemma_run_spares_bootloader(
    s: SessionView,
    events: Seq<SessionEvent>,
    bootloader_size: u32,
    flash_size: u32,
)
    requires
        s.wf(),
        s.run_ok(events),
        s.target == (FlashTarget::Internal { bootloader_size, flash_size }),
    ensures
        spares_bootloader(s.run(events).1, bootloader_size),
    decreases events.len(),
{
    if events.len() > 0 {
        let e = events[0];
        let (s1, a1) = s.step(e);
        lemma_step_spares_bootloader(s, e, bootloader_size, flash_size);
        lemma_step_keeps_wf(s, e);
        lemma_step_erases_first(s, e);
        lemma_run_spares_bootloader(s1, events.drop_first(), bootloader_size, flash_size);
        lemma_spares_append(a1, s1.run(events.drop_first()).1, bootloader_size);
    }
}

/// The bootloader never erases or overwrites itself: in every run of a fresh
/// session on internal flash (each event one it can handle), every erase
/// range starts at or after the end of the bootloader, every write goes at
/// or after it, and no external-flash block is erased.
pub proof fn lemma_bootloader_spared(
    board_id: u64,
    bus: Bus,
    bootloader_size: u32,
    flash_size: u32,
    events: Seq<SessionEvent>,
)
    requires
        SessionView::initial(board_id, bus, FlashTarget::Internal { bootloader_size, flash_size }).run_ok(
            events,
        ),
    ensures
        spares_bootloader(
            SessionView::initial(board_id, bus, FlashTarget::Internal { bootloader_size, flash_size }).run(
                events,
            ).1,
            bootloader_size,
        ),
{
    let s = SessionView::initial(board_id, bus, FlashTarget::Internal { bootloader_size, flash_size });
    assert(s.sector =~= zero_sector());
    lemma_run_spares_bootloader(s, events, bootloader_size, flash_size);
}

/// Whether `e` is a flashing request addressed to `board_id`.
pub open spec fn is_request_for(e: SessionEvent, board_id: u64) -> bool {
    match e {
        SessionEvent::Frame(id, data) => BeginCanFlashingMessage::parse(id, data) == Some(
            BeginCanFlashingMessage { board_id },
        ),
        _ => false,
    }
}

/// Whether `e` is a flash information frame on `bus`.
pub open spec fn is_info_on(e: SessionEvent, bus: Bus) -> bool {
    match e {
        SessionEvent::Frame(id, data) => crate::session::parse_info(bus, id, data) is Some,
        _ => false,
    }
}

/// Whether `acts` holds an erase of internal or external flash.
pub open spec fn has_erase_action(acts: Seq<ActionSpec>) -> bool {
    exists|i: int| 0 <= i < acts.len() && (#[trigger] acts[i] is EraseRange || acts[i] is EraseBlock)
}

proof fn lemma_done_run(s: SessionView, events: Seq<SessionEvent>)
    requires
        s.phase == Phase::Finished || s.phase == Phase::TimedOut,
    ensures
        s.run(events) == (s, Seq::<ActionSpec>::empty()),
    decreases events.len(),
{
    if events.len() > 0 {
        lemma_done_sessions_ignore_events(s, events[0]);
        lemma_done_run(s, events.drop_first());
        assert(Seq::<ActionSpec>::empty() + Seq::<ActionSpec>::empty() =~= Seq::<ActionSpec>::empty());
    }
}

proof fn lemma_run_order(s: SessionView, events: Seq<SessionEvent>)
    requires
        s.wf(),
        s.run_ok(events),
    ensures
        ({
            let (t, acts) = s.run(events);
            &&& s.phase == Phase::AwaitBegin && acts.len() > 0 ==> acts[0] == ActionSpec::SendAck
                && exists|j: int| 0 <= j < events.len() && #[trigger] is_request_for(events[j], s.board_id)
            &&& s.phase == Phase::AwaitInfo && has_erase_action(acts) ==> exists|j: int|
                0 <= j < events.len() && #[trigger] is_info_on(events[j], s.bus)
            &&& s.phase == Phase::AwaitBegin && has_erase_action(acts) ==> exists|j1: int, j2: int|
                0 <= j1 < j2 < events.len() && #[trigger] is_request_for(events[j1], s.board_id)
                    && #[trigger] is_info_on(events[j2], s.bus)
        }),
    decreases events.len(),
{
    if events.len() > 0 {
        let e = events[0];
        let rest = events.drop_first();
        let (s1, a1) = s.step(e);
        lemma_step_keeps_wf(s, e);
        lemma_run_order(s1, rest);
        let (t, a2) = s1.run(rest);
        let acts = a1 + a2;
        assert(s.run(events) == (t, acts));
        if s1.phase == Phase::Finished || s1.phase == Phase::TimedOut {
            lemma_done_run(s1, rest);
        }
        if has_erase_action(acts) {
            let i = choose|i: int| 0 <= i < acts.len() && (#[trigger] acts[i] is EraseRange || acts[i] is EraseBlock);
            if i >= a1.len() {
                assert(a2[i - a1.len()] == acts[i]);
                assert(has_erase_action(a2));
            }
        }
        if s.phase == Phase::AwaitBegin {
            if is_request_for(e, s.board_id) {
                assert(is_request_for(events[0], s.board_id));
                assert(s1.phase == Phase::AwaitInfo);
                assert(a1 == seq![ActionSpec::SendAck]);
                if has_erase_action(acts) {
                    assert(has_erase_action(a2));
                    let j = choose|j: int| 0 <= j < rest.len() && #[trigger] is_info_on(rest[j], s1.bus);
                    assert(events[j + 1] == rest[j]);
                    assert(is_request_for(events[0], s.board_id) && is_info_on(events[j + 1], s.bus));
                }
            } else {
                assert(a1.len() == 0);
                assert(acts =~= a2);
                if acts.len() > 0 {
                    assert(s1.phase == Phase::AwaitBegin);
                    let j = choose|j: int| 0 <= j < rest.len() && #[trigger] is_request_for(rest[j], s1.board_id);
                    assert(events[j + 1] == rest[j]);
                }
                if has_erase_action(acts) {
                    let (j1, j2) = choose|j1: int, j2: int|
                        0 <= j1 < j2 < rest.len() && #[trigger] is_request_for(rest[j1], s1.board_id)
                            && #[trigger] is_info_on(rest[j2], s1.bus);
                    assert(events[j1 + 1] == rest[j1]);
                    assert(events[j2 + 1] == rest[j2]);
                    assert(is_request_for(events[j1 + 1], s.board_id) && is_info_on(events[j2 + 1], s.bus));
                }
            }
        } else if s.phase == Phase::AwaitInfo {
            if is_info_on(e, s.bus) {
                assert(is_info_on(events[0], s.bus));
            } else {
                assert(s1 == s);
                assert(a1.len() == 0);
                assert(acts =~= a2);
                if has_erase_action(acts) {
                    let j = choose|j: int| 0 <= j < rest.len() && #[trigger] is_info_on(rest[j], s1.bus);
                    assert(events[j + 1] == rest[j]);
                }
            }
        }
    }
}

/// The protocol's order: at every point of a run of a fresh session (each
/// event one it can handle), the actions so far are the start of all the
/// actions of the run; nothing at all is done before a flashing request
/// addressed to this board has been received, and the first thing done is
/// to acknowledge it; and no flash is erased before a flash information
/// frame has been received after that request.
pub proof fn lemma_protocol_order(board_id: u64, bus: Bus, target: FlashTarget, events: Seq<SessionEvent>)
    requires
        SessionView::initial(board_id, bus, target).run_ok(events),
    ensures
        forall|k: int|
            0 <= k <= events.len() ==> {
                let so_far = #[trigger] SessionView::initial(board_id, bus, target).run(events.take(k)).1;
                let all = SessionView::initial(board_id, bus, target).run(events).1;
                &&& so_far.len() <= all.len()
                &&& all.take(so_far.len() as int) == so_far
                &&& so_far.len() > 0 ==> so_far[0] == ActionSpec::SendAck && exists|j: int|
                    0 <= j < k && #[trigger] is_request_for(events[j], board_id)
                &&& has_erase_action(so_far) ==> exists|j1: int, j2: int|
                    0 <= j1 < j2 < k && #[trigger] is_request_for(events[j1], board_id)
                        && #[trigger] is_info_on(events[j2], bus)
            },
{
    let s = SessionView::initial(board_id, bus, target);
    assert(s.sector =~= zero_sector());
    assert forall|k: int| 0 <= k <= events.len() implies {
        let so_far = #[trigger] s.run(events.take(k)).1;
        let all = s.run(events).1;
        &&& so_far.len() <= all.len()
        &&& all.take(so_far.len() as int) == so_far
        &&& so_far.len() > 0 ==> so_far[0] == ActionSpec::SendAck && exists|j: int|
            0 <= j < k && #[trigger] is_request_for(events[j], board_id)
        &&& has_erase_action(so_far) ==> exists|j1: int, j2: int|
            0 <= j1 < j2 < k && #[trigger] is_request_for(events[j1], board_id)
                && #[trigger] is_info_on(events[j2], bus)
    } by {
        let front = events.take(k);
        let back = events.skip(k);
        assert(front + back =~= events);
        lemma_run_append(s, front, back);
        lemma_run_order(s, front);
        let so_far = s.run(front).1;
        let all = s.run(events).1;
        assert(all.take(so_far.len() as int) =~= so_far);
        if so_far.len() > 0 {
            let j = choose|j: int| 0 <= j < front.len() && #[trigger] is_request_for(front[j], board_id);
            assert(events[j] == front[j]);
        }
        if has_erase_action(so_far) {
            let (j1, j2) = choose|j1: int, j2: int|
                0 <= j1 < j2 < front.len() && #[trigger] is_request_for(front[j1], board_id)
                    && #[trigger] is_info_on(front[j2], bus);
            assert(events[j1] == front[j1]);
            assert(events[j2] == front[j2]);
        }
    }
}

/// The number of acknowledgements among `actions`.
pub open spec fn acks(actions: Seq<ActionSpec>) -> nat
    decreases actions.len(),
{
    if actions.len() == 0 {
        0
    } else {
        (if actions[0] is SendAck { 1nat } else { 0nat }) + acks(actions.drop_first())
    }
}

proof fn lemma_acks_append(a: Seq<ActionSpec>, b: Seq<ActionSpec>)
    ensures
        acks(a + b) == acks(a) + acks(b),
    decreases a.len(),
{
    if a.len() == 0 {
        assert(a + b =~= b);
    } else {
        assert((a + b).drop_first() =~= a.drop_first() + b);
        lemma_acks_append(a.drop_first(), b);
    }
}

/// Whether `e` is a revert request.
pub open spec fn is_revert(e: SessionEvent) -> bool {
    match e {
        SessionEvent::Frame(id, data) => crate::can::RevertSectorMessage::parse(id, data) is Some,
        _ => false,
    }
}

/// The number of sector restarts in a run: revert requests that arrive
/// while the session is receiving.
pub open spec fn restarts(s: SessionView, events: Seq<SessionEvent>) -> nat
    decreases events.len(),
{
    if events.len() == 0 {
        0
    } else {
        (if s.phase == Phase::Receiving && is_revert(events[0]) { 1nat } else { 0nat }) + restarts(
            s.step(events[0]).0,
            events.drop_first(),
        )
    }
}

proof fn lemma_done_restarts(s: SessionView, events: Seq<SessionEvent>)
    requires
        s.phase == Phase::Finished || s.phase == Phase::TimedOut,
    ensures
        restarts(s, events) == 0,
    decreases events.len(),
{
    if events.len() > 0 {
        lemma_done_sessions_ignore_events(s, events[0]);
        lemma_done_restarts(s, events.drop_first());
    }
}

proof fn lemma_receiving_step_acks(s: SessionView, e: SessionEvent)
    requires
        s.wf(),
        s.phase == Phase::Receiving,
        s.event_ok(e),
    ensures
        ({
            let (t, a) = s.step(e);
            &&& t.phase == Phase::Receiving || t.phase == Phase::Finished
            &&& acks(a) == 2 * written(a).len() + (if is_revert(e) { 1nat } else { 0nat }) + (if t.phase
                == Phase::Finished { 1nat } else { 0nat })
        }),
{
    reveal_with_fuel(acks, 4);
    reveal_with_fuel(written, 4);
    let (t, a) = s.step(e);
    if let SessionEvent::Frame(id, data) = e {
        if let Some(m) = FlashDataMessage::parse(id, data) {
            if s.received + 1 >= s.messages_per_sector {
                assert(a.drop_first().drop_first().drop_first() =~= Seq::<ActionSpec>::empty());
            }
        }
    }
}

/// Acknowledgements while receiving: from a receiving session (each event
/// one it can handle), the run acknowledges each completed sector twice
/// (once before its write, once for the sector that starts after it), each
/// restart of a sector once, and the finish request once; nothing else.
/// With the acknowledgement of the first sector's start, that is one per
/// sector started, one per sector completed and one at the end.
pub proof fn lemma_acknowledgements_count(s: SessionView, events: Seq<SessionEvent>)
    requires
        s.wf(),
        s.phase == Phase::Receiving,
        s.run_ok(events),
    ensures
        ({
            let (t, acts) = s.run(events);
            acks(acts) == 2 * written(acts).len() + restarts(s, events) + (if t.phase == Phase::Finished {
                1nat
            } else {
                0nat
            })
        }),
    decreases events.len(),
{
    if events.len() > 0 {
        let e = events[0];
        let rest = events.drop_first();
        let (s1, a1) = s.step(e);
        lemma_step_keeps_wf(s, e);
        lemma_receiving_step_acks(s, e);
        let (t, a2) = s1.run(rest);
        assert(s.run(events) == (t, a1 + a2));
        lemma_acks_append(a1, a2);
        lemma_written_append(a1, a2);
        if s1.phase == Phase::Finished {
            lemma_done_run(s1, rest);
            lemma_done_restarts(s1, rest);
            assert(a2.len() == 0);
        } else {
            lemma_acknowledgements_count(s1, rest);
        }
    }
}

/// Whether every write in `acts` stands between two acknowledgements.
pub open spec fn writes_between_acks(acts: Seq<ActionSpec>) -> bool {
    forall|i: int|
        0 <= i < acts.len() && #[trigger] acts[i] is WriteFlash ==> 0 < i && i + 1 < acts.len()
            && acts[i - 1] == ActionSpec::SendAck && acts[i + 1] == ActionSpec::SendAck
}

/// Each sector is acknowledged before it is written, and the next sector's
/// start after: in every run of a well-formed session (each event one it
/// can handle), every flash write comes right after an acknowledgement and
/// right before another.
pub proof fn lemma_writes_between_acks(s: SessionView, events: Seq<SessionEvent>)
    requires
        s.wf(),
        s.run_ok(events),
    ensures
        writes_between_acks(s.run(events).1),
    decreases events.len(),
{
    if events.len() > 0 {
        let e = events[0];
        let rest = events.drop_first();
        let (s1, a1) = s.step(e);
        lemma_step_keeps_wf(s, e);
        lemma_writes_between_acks(s1, rest);
        let (t, a2) = s1.run(rest);
        assert(s.run(events) == (t, a1 + a2));
        let acts = a1 + a2;
        assert(writes_between_acks(a1)) by {
            if let SessionEvent::Frame(id, data) = e {
                if s.phase == Phase::Receiving {
                    if let Some(m) = FlashDataMessage::parse(id, data) {
                        if s.received + 1 >= s.messages_per_sector {
                            assert(a1.len() == 3);
                        }
                    }
                }
            }
        }
        assert forall|i: int| 0 <= i < acts.len() && #[trigger] acts[i] is WriteFlash implies 0 < i
            && i + 1 < acts.len() && acts[i - 1] == ActionSpec::SendAck && acts[i + 1]
            == ActionSpec::SendAck by {
            if i < a1.len() {
                assert(acts[i] == a1[i]);
                assert(acts[i - 1] == a1[i - 1]);
                assert(acts[i + 1] == a1[i + 1]);
            } else {
                let k = i - a1.len();
                assert(acts[i] == a2[k]);
                assert(acts[i - 1] == a2[k - 1]);
                assert(acts[i + 1] == a2[k + 1]);
            }
        }
    }
}

/// A receiving session ignores every frame that is neither a data message,
/// a finish request nor a revert request: such a frame can always be
/// handled, and changes nothing and asks for nothing.
pub proof fn lemma_receiving_ignores_other_frames(s: SessionView, id: CanId, data: Seq<u8>)
    requires
        s.phase == Phase::Receiving,
        id != CanId::Standard(crate::can::FLASH_DATA_ID),
        id != CanId::Standard(crate::can::FLASH_FINISH_ID),
        id != CanId::Standard(crate::can::REVERT_SECTOR_ID),
    ensures
        s.frame_ok(id, data),
        s.on_frame(id, data) == (s, Seq::<ActionSpec>::empty()),
{
}

/// Ignored frames leave no trace: when the session that a run has reached
/// after `before` ignores the event `e` (no change, no action), a run of
/// `before`, `e` and `after` ends in the same session, with the same
/// actions, as a run of `before` and `after`, and can be handled exactly
/// when that one can.
pub proof fn lemma_ignored_event_leaves_no_trace(
    s: SessionView,
    before: Seq<SessionEvent>,
    e: SessionEvent,
    after: Seq<SessionEvent>,
)
    requires
        s.run(before).0.step(e) == (s.run(before).0, Seq::<ActionSpec>::empty()),
        s.run(before).0.event_ok(e),
    ensures
        s.run(before + seq![e] + after) == s.run(before + after),
        s.run_ok(before + seq![e] + after) == s.run_ok(before + after),
{
    let mid = s.run(before).0;
    lemma_run_append(s, before + seq![e], after);
    lemma_run_append(s, before, seq![e]);
    lemma_run_append(s, before, after);
    lemma_run_single(mid, e);
    assert(s.run(before).1 + Seq::<ActionSpec>::empty() =~= s.run(before).1);
}

/// Which frames a session can handle (without one of the failures that
/// stop the bootloader), phase by phase: a waiting session handles every
/// frame whose payload has the size its identifier needs, in particular
/// every 8-byte request, whatever board it is for; a session waiting for the
/// flash information handles every frame that is not flash information; a
/// receiving session handles every frame that is not a data message, and
/// every 8-byte data message whose bytes fit in the sector and that does not
/// complete it; a session that is erasing or over handles every frame.
pub proof fn lemma_frame_acceptance(s: SessionView, id: CanId, data: Seq<u8>)
    ensures
        s.phase == Phase::AwaitBegin ==> (s.frame_ok(id, data) <==> (id == CanId::Standard(
            crate::can::BEGIN_CAN_FLASHING_ID,
        ) ==> data.len() == 8)),
        s.phase == Phase::AwaitBegin && data.len() == 8 ==> s.frame_ok(id, data),
        s.phase == Phase::AwaitInfo && id != CanId::Standard(crate::can::BEGIN_FLASH_INFO_ID)
            ==> s.frame_ok(id, data),
        s.phase == Phase::Receiving && id != CanId::Standard(crate::can::FLASH_DATA_ID) ==> s.frame_ok(
            id,
            data,
        ),
        s.phase == Phase::Receiving && data.len() == 8 && data[0] + 7 <= 224 && s.received + 1
            < s.messages_per_sector ==> s.frame_ok(id, data),
        s.phase == Phase::Erasing || s.phase == Phase::ErasingAll || s.phase == Phase::Finished
            || s.phase == Phase::TimedOut ==> s.frame_ok(id, data),
{
}

/// A request for another board is handled and ignored: a waiting session
/// can handle it, and it changes nothing and asks for nothing.
pub proof fn lemma_other_board_request_ignored(s: SessionView, other: u64)
    requires
        s.phase == Phase::AwaitBegin,
        other != s.board_id,
    ensures
        s.frame_ok(
            CanId::Standard(crate::can::BEGIN_CAN_FLASHING_ID),
            BeginCanFlashingMessage { board_id: other }.payload(),
        ),
        s.on_frame(
            CanId::Standard(crate::can::BEGIN_CAN_FLASHING_ID),
            BeginCanFlashingMessage { board_id: other }.payload(),
        ) == (s, Seq::<ActionSpec>::empty()),
{
    crate::wire::lemma_native_u64_roundtrip(other);
}

/// The end of the wait for a request ends only a waiting session, which
/// then asks for nothing; every other session ignores it.
pub proof fn lemma_timeout_only_while_waiting(s: SessionView)
    ensures
        s.phase == Phase::AwaitBegin ==> s.on_timeout().0.phase == Phase::TimedOut
            && s.on_timeout().1.len() == 0 && s.on_timeout().0.board_id == s.board_id,
        s.phase != Phase::AwaitBegin ==> s.on_timeout() == (s, Seq::<ActionSpec>::empty()),
{
}

/// Erase results: a successful erase starts receiving the first sector, at
/// the start of the application, on a zeroed sector buffer, acknowledged;
/// a failed erase of the application's region is followed by an erase of
/// all the flash after the bootloader; results are ignored when no erase is
/// under way.
pub proof fn lemma_erase_results(s: SessionView, ok: bool, bootloader_size: u32, flash_size: u32)
    requires
        s.target == (FlashTarget::Internal { bootloader_size, flash_size }),
    ensures
        (s.phase == Phase::Erasing || s.phase == Phase::ErasingAll) && ok ==> {
            let (t, a) = s.on_erase_done(ok);
            &&& t.phase == Phase::Receiving
            &&& t.current_offset == 0
            &&& t.sector_offset == 0
            &&& t.sector == zero_sector()
            &&& t.received == 0
            &&& t.sector_bytes == s.sector_bytes
            &&& a == seq![ActionSpec::SendAck]
        },
        s.phase == Phase::Erasing && !ok ==> s.on_erase_done(ok).0.phase == Phase::ErasingAll
            && s.on_erase_done(ok).1 == seq![
            ActionSpec::EraseRange { from: bootloader_size, to: flash_size },
        ],
        s.phase != Phase::Erasing && s.phase != Phase::ErasingAll ==> s.on_erase_done(ok) == (
            s,
            Seq::<ActionSpec>::empty(),
        ),
{
}

/// The flash information on internal flash: the session acknowledges it,
/// then erases from the end of the bootloader to a multiple of the
/// bootloader size that covers the whole application but not a whole
/// bootloader size more, and waits for the erase; on a classic CAN bus each
/// sector is 32 messages of 7 bytes.
pub proof fn lemma_internal_info_step(s: SessionView, app_len: u32, bootloader_size: u32, flash_size: u32)
    requires
        s.phase == Phase::AwaitInfo,
        s.bus == Bus::Can,
        s.target == (FlashTarget::Internal { bootloader_size, flash_size }),
        crate::erase::app_erase_range_fits(bootloader_size, app_len),
    ensures
        ({
            let data = crate::can::BeginFlashInfoMessage { app_len }.payload();
            let (t, a) = s.on_frame(CanId::Standard(crate::can::BEGIN_FLASH_INFO_ID), data);
            &&& s.frame_ok(CanId::Standard(crate::can::BEGIN_FLASH_INFO_ID), data)
            &&& t.phase == Phase::Erasing
            &&& t.app_len == app_len
            &&& t.messages_per_sector == 32
            &&& t.sector_bytes == 224
            &&& a.len() == 2
            &&& a[0] == ActionSpec::SendAck
            &&& a[1] matches ActionSpec::EraseRange { from, to } && from == bootloader_size && to
                >= bootloader_size + app_len && to < bootloader_size + app_len + bootloader_size
                && to % bootloader_size == 0
        }),
{
    crate::wire::lemma_native_u32_roundtrip(app_len);
    crate::erase::lemma_app_erase_end_bounds(bootloader_size, app_len);
}

/// The flash information on FDCAN with external flash: the session
/// handles it whenever the end of the application plus one erase block fits
/// in 32 bits, acknowledges it, erases the blocks from address 0 that cover
/// the application, in order, acknowledges the start of the first sector,
/// and receives sectors of the announced number of 7-byte messages from
/// address 0.
pub proof fn lemma_external_info_step(s: SessionView, info: crate::fdcan::BeginFlashInfoMessage, erase_size: u32)
    requires
        s.phase == Phase::AwaitInfo,
        s.bus == Bus::FdCan,
        s.target == (FlashTarget::External { erase_size }),
        erase_size > 0,
        info.app_len + erase_size <= u32::MAX + 1,
    ensures
        ({
            let data = info.payload();
            let (t, a) = s.on_frame(CanId::Standard(crate::can::BEGIN_FLASH_INFO_ID), data);
            let n = a.len() - 2;
            &&& s.frame_ok(CanId::Standard(crate::can::BEGIN_FLASH_INFO_ID), data)
            &&& t.phase == Phase::Receiving
            &&& t.current_offset == 0
            &&& t.messages_per_sector == info.sector_size
            &&& t.sector_bytes == info.sector_size * 7
            &&& a.len() >= 2
            &&& a[0] == ActionSpec::SendAck
            &&& a[a.len() - 1] == ActionSpec::SendAck
            &&& n * erase_size >= info.app_len
            &&& forall|i: int| 0 <= i < n ==> #[trigger] a[i + 1] == (ActionSpec::EraseBlock {
                address: (i * erase_size) as u32,
            })
        }),
{
    crate::fdcan::lemma_fd_flash_info_roundtrip(info, Seq::empty());
    crate::erase::lemma_erase_blocks_fit_when(info.app_len, erase_size);
    let c = crate::erase::erase_block_count(info.app_len, erase_size);
    assert(c * erase_size >= info.app_len) by (nonlinear_arith)
        requires
            erase_size > 0,
            c == (info.app_len + erase_size - 1) / (erase_size as int),
    ;
}

/// A data message that completes a receiving session's sector can be
/// handled when the sector fits the buffer and neither its flash address
/// nor the next sector's offset overflows 32 bits.
pub proof fn lemma_completing_data_accepted(s: SessionView, data: Seq<u8>)
    requires
        s.phase == Phase::Receiving,
        data.len() == 8,
        data[0] + 7 <= 224,
        s.sector_bytes <= 224,
        write_base(s.target) + s.sector_offset <= u32::MAX,
        s.current_offset + s.sector_bytes <= u32::MAX,
    ensures
        s.frame_ok(CanId::Standard(crate::can::FLASH_DATA_ID), data),
{
}

} // verus!
