//! Flashing an external flash chip from a debugger, over the host-to-chip
//! byte channel, as a state machine.
//!
//! The host sends a start command; the board answers with its erase and
//! write sizes, receives the application length, erases the blocks the
//! application will occupy, and then receives the application one write page
//! at a time, acknowledging each, until the host stops sending.
use crate::erase::{erase_block_addresses, erase_block_count, erase_blocks_fit, erase_blocks_fit_exec};
use vstd::bytes::{
    lemma_auto_spec_u32_to_from_le_bytes, spec_u32_from_le_bytes, spec_u32_to_le_bytes,
    u32_from_le_bytes, u32_to_le_bytes,
};
use vstd::prelude::*;

verus! {

/// Command byte with which the host starts flashing.
pub const INIT_FLASH_CMD: u8 = 0xD;

/// Reply with which the board accepts.
pub const ACCEPT_FLASH_CMD: u8 = 0xDD;

/// Sent once the application's blocks are erased.
pub const ERASE_FINISHED_CMD: u8 = 0xA;

/// Sent after each page written.
pub const PAGE_WRITTEN_CMD: u8 = 0xB;

/// Sent when the host has stopped sending pages.
pub const FLASH_FINISHED_CMD: u8 = 0xC;

/// Where a debugger flashing session stands.
#[derive(Clone, Copy, Debug, PartialEq, Eq, Structural)]
pub enum DebuggerPhase {
    /// Waiting for the start command.
    AwaitInit,
    /// Waiting for the four bytes of the application length.
    AwaitAppLen,
    /// Receiving pages.
    Writing,
    /// The host stopped sending pages; flashing is over.
    Done,
    /// No start command came, or another byte came instead.
    Declined,
}

/// What the driver has to do, in order, after a step.
#[derive(Debug)]
pub enum DebuggerAction {
    /// Send these bytes to the host.
    Send(Vec<u8>),
    /// Erase the block that starts at `address`.
    EraseBlock { address: u32 },
    /// Write `data` at `address`.
    WriteFlash { address: u32, data: Vec<u8> },
}

/// The mathematical content of a [`DebuggerAction`].
pub enum DebuggerActionSpec {
    Send(Seq<u8>),
    EraseBlock { address: u32 },
    WriteFlash { address: u32, data: Seq<u8> },
}

impl View for DebuggerAction {
    type V = DebuggerActionSpec;

    open spec fn view(&self) -> DebuggerActionSpec {
        match self {
            DebuggerAction::Send(bytes) => DebuggerActionSpec::Send(bytes@),
            DebuggerAction::EraseBlock { address } => DebuggerActionSpec::EraseBlock {
                address: *address,
            },
            DebuggerAction::WriteFlash { address, data } => DebuggerActionSpec::WriteFlash {
                address: *address,
                data: data@,
            },
        }
    }
}

/// The content of a list of actions.
pub open spec fn debugger_action_views(actions: Seq<DebuggerAction>) -> Seq<DebuggerActionSpec> {
    actions.map_values(|a: DebuggerAction| a@)
}

/// The board's answer to the start command: the accept byte, then the erase
/// size and the write size as 32-bit little-endian integers.
pub open spec fn handshake_reply(erase_size: usize, write_size: usize) -> Seq<DebuggerActionSpec> {
    seq![
        DebuggerActionSpec::Send(seq![ACCEPT_FLASH_CMD]),
        DebuggerActionSpec::Send(spec_u32_to_le_bytes(erase_size as u32)),
        DebuggerActionSpec::Send(spec_u32_to_le_bytes(write_size as u32)),
    ]
}

/// The actions that erase the blocks covering `app_len` bytes.
pub open spec fn debugger_erase_actions(app_len: u32, erase_size: u32) -> Seq<DebuggerActionSpec> {
    Seq::new(
        erase_block_count(app_len, erase_size) as nat,
        |i: int| DebuggerActionSpec::EraseBlock { address: (i * erase_size) as u32 },
    )
}

/// The mathematical content of a [`DebuggerSession`].
pub struct DebuggerView {
    pub erase_size: usize,
    pub write_size: usize,
    pub phase: DebuggerPhase,
    pub next_address: u32,
}

impl DebuggerView {
    /// A fresh session waiting for the start command.
    pub open spec fn initial(erase_size: usize, write_size: usize) -> DebuggerView {
        DebuggerView { erase_size, write_size, phase: DebuggerPhase::AwaitInit, next_address: 0 }
    }

    /// The session in phase `phase`, all else unchanged.
    pub open spec fn in_phase(self, phase: DebuggerPhase) -> DebuggerView {
        DebuggerView { phase, ..self }
    }

    /// The next session and the actions to perform when the wait for the
    /// start command ends with `byte`, or with nothing in time (`None`).
    pub open spec fn on_command(self, byte: Option<u8>) -> (DebuggerView, Seq<DebuggerActionSpec>) {
        if self.phase == DebuggerPhase::AwaitInit {
            if byte == Some(INIT_FLASH_CMD) {
                (
                    self.in_phase(DebuggerPhase::AwaitAppLen),
                    handshake_reply(self.erase_size, self.write_size),
                )
            } else {
                (self.in_phase(DebuggerPhase::Declined), seq![])
            }
        } else {
            (self, seq![])
        }
    }

    /// The next session and the actions to perform when the application
    /// length arrives as `bytes`, little-endian.
    pub open spec fn on_app_len(self, bytes: Seq<u8>) -> (DebuggerView, Seq<DebuggerActionSpec>) {
        if self.phase == DebuggerPhase::AwaitAppLen {
            (
                DebuggerView { phase: DebuggerPhase::Writing, next_address: 0, ..self },
                debugger_erase_actions(spec_u32_from_le_bytes(bytes), self.erase_size as u32)
                    + seq![DebuggerActionSpec::Send(seq![ERASE_FINISHED_CMD])],
            )
        } else {
            (self, seq![])
        }
    }

    /// Whether the application length can be handled: the loop over erase
    /// blocks ends and its addresses fit in 32 bits.
    pub open spec fn app_len_ok(self, bytes: Seq<u8>) -> bool {
        self.phase == DebuggerPhase::AwaitAppLen ==> erase_blocks_fit(
            spec_u32_from_le_bytes(bytes),
            self.erase_size as u32,
        )
    }

    /// The next session and the actions to perform when a page arrives, or
    /// when none came in time (`None`).
    pub open spec fn on_page(self, page: Option<Seq<u8>>) -> (DebuggerView, Seq<DebuggerActionSpec>) {
        if self.phase == DebuggerPhase::Writing {
            match page {
                Some(data) => (
                    DebuggerView {
                        next_address: (self.next_address + (self.write_size as u32)) as u32,
                        ..self
                    },
                    seq![
                        DebuggerActionSpec::WriteFlash { address: self.next_address, data },
                        DebuggerActionSpec::Send(seq![PAGE_WRITTEN_CMD]),
                    ],
                ),
                None => (
                    self.in_phase(DebuggerPhase::Done),
                    seq![DebuggerActionSpec::Send(seq![FLASH_FINISHED_CMD])],
                ),
            }
        } else {
            (self, seq![])
        }
    }

    /// Whether a page can be handled: it is one write page long and the
    /// address after it fits in 32 bits.
    pub open spec fn page_ok(self, page: Option<Seq<u8>>) -> bool {
        self.phase == DebuggerPhase::Writing ==> match page {
            Some(data) => data.len() == self.write_size && self.next_address + (self.write_size as u32)
                <= u32::MAX,
            None => true,
        }
    }
}

/// The actions for the pages `pages`, received one after the other by a
/// writing session whose next page goes at `start`: each page written right
/// after the previous one, and acknowledged.
pub open spec fn page_actions(start: u32, write_size: usize, pages: Seq<Seq<u8>>) -> Seq<
    DebuggerActionSpec,
>
    decreases pages.len(),
{
    if pages.len() == 0 {
        seq![]
    } else {
        seq![
            DebuggerActionSpec::WriteFlash { address: start, data: pages[0] },
            DebuggerActionSpec::Send(seq![PAGE_WRITTEN_CMD]),
        ] + page_actions((start + (write_size as u32)) as u32, write_size, pages.drop_first())
    }
}

impl DebuggerView {
    /// The session after the pages `pages`, one after the other, and the
    /// actions performed on the way.
    pub open spec fn run_pages(self, pages: Seq<Seq<u8>>) -> (DebuggerView, Seq<DebuggerActionSpec>)
        decreases pages.len(),
    {
        if pages.len() == 0 {
            (self, seq![])
        } else {
            let (next, first) = self.on_page(Some(pages[0]));
            let (last, rest) = next.run_pages(pages.drop_first());
            (last, first + rest)
        }
    }

    /// Whether each of `pages` can be handled in turn.
    pub open spec fn run_pages_ok(self, pages: Seq<Seq<u8>>) -> bool
        decreases pages.len(),
    {
        pages.len() == 0 || (self.page_ok(Some(pages[0])) && self.on_page(Some(pages[0])).0.run_pages_ok(
            pages.drop_first(),
        ))
    }
}

/// Pages are written in the order received, each right after the previous
/// one, the `k`-th at `k` write sizes past where the first went, and each is
/// acknowledged; the session keeps writing.
pub proof fn lemma_pages_written_in_order(s: DebuggerView, pages: Seq<Seq<u8>>)
    requires
        s.phase == DebuggerPhase::Writing,
        s.run_pages_ok(pages),
    ensures
        s.run_pages(pages).1 == page_actions(s.next_address, s.write_size, pages),
        s.run_pages(pages).0.phase == DebuggerPhase::Writing,
        s.run_pages(pages).0.next_address == s.next_address + pages.len() * (s.write_size as u32),
    decreases pages.len(),
{
    if pages.len() > 0 {
        let next = s.on_page(Some(pages[0])).0;
        lemma_pages_written_in_order(next, pages.drop_first());
        assert(next.next_address + pages.drop_first().len() * (s.write_size as u32) == s.next_address
            + pages.len() * (s.write_size as u32)) by (nonlinear_arith)
            requires
                next.next_address == s.next_address + (s.write_size as u32),
                pages.drop_first().len() == pages.len() - 1,
        ;
    }
}

/// A session that declined or finished ignores everything that comes after.
pub proof fn lemma_ended_debugger_sessions_ignore_input(
    s: DebuggerView,
    byte: Option<u8>,
    bytes: Seq<u8>,
    page: Option<Seq<u8>>,
)
    requires
        s.phase == DebuggerPhase::Done || s.phase == DebuggerPhase::Declined,
    ensures
        s.on_command(byte) == (s, Seq::<DebuggerActionSpec>::empty()),
        s.on_app_len(bytes) == (s, Seq::<DebuggerActionSpec>::empty()),
        s.on_page(page) == (s, Seq::<DebuggerActionSpec>::empty()),
{
}

/// The end of the pages can always be handled, and a page of the write size
/// whose end address fits in 32 bits always can; a session that is not
/// writing handles everything.  When the host stops sending pages, a
/// writing session reports the end with the finish byte and is done.
pub proof fn lemma_page_acceptance(s: DebuggerView, data: Seq<u8>)
    ensures
        s.page_ok(None),
        data.len() == s.write_size && s.next_address + (s.write_size as u32) <= u32::MAX
            ==> s.page_ok(Some(data)),
        s.phase != DebuggerPhase::Writing ==> s.page_ok(Some(data)),
        s.phase == DebuggerPhase::Writing ==> s.on_page(None).0.phase == DebuggerPhase::Done
            && s.on_page(None).1 == seq![DebuggerActionSpec::Send(seq![FLASH_FINISHED_CMD])],
{
}

/// The start of a debugger session: the start command is answered with the
/// accept byte and then the erase and write sizes as 4-byte little-endian
/// integers, and the session waits for the application length; any other
/// byte, or none in time, declines without answer.
pub proof fn lemma_start_command(s: DebuggerView, byte: Option<u8>)
    requires
        s.phase == DebuggerPhase::AwaitInit,
    ensures
        byte == Some(INIT_FLASH_CMD) ==> {
            let (t, a) = s.on_command(byte);
            &&& t.phase == DebuggerPhase::AwaitAppLen
            &&& a.len() == 3
            &&& a[0] == DebuggerActionSpec::Send(seq![0xDDu8])
            &&& a[1] matches DebuggerActionSpec::Send(b) && b.len() == 4 && spec_u32_from_le_bytes(b)
                == s.erase_size as u32
            &&& a[2] matches DebuggerActionSpec::Send(b) && b.len() == 4 && spec_u32_from_le_bytes(b)
                == s.write_size as u32
        },
        byte != Some(INIT_FLASH_CMD) ==> s.on_command(byte).0.phase == DebuggerPhase::Declined
            && s.on_command(byte).1.len() == 0,
{
    lemma_auto_spec_u32_to_from_le_bytes();
}

/// The application length: the blocks covering it are erased, in address
/// order from 0, then the end of the erase is reported and pages are
/// written from address 0.
pub proof fn lemma_app_len_erases(s: DebuggerView, bytes: Seq<u8>)
    requires
        s.phase == DebuggerPhase::AwaitAppLen,
        s.erase_size as u32 > 0,
    ensures
        ({
            let (t, a) = s.on_app_len(bytes);
            let app_len = spec_u32_from_le_bytes(bytes);
            let n = a.len() - 1;
            &&& t.phase == DebuggerPhase::Writing
            &&& t.next_address == 0
            &&& a[n] == DebuggerActionSpec::Send(seq![ERASE_FINISHED_CMD])
            &&& n * (s.erase_size as u32) >= app_len
            &&& forall|i: int| 0 <= i < n ==> #[trigger] a[i] == (DebuggerActionSpec::EraseBlock {
                address: (i * (s.erase_size as u32)) as u32,
            })
            &&& forall|i: int| 0 <= i < n ==> #[trigger] (i * (s.erase_size as u32)) < app_len
        }),
{
    let app_len = spec_u32_from_le_bytes(bytes);
    let es = s.erase_size as u32;
    let c = erase_block_count(app_len, es);
    assert(c * es >= app_len && (c - 1) * es < app_len) by (nonlinear_arith)
        requires
            es > 0,
            c == (app_len + es - 1) / (es as int),
    ;
    let a = s.on_app_len(bytes).1;
    assert forall|i: int| 0 <= i < c implies #[trigger] (i * es) < app_len by {
        assert(i * es <= (c - 1) * es) by (nonlinear_arith)
            requires
                0 <= i < c,
                es > 0,
        ;
    }
}

/// Which application lengths can be handled: every one when the session is
/// not waiting for it; with a non-zero erase size every one whose end plus
/// one block fits in 32 bits; with a zero erase size only the empty one (any
/// other would never finish erasing).
pub proof fn lemma_app_len_acceptance(s: DebuggerView, bytes: Seq<u8>)
    ensures
        s.phase != DebuggerPhase::AwaitAppLen ==> s.app_len_ok(bytes),
        s.phase == DebuggerPhase::AwaitAppLen && s.erase_size as u32 > 0 && spec_u32_from_le_bytes(bytes)
            + (s.erase_size as u32) <= u32::MAX + 1 ==> s.app_len_ok(bytes),
        s.phase == DebuggerPhase::AwaitAppLen && s.erase_size as u32 == 0 ==> (s.app_len_ok(bytes)
            <==> spec_u32_from_le_bytes(bytes) == 0),
{
    crate::erase::lemma_erase_blocks_fit_when(spec_u32_from_le_bytes(bytes), s.erase_size as u32);
}

/// A debugger flashing session.
pub struct DebuggerSession {
    pub erase_size: usize,
    pub write_size: usize,
    pub phase: DebuggerPhase,
    pub next_address: u32,
}

impl View for DebuggerSession {
    type V = DebuggerView;

    open spec fn view(&self) -> DebuggerView {
        DebuggerView {
            erase_size: self.erase_size,
            write_size: self.write_size,
            phase: self.phase,
            next_address: self.next_address,
        }
    }
}

impl DebuggerSession {
    /// A session for a chip with these erase and write sizes, waiting for
    /// the start command.
    pub fn new(erase_size: usize, write_size: usize) -> (s: Self)
        ensures
            s@ == DebuggerView::initial(erase_size, write_size),
    {
        DebuggerSession { erase_size, write_size, phase: DebuggerPhase::AwaitInit, next_address: 0 }
    }

    /// Handles the end of the wait for the start command.
    pub fn on_command(&mut self, byte: Option<u8>) -> (actions: Vec<DebuggerAction>)
        ensures
            final(self)@ == old(self)@.on_command(byte).0,
            debugger_action_views(actions@) == old(self)@.on_command(byte).1,
    {
        let mut actions: Vec<DebuggerAction> = Vec::new();
        if self.phase == DebuggerPhase::AwaitInit {
            if byte == Some(INIT_FLASH_CMD) {
                self.phase = DebuggerPhase::AwaitAppLen;
                let mut accept: Vec<u8> = Vec::new();
                accept.push(ACCEPT_FLASH_CMD);
                actions.push(DebuggerAction::Send(accept));
                actions.push(DebuggerAction::Send(u32_to_le_bytes(self.erase_size as u32)));
                actions.push(DebuggerAction::Send(u32_to_le_bytes(self.write_size as u32)));
            } else {
                self.phase = DebuggerPhase::Declined;
            }
        }
        assert(debugger_action_views(actions@) =~= old(self)@.on_command(byte).1);
        actions
    }

    /// Whether [`DebuggerSession::on_app_len`] can handle `bytes`.
    pub fn accepts_app_len(&self, bytes: &[u8; 4]) -> (r: bool)
        ensures
            r == self@.app_len_ok(bytes@),
    {
        if self.phase != DebuggerPhase::AwaitAppLen {
            return true;
        }
        erase_blocks_fit_exec(u32_from_le_bytes(bytes), self.erase_size as u32)
    }

    /// Handles the application length.
    pub fn on_app_len(&mut self, bytes: &[u8; 4]) -> (actions: Vec<DebuggerAction>)
        requires
            old(self)@.app_len_ok(bytes@),
        ensures
            final(self)@ == old(self)@.on_app_len(bytes@).0,
            debugger_action_views(actions@) == old(self)@.on_app_len(bytes@).1,
    {
        let mut actions: Vec<DebuggerAction> = Vec::new();
        if self.phase == DebuggerPhase::AwaitAppLen {
            let app_len = u32_from_le_bytes(bytes);
            let erase_size = self.erase_size as u32;
            let addresses = erase_block_addresses(app_len, erase_size);
            let ghost blocks = debugger_erase_actions(app_len, erase_size);
            let mut i: usize = 0;
            while i < addresses.len()
                invariant
                    i <= addresses@.len(),
                    actions@.len() == i,
                    addresses@.len() == blocks.len(),
                    blocks == debugger_erase_actions(app_len, erase_size),
                    forall|k: int|
                        0 <= k < addresses@.len() ==> #[trigger] addresses@[k] == k * erase_size,
                    debugger_action_views(actions@) == blocks.take(i as int),
                decreases addresses.len() - i,
            {
                let address = addresses[i];
                assert(blocks[i as int] == DebuggerActionSpec::EraseBlock { address });
                let ghost prev = actions@;
                actions.push(DebuggerAction::EraseBlock { address });
                assert(debugger_action_views(actions@) =~= debugger_action_views(prev).push(
                    blocks[i as int],
                ));
                assert(debugger_action_views(actions@) =~= blocks.take(i + 1));
                i = i + 1;
            }
            assert(blocks.take(i as int) =~= blocks);
            let mut finished: Vec<u8> = Vec::new();
            finished.push(ERASE_FINISHED_CMD);
            actions.push(DebuggerAction::Send(finished));
            self.phase = DebuggerPhase::Writing;
            self.next_address = 0;
        }
        assert(debugger_action_views(actions@) =~= old(self)@.on_app_len(bytes@).1);
        actions
    }

    /// Whether [`DebuggerSession::on_page`] can handle `page`.
    pub fn accepts_page(&self, page: Option<&[u8]>) -> (r: bool)
        ensures
            r == self@.page_ok(
                match page {
                    Some(p) => Some(p@),
                    None => None,
                },
            ),
            page is None ==> r,
            self.phase != DebuggerPhase::Writing ==> r,
    {
        if self.phase != DebuggerPhase::Writing {
            return true;
        }
        match page {
            Some(p) => p.len() == self.write_size && self.next_address.checked_add(
                self.write_size as u32,
            ).is_some(),
            None => true,
        }
    }

    /// Handles a received page, or the end of the wait for one (`None`).
    pub fn on_page(&mut self, page: Option<&[u8]>) -> (actions: Vec<DebuggerAction>)
        requires
            old(self)@.page_ok(
                match page {
                    Some(p) => Some(p@),
                    None => None,
                },
            ),
        ensures
            final(self)@ == old(self)@.on_page(
                match page {
                    Some(p) => Some(p@),
                    None => None,
                },
            ).0,
            debugger_action_views(actions@) == old(self)@.on_page(
                match page {
                    Some(p) => Some(p@),
                    None => None,
                },
            ).1,
    {
        let mut actions: Vec<DebuggerAction> = Vec::new();
        if self.phase == DebuggerPhase::Writing {
            match page {
                Some(data) => {
                    let address = self.next_address;
                    actions.push(
                        DebuggerAction::WriteFlash {
                            address,
                            data: vstd::slice::slice_to_vec(data),
                        },
                    );
                    let mut written: Vec<u8> = Vec::new();
                    written.push(PAGE_WRITTEN_CMD);
                    actions.push(DebuggerAction::Send(written));
                    self.next_address = address + self.write_size as u32;
                },
                None => {
                    let mut done: Vec<u8> = Vec::new();
                    done.push(FLASH_FINISHED_CMD);
                    actions.push(DebuggerAction::Send(done));
                    self.phase = DebuggerPhase::Done;
                },
            }
        }
        assert(debugger_action_views(actions@) =~= old(self)@.on_page(
            match page {
                Some(p) => Some(p@),
                None => None,
            },
        ).1);
        actions
    }
}

} // verus!
