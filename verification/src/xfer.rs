//! The shape of LR2021 SPI transactions, as data.
//!
//! A write is a [`Command`]: a 16-bit opcode, sent big-endian, then its
//! parameter bytes, all within one chip-select. A read is a [`Query`]: the
//! opcode goes out in one transaction, and the next clocks back two status
//! bytes followed by `reply_len` bytes of payload.
//!
//! GAP, deliberate: the LR2021's status byte is *not* decoded here. No bit
//! layout for it is published alongside the command set, and the LR1121's
//! (command status in bits 3:1) must not be assumed to carry over — a wrong
//! mapping would turn healthy replies into errors, or worse, hide real ones.
//! Until the datasheet or the hardware settles it, only the two values that
//! cannot be valid on any part are rejected.

use vstd::prelude::*;
use crate::hal::ERR_NO_CHIP;

verus! {

/// Longest parameter block a command carries: one packet.
pub const MAX_PARAMS: usize = 255;

/// One write command: the opcode and the parameter bytes that follow it.
///
/// Held in a fixed buffer, so building a command allocates nothing.
#[derive(Debug, Clone, Copy, PartialEq, Eq)]
pub struct Command {
    opcode: u16,
    len: usize,
    buf: [u8; 255],
}

impl View for Command {
    type V = (u16, Seq<u8>);

    /// The opcode and the parameter bytes.
    closed spec fn view(&self) -> (u16, Seq<u8>) {
        (self.opcode, self.buf@.take(self.len as int))
    }
}

/// Whether `c` is the command with this opcode and these parameters.
pub open spec fn is_command(c: Command, opcode: u16, params: Seq<u8>) -> bool {
    c@.0 == opcode && c@.1 == params
}

impl Command {
    #[verifier::type_invariant]
    spec fn fits(self) -> bool {
        self.len <= MAX_PARAMS
    }

    /// The command with this opcode and a copy of these parameters.
    pub fn new(opcode: u16, params: &[u8]) -> (c: Command)
        requires
            params@.len() <= MAX_PARAMS,
        ensures
            is_command(c, opcode, params@),
    {
        let mut buf = [0u8; 255];
        let n = params.len();
        let mut i: usize = 0;
        while i < n
            invariant
                n == params@.len(),
                n <= 255,
                i <= n,
                buf@.len() == 255,
                forall|k: int| 0 <= k < i ==> buf@[k] == params@[k],
            decreases n - i,
        {
            buf[i] = params[i];
            i = i + 1;
        }
        let c = Command { opcode, len: n, buf };
        assert(c.buf@.take(n as int) =~= params@);
        c
    }

    /// A command with no parameters.
    pub fn bare(opcode: u16) -> (c: Command)
        ensures
            is_command(c, opcode, seq![]),
    {
        let c = Command { opcode, len: 0, buf: [0u8; 255] };
        assert(c.buf@.take(0) =~= Seq::<u8>::empty());
        c
    }

    /// The opcode.
    pub fn opcode(&self) -> (r: u16)
        ensures
            r == self@.0,
    {
        self.opcode
    }

    /// The parameter bytes.
    pub fn params(&self) -> (r: &[u8])
        ensures
            r@ == self@.1,
    {
        proof {
            use_type_invariant(self);
        }
        vstd::slice::slice_subrange(vstd::array::array_as_slice(&self.buf), 0, self.len)
    }
}

/// One read: the opcode to send and how many payload bytes follow the two
/// status bytes of the reply.
#[derive(Debug, Clone, Copy, PartialEq, Eq)]
pub struct Query {
    pub opcode: u16,
    pub reply_len: usize,
}

/// Rejects a status byte that means nothing is driving MISO.
///
/// A floating or undriven MISO reads as 0x00 or 0xFF. Neither is a plausible
/// status byte on a part that is answering, whatever the field layout is.
pub fn check_status(stat: u8) -> (r: Result<(), i32>)
    ensures
        r == (if stat == 0x00 || stat == 0xFF { Err(ERR_NO_CHIP) } else { Ok(()) }),
{
    if stat == 0x00 || stat == 0xFF {
        return Err(ERR_NO_CHIP);
    }
    Ok(())
}

/// What [`accept_status`] makes of the two status bytes.
pub open spec fn accept_status_spec(status: [u8; 2]) -> Result<u8, i32> {
    if status[0] == 0x00 || status[0] == 0xFF {
        Err(ERR_NO_CHIP)
    } else {
        Ok(status[0])
    }
}

/// Judges the two status bytes that precede every read reply.
///
/// There are two, not the LR11xx's one: GetVersion's payload only lands in the
/// same place either side of a PRAM activate once two are stripped. The first
/// is checked and handed back raw; the second is undecoded.
pub fn accept_status(status: [u8; 2]) -> (r: Result<u8, i32>)
    ensures
        r == accept_status_spec(status),
{
    let stat = status[0];
    check_status(stat)?;
    Ok(stat)
}

// ─── Big-endian fields ───────────────────────────────────────────────────────

/// The two bytes of `x`, most significant first.
pub open spec fn be16_bytes(x: int) -> Seq<u8> {
    seq![((x / 0x100) % 0x100) as u8, (x % 0x100) as u8]
}

/// The low three bytes of `x`, most significant first.
pub open spec fn be24_bytes(x: int) -> Seq<u8> {
    seq![((x / 0x1_0000) % 0x100) as u8, ((x / 0x100) % 0x100) as u8, (x % 0x100) as u8]
}

/// The four bytes of `x`, most significant first.
pub open spec fn be32_bytes(x: int) -> Seq<u8> {
    seq![
        ((x / 0x100_0000) % 0x100) as u8,
        ((x / 0x1_0000) % 0x100) as u8,
        ((x / 0x100) % 0x100) as u8,
        (x % 0x100) as u8,
    ]
}

/// The value of big-endian bytes.
pub open spec fn be_value(b: Seq<u8>) -> int
    decreases b.len(),
{
    if b.len() == 0 {
        0
    } else {
        be_value(b.drop_last()) * 256 + b.last()
    }
}

/// `x` as four bytes, most significant first.
pub fn u32_to_be(x: u32) -> (b: [u8; 4])
    ensures
        b@ == be32_bytes(x as int),
{
    let b = [(x >> 24) as u8, (x >> 16) as u8, (x >> 8) as u8, x as u8];
    assert((x >> 24) as u8 == ((x / 0x100_0000) % 0x100) as u8) by (bit_vector);
    assert((x >> 16) as u8 == ((x / 0x1_0000) % 0x100) as u8) by (bit_vector);
    assert((x >> 8) as u8 == ((x / 0x100) % 0x100) as u8) by (bit_vector);
    assert(x as u8 == (x % 0x100) as u8) by (bit_vector);
    assert(b@ =~= be32_bytes(x as int));
    b
}

/// The value of four bytes, most significant first.
pub fn u32_from_be(b: [u8; 4]) -> (x: u32)
    ensures
        x == be_value(b@),
{
    let (b0, b1, b2, b3) = (b[0], b[1], b[2], b[3]);
    let x = ((b0 as u32) << 24) | ((b1 as u32) << 16) | ((b2 as u32) << 8) | (b3 as u32);
    assert(x == b0 * 0x100_0000 + b1 * 0x1_0000 + b2 * 0x100 + b3) by (bit_vector)
        requires
            x == ((b0 as u32) << 24) | ((b1 as u32) << 16) | ((b2 as u32) << 8) | (b3 as u32),
    ;
    proof {
        reveal_with_fuel(be_value, 5);
        assert(b@.drop_last().drop_last().drop_last().drop_last() =~= Seq::<u8>::empty());
    }
    x
}

/// The value of two bytes, most significant first.
pub fn u16_from_be(b0: u8, b1: u8) -> (x: u16)
    ensures
        x == b0 * 0x100 + b1,
        x == be_value(seq![b0, b1]),
{
    let x = ((b0 as u16) << 8) | (b1 as u16);
    assert(x == b0 * 0x100 + b1) by (bit_vector)
        requires
            x == ((b0 as u16) << 8) | (b1 as u16),
    ;
    proof {
        reveal_with_fuel(be_value, 3);
        assert(seq![b0, b1].drop_last().drop_last() =~= Seq::<u8>::empty());
        assert(seq![b0, b1].drop_last() =~= seq![b0]);
    }
    x
}

/// A read is accepted exactly when its first status byte is neither all zeros
/// nor all ones, and then that byte is what comes back.
pub proof fn lemma_accept_status(status: [u8; 2])
    ensures
        accept_status_spec(status) is Err <==> (status[0] == 0 || status[0] == 255),
        accept_status_spec(status) is Err ==> accept_status_spec(status) == Err::<u8, i32>(
            ERR_NO_CHIP,
        ),
        accept_status_spec(status) matches Ok(s) ==> s == status[0],
{
}

/// An opcode is what its two big-endian bytes read back as.
pub proof fn lemma_be16_round_trip(x: u16)
    ensures
        be16_bytes(x as int).len() == 2,
        be16_bytes(x as int)[0] * 256 + be16_bytes(x as int)[1] == x,
{
}

/// A value that fits 24 bits is what its three big-endian bytes read back as.
pub proof fn lemma_be24_round_trip(x: u32)
    requires
        x <= 0x00FF_FFFF,
    ensures
        be_value(be24_bytes(x as int)) == x,
{
    let b = be24_bytes(x as int);
    reveal_with_fuel(be_value, 4);
    assert(b.drop_last().drop_last().drop_last() =~= Seq::<u8>::empty());
    assert(b.drop_last().drop_last() =~= seq![b[0]]);
    assert(b.drop_last() =~= seq![b[0], b[1]]);
}

/// Reading big-endian bytes back gives the value they were made from.
pub proof fn lemma_be32_round_trip(x: u32)
    ensures
        be_value(be32_bytes(x as int)) == x,
{
    let b = be32_bytes(x as int);
    reveal_with_fuel(be_value, 5);
    assert(b.drop_last().drop_last().drop_last().drop_last() =~= Seq::<u8>::empty());
    assert(b.drop_last().drop_last().drop_last() =~= seq![b[0]]);
    assert(b.drop_last().drop_last() =~= seq![b[0], b[1]]);
    assert(b.drop_last() =~= seq![b[0], b[1], b[2]]);
}

// ─── Command sequences ───────────────────────────────────────────────────────

/// What to do next while sending a sequence of commands.
#[derive(Debug, Clone, Copy, PartialEq, Eq)]
pub enum SendAction {
    /// Send the command at this index.
    Send(usize),
    /// The sequence is over, with this result.
    Finish(Result<(), i32>),
}

/// The first action for a sequence of `total` commands.
pub open spec fn send_first(total: usize) -> SendAction {
    if total == 0 {
        SendAction::Finish(Ok(()))
    } else {
        SendAction::Send(0)
    }
}

/// The action after command `sent` of `total` reported `outcome`: a failure
/// ends the sequence with that error; otherwise the next command goes out, or
/// the sequence succeeds after the last.
pub open spec fn send_next(sent: usize, total: usize, outcome: Result<(), i32>) -> SendAction {
    if outcome is Err {
        SendAction::Finish(outcome)
    } else if sent + 1 < total {
        SendAction::Send((sent + 1) as usize)
    } else {
        SendAction::Finish(Ok(()))
    }
}

/// Starts sending `total` commands in order.
pub fn send_start(total: usize) -> (a: SendAction)
    ensures
        a == send_first(total),
{
    if total == 0 {
        SendAction::Finish(Ok(()))
    } else {
        SendAction::Send(0)
    }
}

/// Takes the outcome of sending command `sent` and says what to do next.
pub fn send_step(sent: usize, total: usize, outcome: Result<(), i32>) -> (a: SendAction)
    requires
        sent < total,
    ensures
        a == send_next(sent, total, outcome),
{
    if outcome.is_err() {
        SendAction::Finish(outcome)
    } else if sent + 1 < total {
        SendAction::Send(sent + 1)
    } else {
        SendAction::Finish(Ok(()))
    }
}

/// The actions a sequence of `total` commands takes from `a`, given the
/// outcome of each send in order.
pub open spec fn send_run(a: SendAction, total: usize, outcomes: Seq<Result<(), i32>>) -> Seq<
    SendAction,
>
    decreases outcomes.len(),
{
    match a {
        SendAction::Send(i) => if outcomes.len() == 0 {
            seq![a]
        } else {
            seq![a] + send_run(send_next(i, total, outcomes[0]), total, outcomes.drop_first())
        },
        SendAction::Finish(_) => seq![a],
    }
}

/// How many of the first `n` outcomes succeed before the first failure.
pub open spec fn ok_prefix(outcomes: Seq<Result<(), i32>>, n: nat) -> nat
    decreases n,
{
    if n == 0 || outcomes.len() == 0 {
        0
    } else if outcomes[0] is Err {
        0
    } else {
        1 + ok_prefix(outcomes.drop_first(), (n - 1) as nat)
    }
}

/// The whole run of a sequence stated outright: commands go out in order from
/// index `j`, up to and including the first that fails, and the sequence ends
/// with that failure's error, or with success after the last command.
pub open spec fn send_exchange(j: nat, total: nat, outcomes: Seq<Result<(), i32>>) -> Seq<
    SendAction,
> {
    let n = (total - j) as nat;
    let k = ok_prefix(outcomes, n);
    let sent = if k < n {
        k + 1
    } else {
        n
    };
    Seq::new(sent as nat, |i: int| SendAction::Send((j + i) as usize)) + seq![
        SendAction::Finish(if k < n { outcomes[k as int] } else { Ok(()) }),
    ]
}

proof fn lemma_ok_prefix_bound(outcomes: Seq<Result<(), i32>>, n: nat)
    ensures
        ok_prefix(outcomes, n) <= n,
        ok_prefix(outcomes, n) <= outcomes.len(),
        ok_prefix(outcomes, n) < n && ok_prefix(outcomes, n) < outcomes.len() ==> outcomes[ok_prefix(
            outcomes,
            n,
        ) as int] is Err,
        forall|i: int| 0 <= i < ok_prefix(outcomes, n) ==> outcomes[i] is Ok,
    decreases n,
{
    if n > 0 && outcomes.len() > 0 && outcomes[0] is Ok {
        let t = outcomes.drop_first();
        lemma_ok_prefix_bound(t, (n - 1) as nat);
        assert forall|i: int| 0 <= i < ok_prefix(outcomes, n) implies outcomes[i] is Ok by {
            if i > 0 {
                assert(outcomes[i] == t[i - 1]);
            }
        }
    }
}

proof fn lemma_send_run_from(j: usize, total: usize, outcomes: Seq<Result<(), i32>>)
    requires
        j < total,
        outcomes.len() >= total - j,
    ensures
        send_run(SendAction::Send(j), total, outcomes) == send_exchange(
            j as nat,
            total as nat,
            outcomes,
        ),
    decreases total - j,
{
    let n = (total - j) as nat;
    let t = outcomes.drop_first();
    let x = send_exchange(j as nat, total as nat, outcomes);
    if outcomes[0] is Err {
        assert(ok_prefix(outcomes, n) == 0);
        assert(send_run(SendAction::Finish(outcomes[0]), total, t) == seq![
            SendAction::Finish(outcomes[0]),
        ]);
        assert(x[0] == SendAction::Send(j));
        assert(send_run(SendAction::Send(j), total, outcomes) =~= x);
    } else if j + 1 < total {
        lemma_send_run_from((j + 1) as usize, total, t);
        let y = send_exchange((j + 1) as nat, total as nat, t);
        assert(ok_prefix(outcomes, n) == 1 + ok_prefix(t, (n - 1) as nat));
        assert(send_run(SendAction::Send(j), total, outcomes) == seq![SendAction::Send(j)] + y);
        lemma_ok_prefix_bound(t, (n - 1) as nat);
        let k = ok_prefix(t, (n - 1) as nat);
        if k < n - 1 {
            assert(outcomes[k + 1int] == t[k as int]);
        }
        assert forall|i: int| 0 <= i < x.len() implies (seq![SendAction::Send(j)] + y)[i] == x[i] by {
            if i > 0 && i < x.len() - 1 {
                assert(y[i - 1] == SendAction::Send((j + 1 + (i - 1)) as usize));
            }
        }
        assert(seq![SendAction::Send(j)] + y =~= x);
    } else {
        assert(ok_prefix(t, 0) == 0);
        assert(ok_prefix(outcomes, n) == 1);
        assert(send_run(SendAction::Finish(Ok(())), total, t) == seq![SendAction::Finish(Ok(()))]);
        assert(send_run(SendAction::Send(j), total, outcomes) =~= x);
    }
}

/// A sequence of commands goes out in order and stops at the first failure:
/// the run is exactly [`send_exchange`] from the first command, so no command
/// after a failed one is sent, the failure's error is the result, and the
/// sequence succeeds only when every command did.
pub proof fn lemma_send_sequence_stops_at_first_failure(
    total: usize,
    outcomes: Seq<Result<(), i32>>,
)
    requires
        outcomes.len() >= total,
    ensures
        send_run(send_first(total), total, outcomes) == send_exchange(0, total as nat, outcomes),
        send_run(send_first(total), total, outcomes).last() == SendAction::Finish(Ok(()))
            <==> forall|i: int| 0 <= i < total ==> outcomes[i] is Ok,
{
    lemma_ok_prefix_bound(outcomes, total as nat);
    let x = send_exchange(0, total as nat, outcomes);
    if total == 0 {
        assert(send_run(send_first(total), total, outcomes) =~= x);
    } else {
        lemma_send_run_from(0, total, outcomes);
    }
    let k = ok_prefix(outcomes, total as nat);
    if k < total {
        assert(outcomes[k as int] is Err);
    } else {
        assert(x.last() == SendAction::Finish(Ok(())));
    }
}

// ─── Rx FIFO ─────────────────────────────────────────────────────────────────

/// Chip-select is active low: this level asserts it.
pub const CS_ASSERT: i32 = 0;

/// This level releases chip-select.
pub const CS_RELEASE: i32 = 1;

/// The opcode as it goes on the wire, most significant byte first.
pub fn opcode_bytes(opcode: u16) -> (b: [u8; 2])
    ensures
        b@ == be16_bytes(opcode as int),
{
    let b = [(opcode >> 8) as u8, opcode as u8];
    assert((opcode >> 8) as u8 == ((opcode / 0x100) % 0x100) as u8) by (bit_vector);
    assert(opcode as u8 == (opcode % 0x100) as u8) by (bit_vector);
    assert(b@ =~= be16_bytes(opcode as int));
    b
}

/// One thing for the host to do on the bus during a FIFO read.
#[derive(Debug, Clone, Copy, PartialEq, Eq)]
pub enum BusAction {
    /// Wait for BUSY to fall.
    WaitBusy,
    /// Drive chip-select to this level.
    Select(i32),
    /// Write the opcode, as [`opcode_bytes`] lays it out.
    WriteOpcode(u16),
    /// Clock in the whole receive buffer.
    Read,
    /// The exchange is over, with this result.
    Finish(Result<(), i32>),
}

/// Where a FIFO read stands: which bus operation's outcome it awaits.
#[derive(Debug, Clone, Copy, PartialEq, Eq)]
pub enum FifoPhase {
    AwaitBusy,
    AwaitSelect,
    AwaitWrite,
    AwaitRead,
    AwaitDeselect,
    AwaitSettle,
    Done,
}

/// A FIFO read in progress.
///
/// `pending` holds the outcome of the write and the read, which is reported
/// only after chip-select has been released; once `Done`, it holds the result.
#[derive(Debug, Clone, Copy, PartialEq, Eq)]
pub struct FifoRead {
    pub opcode: u16,
    pub phase: FifoPhase,
    pub pending: Result<(), i32>,
}

/// A FIFO read that has just asked for BUSY to fall.
pub open spec fn fifo_start(opcode: u16) -> FifoRead {
    FifoRead { opcode, phase: FifoPhase::AwaitBusy, pending: Ok(()) }
}

/// What a FIFO read does when the host reports the outcome of the last action.
pub open spec fn fifo_next(s: FifoRead, event: Result<(), i32>) -> (FifoRead, BusAction) {
    let finish = |r: Result<(), i32>|
        (FifoRead { opcode: s.opcode, phase: FifoPhase::Done, pending: r }, BusAction::Finish(r));
    let go = |p: FifoPhase, pending: Result<(), i32>, a: BusAction|
        (FifoRead { opcode: s.opcode, phase: p, pending }, a);
    match s.phase {
        FifoPhase::AwaitBusy => if event is Err {
            finish(event)
        } else {
            go(FifoPhase::AwaitSelect, Ok(()), BusAction::Select(CS_ASSERT))
        },
        FifoPhase::AwaitSelect => if event is Err {
            finish(event)
        } else {
            go(FifoPhase::AwaitWrite, Ok(()), BusAction::WriteOpcode(s.opcode))
        },
        FifoPhase::AwaitWrite => if event is Err {
            go(FifoPhase::AwaitDeselect, event, BusAction::Select(CS_RELEASE))
        } else {
            go(FifoPhase::AwaitRead, Ok(()), BusAction::Read)
        },
        FifoPhase::AwaitRead => go(FifoPhase::AwaitDeselect, event, BusAction::Select(CS_RELEASE)),
        FifoPhase::AwaitDeselect => if s.pending is Err {
            finish(s.pending)
        } else if event is Err {
            finish(event)
        } else {
            go(FifoPhase::AwaitSettle, Ok(()), BusAction::WaitBusy)
        },
        FifoPhase::AwaitSettle => finish(event),
        FifoPhase::Done => (s, BusAction::Finish(s.pending)),
    }
}

/// The actions a FIFO read in state `s` takes, given the host's outcomes in
/// order.
pub open spec fn fifo_run(s: FifoRead, events: Seq<Result<(), i32>>) -> Seq<BusAction>
    decreases events.len(),
{
    if events.len() == 0 {
        seq![]
    } else {
        let (t, a) = fifo_next(s, events[0]);
        seq![a] + fifo_run(t, events.drop_first())
    }
}

/// The whole exchange a FIFO read makes, stated outright: outcome `e[k]`
/// answers action `k`.
///
/// ReadRxFifo is framed unlike every other read on this part: the payload
/// follows the opcode within one chip-select and is *not* preceded by status
/// bytes. Once chip-select is asserted it is released on every path, and a
/// failed write or read is reported only after that.
pub open spec fn fifo_exchange(opcode: u16, e: Seq<Result<(), i32>>) -> Seq<BusAction> {
    let head = seq![
        BusAction::WaitBusy,
        BusAction::Select(CS_ASSERT),
        BusAction::WriteOpcode(opcode),
    ];
    if e[0] is Err {
        seq![BusAction::WaitBusy, BusAction::Finish(e[0])]
    } else if e[1] is Err {
        seq![BusAction::WaitBusy, BusAction::Select(CS_ASSERT), BusAction::Finish(e[1])]
    } else if e[2] is Err {
        head + seq![BusAction::Select(CS_RELEASE), BusAction::Finish(e[2])]
    } else if e[3] is Err {
        head + seq![BusAction::Read, BusAction::Select(CS_RELEASE), BusAction::Finish(e[3])]
    } else if e[4] is Err {
        head + seq![BusAction::Read, BusAction::Select(CS_RELEASE), BusAction::Finish(e[4])]
    } else {
        head + seq![
            BusAction::Read,
            BusAction::Select(CS_RELEASE),
            BusAction::WaitBusy,
            BusAction::Finish(e[5]),
        ]
    }
}

/// Starts clocking the Rx FIFO out in the same chip-select that sends the
/// opcode; the first action is to wait for BUSY.
///
/// Reading it like any other reply silently loses the first two payload bytes
/// and shifts the rest, which looks like a corrupt packet rather than a framing
/// mistake.
pub fn read_fifo(opcode: u16) -> (r: (FifoRead, BusAction))
    ensures
        r.0 == fifo_start(opcode),
        r.1 == BusAction::WaitBusy,
{
    (FifoRead { opcode, phase: FifoPhase::AwaitBusy, pending: Ok(()) }, BusAction::WaitBusy)
}

impl FifoRead {
    /// Takes the outcome of the last action and says what to do next.
    pub fn step(&mut self, event: Result<(), i32>) -> (a: BusAction)
        ensures
            (*final(self), a) == fifo_next(*old(self), event),
    {
        let op = self.opcode;
        match self.phase {
            FifoPhase::AwaitBusy => {
                if event.is_err() {
                    self.phase = FifoPhase::Done;
                    self.pending = event;
                    BusAction::Finish(event)
                } else {
                    self.phase = FifoPhase::AwaitSelect;
                    self.pending = Ok(());
                    BusAction::Select(CS_ASSERT)
                }
            },
            FifoPhase::AwaitSelect => {
                if event.is_err() {
                    self.phase = FifoPhase::Done;
                    self.pending = event;
                    BusAction::Finish(event)
                } else {
                    self.phase = FifoPhase::AwaitWrite;
                    self.pending = Ok(());
                    BusAction::WriteOpcode(op)
                }
            },
            FifoPhase::AwaitWrite => {
                if event.is_err() {
                    self.phase = FifoPhase::AwaitDeselect;
                    self.pending = event;
                    BusAction::Select(CS_RELEASE)
                } else {
                    self.phase = FifoPhase::AwaitRead;
                    self.pending = Ok(());
                    BusAction::Read
                }
            },
            FifoPhase::AwaitRead => {
                self.phase = FifoPhase::AwaitDeselect;
                self.pending = event;
                BusAction::Select(CS_RELEASE)
            },
            FifoPhase::AwaitDeselect => {
                if self.pending.is_err() {
                    self.phase = FifoPhase::Done;
                    BusAction::Finish(self.pending)
                } else if event.is_err() {
                    self.phase = FifoPhase::Done;
                    self.pending = event;
                    BusAction::Finish(event)
                } else {
                    self.phase = FifoPhase::AwaitSettle;
                    self.pending = Ok(());
                    BusAction::WaitBusy
                }
            },
            FifoPhase::AwaitSettle => {
                self.phase = FifoPhase::Done;
                self.pending = event;
                BusAction::Finish(event)
            },
            FifoPhase::Done => BusAction::Finish(self.pending),
        }
    }
}

/// The step machine makes exactly the exchange [`fifo_exchange`] states, for
/// whatever the host reports: the first `n` actions of the run are the whole
/// exchange, ending in its only `Finish`.
pub proof fn lemma_fifo_read_exchange(opcode: u16, events: Seq<Result<(), i32>>)
    requires
        events.len() >= 6,
    ensures
        ({
            let trace = seq![BusAction::WaitBusy] + fifo_run(fifo_start(opcode), events);
            let x = fifo_exchange(opcode, events);
            &&& trace.take(x.len() as int) == x
            &&& x.last() is Finish
            &&& forall|i: int| 0 <= i < x.len() - 1 ==> !(x[i] is Finish)
        }),
{
    reveal_with_fuel(fifo_run, 7);
    let s0 = fifo_start(opcode);
    let e = events;
    let trace = seq![BusAction::WaitBusy] + fifo_run(s0, e);
    let x = fifo_exchange(opcode, e);
    assert(e.drop_first().drop_first().drop_first().drop_first().drop_first().len() >= 1);
    assert(trace.take(x.len() as int) =~= x);
}

/// Once chip-select has been asserted successfully it is released again on
/// every path, and the read succeeds exactly when all six bus operations do.
pub proof fn lemma_fifo_read_releases_and_reports(opcode: u16, e: Seq<Result<(), i32>>)
    requires
        e.len() >= 6,
    ensures
        forall|i: int|
            0 <= i < fifo_exchange(opcode, e).len() && fifo_exchange(opcode, e)[i]
                == BusAction::Select(CS_ASSERT) && e[i] is Ok ==> exists|j: int|
                i < j < fifo_exchange(opcode, e).len() && fifo_exchange(opcode, e)[j]
                    == BusAction::Select(CS_RELEASE),
        fifo_exchange(opcode, e).last() == BusAction::Finish(Ok(())) <==> forall|k: int|
            0 <= k < 6 ==> e[k] is Ok,
{
    let x = fifo_exchange(opcode, e);
    if e[0] is Ok && e[1] is Ok {
        let r = if e[2] is Err || e[3] is Err || e[4] is Err {
            x.len() - 2
        } else {
            x.len() - 3
        };
        assert(x[r] == BusAction::Select(CS_RELEASE));
        assert forall|i: int|
            0 <= i < x.len() && x[i] == BusAction::Select(CS_ASSERT) && e[i] is Ok implies exists|
            j: int|
            i < j < x.len() && x[j] == BusAction::Select(CS_RELEASE) by {
            assert(i < r);
        }
    }
    if x.last() == BusAction::Finish(Ok(())) {
        assert forall|k: int| 0 <= k < 6 implies e[k] is Ok by {
            assert(e[0] is Ok);
        }
    }
    if forall|k: int| 0 <= k < 6 ==> e[k] is Ok {
        assert(e[0] is Ok && e[1] is Ok && e[2] is Ok && e[3] is Ok && e[4] is Ok && e[5] is Ok);
        match e[5] {
            Ok(u) => assert(e[5] == Ok::<(), i32>(u)),
            Err(_) => {},
        }
    }
}

/// With every bus operation succeeding, the read is one chip-select around the
/// opcode and the payload, with no status bytes, and it succeeds.
pub proof fn lemma_fifo_read_clean(opcode: u16)
    ensures
        ({
            let ok = Seq::new(6, |i: int| Ok::<(), i32>(()));
            fifo_exchange(opcode, ok) == seq![
                BusAction::WaitBusy,
                BusAction::Select(CS_ASSERT),
                BusAction::WriteOpcode(opcode),
                BusAction::Read,
                BusAction::Select(CS_RELEASE),
                BusAction::WaitBusy,
                BusAction::Finish(Ok(())),
            ]
        }),
{
    let ok = Seq::new(6, |i: int| Ok::<(), i32>(()));
    assert(fifo_exchange(opcode, ok) =~= seq![
        BusAction::WaitBusy,
        BusAction::Select(CS_ASSERT),
        BusAction::WriteOpcode(opcode),
        BusAction::Read,
        BusAction::Select(CS_RELEASE),
        BusAction::WaitBusy,
        BusAction::Finish(Ok(())),
    ]);
}

} // verus!
