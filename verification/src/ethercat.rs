//! Bit-level rules of the EtherCAT process-data image and the decisions of
//! the cyclic master.

use vstd::prelude::*;

verus! {

/// Largest number of sub-devices in the group.
pub const MAX_SLAVES: usize = 16;

/// Length of the process-data image in bytes.
pub const PDI_LEN: usize = 64;

/// Capacity of the queue of requests to the master.
pub const COMMAND_QUEUE: usize = 10;

/// `byte` with bit `idx` replaced by `state` and every other bit kept.
pub open spec fn bit_replaced(byte: u8, idx: u8, state: bool) -> u8 {
    (byte & !(1u8 << idx)) | ((if state {
        1u8
    } else {
        0u8
    }) << idx)
}

/// Whether bit `idx` of `byte` is set.
pub open spec fn bit_at(byte: u8, idx: u8) -> bool {
    (byte >> idx) & 1u8 == 1u8
}

/// Replaces bit `idx` of `byte` by `state`.
pub fn replace_bit(byte: u8, idx: u8, state: bool) -> (updated: u8)
    requires
        idx <= 7,
    ensures
        updated == bit_replaced(byte, idx, state),
{
    let flag: u8 = if state { 1 } else { 0 };
    (byte & !(1u8 << idx)) | (flag << idx)
}

/// Reads bit `idx` of `byte`: the state of that bit in the byte that
/// answers a query.
pub fn read_bit(byte: u8, idx: u8) -> (set: bool)
    requires
        idx <= 7,
    ensures
        set == bit_at(byte, idx),
{
    (byte >> idx) & 1u8 == 1u8
}

/// A single-bit update sets the addressed bit to the new state and leaves
/// every other bit of the byte as it was.
pub proof fn lemma_single_bit_update(byte: u8, idx: u8, state: bool, other: u8)
    requires
        idx <= 7,
        other <= 7,
    ensures
        bit_at(bit_replaced(byte, idx, state), idx) == state,
        other != idx ==> bit_at(bit_replaced(byte, idx, state), other) == bit_at(byte, other),
{
    let flag: u8 = if state { 1 } else { 0 };
    assert(((((byte & !(1u8 << idx)) | (flag << idx)) >> idx) & 1u8 == 1u8) == (flag == 1u8))
        by (bit_vector)
        requires
            idx <= 7,
            flag <= 1,
    ;
    assert(other != idx ==> ((((byte & !(1u8 << idx)) | (flag << idx)) >> other) & 1u8) == ((byte
        >> other) & 1u8)) by (bit_vector)
        requires
            idx <= 7,
            other <= 7,
            flag <= 1,
    ;
}

/// Updates of two different bits give the same byte in either order, and
/// of two updates of one bit the later one stands.
pub proof fn lemma_bit_updates_compose(byte: u8, i: u8, a: bool, j: u8, b: bool)
    requires
        i <= 7,
        j <= 7,
    ensures
        i != j ==> bit_replaced(bit_replaced(byte, i, a), j, b) == bit_replaced(
            bit_replaced(byte, j, b),
            i,
            a,
        ),
        i == j ==> bit_replaced(bit_replaced(byte, i, a), j, b) == bit_replaced(byte, j, b),
{
    let fa: u8 = if a { 1 } else { 0 };
    let fb: u8 = if b { 1 } else { 0 };
    assert(i != j ==> ((((byte & !(1u8 << i)) | (fa << i)) & !(1u8 << j)) | (fb << j)) == ((((byte
        & !(1u8 << j)) | (fb << j)) & !(1u8 << i)) | (fa << i))) by (bit_vector)
        requires
            i <= 7,
            j <= 7,
            fa <= 1,
            fb <= 1,
    ;
    assert(i == j ==> ((((byte & !(1u8 << i)) | (fa << i)) & !(1u8 << j)) | (fb << j)) == ((byte
        & !(1u8 << j)) | (fb << j))) by (bit_vector)
        requires
            i <= 7,
            j <= 7,
            fa <= 1,
            fb <= 1,
    ;
}

/// What a request asks of a card.
#[derive(Clone, Copy, Debug, PartialEq, Eq, Structural)]
pub enum Command {
    /// Set one output bit.
    SetState(bool),
    /// Report the input byte.
    GetState,
}

/// A request to the master: the card, the bit and the command.
#[derive(Clone, Copy, Debug, PartialEq, Eq, Structural)]
pub struct IoMsg {
    pub slot: usize,
    pub idx: u8,
    pub cmd: Command,
}

/// The first input byte and the first output byte of one card.
#[derive(Clone, Copy, Debug, PartialEq, Eq, Structural)]
pub struct CardImage {
    pub input: u8,
    pub output: u8,
}

/// The part of the process-data image that requests act on: one entry per
/// configured card.
pub struct Ek1100Client {
    pub cards: Vec<CardImage>,
}

impl Ek1100Client {
    /// Whether the image has no more cards than the group can hold.
    pub open spec fn wf(&self) -> bool {
        self.cards@.len() <= MAX_SLAVES
    }

    /// Whether `msg` names a card of the image and a bit of a byte.
    pub open spec fn accepts(&self, msg: IoMsg) -> bool {
        msg.slot < self.cards@.len() && msg.idx <= 7
    }

    /// The image after `msg` has been applied.
    pub open spec fn applied(&self, msg: IoMsg) -> Seq<CardImage> {
        match msg.cmd {
            Command::SetState(state) => self.cards@.update(
                msg.slot as int,
                (CardImage {
                    input: self.cards@[msg.slot as int].input,
                    output: bit_replaced(self.cards@[msg.slot as int].output, msg.idx, state),
                }),
            ),
            Command::GetState => self.cards@,
        }
    }

    /// The answer that `msg` is owed: the whole input byte for a query,
    /// nothing for an update.
    pub open spec fn answer(&self, msg: IoMsg) -> Option<u8> {
        match msg.cmd {
            Command::SetState(_) => None,
            Command::GetState => Some(self.cards@[msg.slot as int].input),
        }
    }

    /// An image of `cards` cards with every byte zero.
    pub fn new(cards: usize) -> (client: Self)
        requires
            cards <= MAX_SLAVES,
        ensures
            client.wf(),
            client.cards@.len() == cards,
            forall|i: int|
                0 <= i < cards ==> #[trigger] client.cards@[i] == (CardImage {
                    input: 0,
                    output: 0,
                }),
    {
        let mut image: Vec<CardImage> = Vec::new();
        let mut i: usize = 0;
        while i < cards
            invariant
                i <= cards,
                image@.len() == i,
                forall|k: int|
                    0 <= k < i ==> #[trigger] image@[k] == (CardImage { input: 0, output: 0 }),
            decreases cards - i,
        {
            image.push(CardImage { input: 0, output: 0 });
            i = i + 1;
        }
        Ek1100Client { cards: image }
    }

    /// Applies one request to the image: an update replaces a single output
    /// bit of the addressed card, a query answers with its input byte and
    /// changes nothing.
    pub fn handle_message(&mut self, msg: IoMsg) -> (reply: Option<u8>)
        requires
            old(self).wf(),
            old(self).accepts(msg),
        ensures
            final(self).wf(),
            final(self).cards@ == old(self).applied(msg),
            reply == old(self).answer(msg),
    {
        let card = self.cards[msg.slot];
        match msg.cmd {
            Command::SetState(state) => {
                let updated = CardImage {
                    input: card.input,
                    output: replace_bit(card.output, msg.idx, state),
                };
                self.cards.set(msg.slot, updated);
                None
            },
            Command::GetState => Some(card.input),
        }
    }
}

/// Two updates of one card applied one after the other leave its output
/// byte as the second update of the result of the first; two updates of
/// different bits therefore both stand.
pub proof fn lemma_updates_apply_in_order(
    before: Ek1100Client,
    between: Ek1100Client,
    first: IoMsg,
    second: IoMsg,
)
    requires
        before.wf(),
        before.accepts(first),
        before.accepts(second),
        first.slot == second.slot,
        first.cmd is SetState,
        second.cmd is SetState,
        between.cards@ == before.applied(first),
    ensures
        between.accepts(second),
        between.applied(second)[first.slot as int].output == bit_replaced(
            bit_replaced(before.cards@[first.slot as int].output, first.idx, first.cmd->SetState_0),
            second.idx,
            second.cmd->SetState_0,
        ),
        first.idx != second.idx ==> bit_at(
            between.applied(second)[first.slot as int].output,
            first.idx,
        ) == first.cmd->SetState_0,
        bit_at(between.applied(second)[first.slot as int].output, second.idx)
            == second.cmd->SetState_0,
{
    let b0 = before.cards@[first.slot as int].output;
    let b1 = bit_replaced(b0, first.idx, first.cmd->SetState_0);
    lemma_single_bit_update(b0, first.idx, first.cmd->SetState_0, first.idx);
    lemma_single_bit_update(b1, second.idx, second.cmd->SetState_0, first.idx);
}

/// What the receiving end of the request queue holds at a cycle.
#[derive(Clone, Copy, Debug, PartialEq, Eq, Structural)]
pub enum Inbox {
    /// A request is waiting; the payload is taken by the caller.
    Message,
    /// Nothing is waiting.
    Empty,
    /// Every sender is gone.
    Disconnected,
}

/// What the master does in a cycle once the image has been exchanged.
#[derive(Clone, Copy, Debug, PartialEq, Eq, Structural)]
pub enum MasterStep {
    /// Apply the one request that was taken, then wait for the next tick.
    Apply,
    /// Wait for the next tick.
    Idle,
    /// Leave the cyclic loop and take the bus down.
    ShutDown,
}

/// Decides a cycle: a raised shutdown flag or a queue without senders ends
/// the loop, a waiting request is applied, and at most one per cycle.
pub fn cycle_step(shutdown: bool, inbox: Inbox) -> (step: MasterStep)
    ensures
        step == if shutdown || inbox == Inbox::Disconnected {
            MasterStep::ShutDown
        } else if inbox == Inbox::Message {
            MasterStep::Apply
        } else {
            MasterStep::Idle
        },
{
    if shutdown {
        MasterStep::ShutDown
    } else {
        match inbox {
            Inbox::Disconnected => MasterStep::ShutDown,
            Inbox::Message => MasterStep::Apply,
            Inbox::Empty => MasterStep::Idle,
        }
    }
}

/// State of the bus.
#[derive(Clone, Copy, Debug, PartialEq, Eq, Structural)]
pub enum BusState {
    Init,
    PreOp,
    SafeOp,
    Op,
}

/// The state that follows `state` on the way down, if any.
pub open spec fn state_below(state: BusState) -> Option<BusState> {
    match state {
        BusState::Op => Some(BusState::SafeOp),
        BusState::SafeOp => Some(BusState::PreOp),
        BusState::PreOp => Some(BusState::Init),
        BusState::Init => None,
    }
}

/// The next state to request while the bus is taken down, or nothing once
/// it is at rest.
pub fn shutdown_step(state: BusState) -> (next: Option<BusState>)
    ensures
        next == state_below(state),
{
    match state {
        BusState::Op => Some(BusState::SafeOp),
        BusState::SafeOp => Some(BusState::PreOp),
        BusState::PreOp => Some(BusState::Init),
        BusState::Init => None,
    }
}

impl IoMsg {
    /// The request that sets bit `idx` of card `slot` to `state`.
    pub fn set_state(slot: usize, idx: u8, state: bool) -> (msg: IoMsg)
        ensures
            msg == (IoMsg { slot, idx, cmd: Command::SetState(state) }),
    {
        IoMsg { slot, idx, cmd: Command::SetState(state) }
    }

    /// The request that queries card `slot` on behalf of bit `idx`.
    pub fn get_state(slot: usize, idx: u8) -> (msg: IoMsg)
        ensures
            msg == (IoMsg { slot, idx, cmd: Command::GetState }),
    {
        IoMsg { slot, idx, cmd: Command::GetState }
    }
}

} // verus!
