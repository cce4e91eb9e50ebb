//! The TCA9548A bus multiplexer.
//!
//! The multiplexer fans the one physical bus out to eight channels. A
//! channel is selected by writing a byte with the channel's bit set to the
//! multiplexer itself. Nothing is remembered of the selection: every
//! operation on a channel selects the channel anew, so that a multiplexer
//! that was reset or switched by someone else is put right each time.

use crate::i2c::{Operation, Transfer, TransferView};
use crate::pins::pin::lemma_one_hot;
use vstd::prelude::*;
use vstd::slice::slice_to_vec;

verus! {

/// Bus address of the multiplexer.
pub const MUX_ADDRESS: u8 = 0x77;

/// One of the eight channels of the multiplexer.
#[derive(Debug, Clone, Copy, PartialEq, Eq, Structural)]
pub enum BusNumber {
    Bus0,
    Bus1,
    Bus2,
    Bus3,
    Bus4,
    Bus5,
    Bus6,
    Bus7,
}

impl BusNumber {
    /// Number of the channel, from 0 to 7.
    pub open spec fn spec_index(self) -> u8 {
        match self {
            BusNumber::Bus0 => 0,
            BusNumber::Bus1 => 1,
            BusNumber::Bus2 => 2,
            BusNumber::Bus3 => 3,
            BusNumber::Bus4 => 4,
            BusNumber::Bus5 => 5,
            BusNumber::Bus6 => 6,
            BusNumber::Bus7 => 7,
        }
    }

    /// The byte that selects the channel: only the channel's bit is set.
    pub open spec fn spec_mask(self) -> u8 {
        1u8 << self.spec_index()
    }

    /// Number of the channel, from 0 to 7.
    pub fn index(self) -> (index: u8)
        ensures
            index == self.spec_index(),
            index <= 7,
    {
        match self {
            BusNumber::Bus0 => 0,
            BusNumber::Bus1 => 1,
            BusNumber::Bus2 => 2,
            BusNumber::Bus3 => 3,
            BusNumber::Bus4 => 4,
            BusNumber::Bus5 => 5,
            BusNumber::Bus6 => 6,
            BusNumber::Bus7 => 7,
        }
    }

    /// The byte that selects the channel.
    pub fn mask(self) -> (mask: u8)
        ensures
            mask == self.spec_mask(),
    {
        proof {
            lemma_one_hot();
        }
        match self {
            BusNumber::Bus0 => 0b00000001,
            BusNumber::Bus1 => 0b00000010,
            BusNumber::Bus2 => 0b00000100,
            BusNumber::Bus3 => 0b00001000,
            BusNumber::Bus4 => 0b00010000,
            BusNumber::Bus5 => 0b00100000,
            BusNumber::Bus6 => 0b01000000,
            BusNumber::Bus7 => 0b10000000,
        }
    }
}

/// Two channels with the same select byte are the same channel.
pub proof fn lemma_mask_injective(a: BusNumber, b: BusNumber)
    requires
        a.spec_mask() == b.spec_mask(),
    ensures
        a == b,
{
    let i: u8 = a.spec_index();
    let j: u8 = b.spec_index();
    assert(i == j) by (bit_vector)
        requires
            i <= 7,
            j <= 7,
            1u8 << i == 1u8 << j,
    ;
}

/// The transfer that selects `number`: one byte, the channel's mask,
/// written to the multiplexer.
pub open spec fn select_view(number: BusNumber) -> TransferView {
    TransferView::Write { address: MUX_ADDRESS, bytes: seq![number.spec_mask()] }
}

/// What reaches the physical bus when `payload` is performed on channel
/// `number`: the selection of the channel, then the payload as it is.
pub open spec fn on_channel(number: BusNumber, payload: TransferView) -> Seq<TransferView> {
    seq![select_view(number), payload]
}

/// A virtual bus: one channel of the multiplexer.
///
/// A channel plans what is to reach the physical bus. Whoever performs a
/// plan must hold the physical bus for the whole of it, so that no other
/// traffic comes between the selection and the payload.
#[derive(Debug)]
pub struct Bus {
    number: BusNumber,
    mux_address: u8,
}

impl View for Bus {
    type V = BusNumber;

    /// The channel that the bus stands for.
    closed spec fn view(&self) -> BusNumber {
        self.number
    }
}

impl Bus {
    #[verifier::type_invariant]
    spec fn well_formed(self) -> bool {
        self.mux_address == MUX_ADDRESS
    }

    /// The virtual bus of channel `number`.
    pub fn new(number: BusNumber) -> (bus: Self)
        ensures
            bus@ == number,
    {
        Self { number, mux_address: MUX_ADDRESS }
    }

    /// The channel that the bus stands for.
    pub fn number(&self) -> (number: BusNumber)
        ensures
            number == self@,
    {
        self.number
    }

    /// Plans the selection of the channel.
    pub fn select(&self) -> (transfer: Transfer)
        ensures
            transfer.deep_view() == select_view(self@),
    {
        proof {
            use_type_invariant(self);
        }
        let mut bytes: Vec<u8> = Vec::new();
        bytes.push(self.number.mask());
        assert(bytes@ =~= seq![self@.spec_mask()]);
        Transfer::Write { address: self.mux_address, bytes }
    }

    /// Plans `payload` on the channel: the selection first, then the payload.
    pub fn forward(&self, payload: Transfer) -> (plan: Vec<Transfer>)
        ensures
            plan.deep_view() == on_channel(self@, payload.deep_view()),
    {
        let mut plan: Vec<Transfer> = Vec::new();
        plan.push(self.select());
        plan.push(payload);
        assert(plan.deep_view() =~= on_channel(self@, payload.deep_view()));
        plan
    }

    /// Plans a read of `len` bytes from the device at `address` on the
    /// channel.
    pub fn read(&self, address: u8, len: usize) -> (plan: Vec<Transfer>)
        ensures
            plan.deep_view() == on_channel(
                self@,
                (TransferView::Read { address, len: len as nat }),
            ),
    {
        self.forward(Transfer::Read { address, len })
    }

    /// Plans a write of `bytes` to the device at `address` on the channel.
    pub fn write(&self, address: u8, bytes: &[u8]) -> (plan: Vec<Transfer>)
        ensures
            plan.deep_view() == on_channel(self@, (TransferView::Write { address, bytes: bytes@ })),
    {
        self.forward(Transfer::Write { address, bytes: slice_to_vec(bytes) })
    }

    /// Plans a write of `bytes` followed by a read of `len` bytes, to and
    /// from the device at `address` on the channel.
    pub fn write_read(&self, address: u8, bytes: &[u8], len: usize) -> (plan: Vec<Transfer>)
        ensures
            plan.deep_view() == on_channel(
                self@,
                (TransferView::WriteRead { address, bytes: bytes@, len: len as nat }),
            ),
    {
        self.forward(Transfer::WriteRead { address, bytes: slice_to_vec(bytes), len })
    }

    /// Plans a transaction of `operations` with the device at `address` on
    /// the channel.
    pub fn transaction(&self, address: u8, operations: Vec<Operation>) -> (plan: Vec<Transfer>)
        ensures
            plan.deep_view() == on_channel(
                self@,
                (TransferView::Transaction { address, operations: operations.deep_view() }),
            ),
    {
        self.forward(Transfer::Transaction { address, operations })
    }
}

/// Whatever is performed on a channel, the first thing to reach the
/// physical bus is one byte written to the multiplexer, with only the bit of
/// the channel set, and the second and last is the payload itself.
pub proof fn lemma_selects_before_payload(number: BusNumber, payload: TransferView)
    ensures
        on_channel(number, payload).len() == 2,
        on_channel(number, payload)[0] == (TransferView::Write {
            address: 0x77,
            bytes: seq![1u8 << number.spec_index()],
        }),
        number.spec_index() <= 7,
        on_channel(number, payload)[1] == payload,
{
}

/// Whether the multiplexer connects channel `channel` to the physical bus
/// while its control register holds `control`: every set bit connects the
/// channel of that bit.
pub open spec fn connects(control: u8, channel: BusNumber) -> bool {
    control & channel.spec_mask() != 0
}

/// The control register of the multiplexer after `transfer` has been
/// performed on the physical bus: a write of one byte to the multiplexer
/// replaces it, and no other transfer of a plan touches it.
pub open spec fn control_after(control: u8, transfer: TransferView) -> u8 {
    match transfer {
        TransferView::Write { address, bytes } => if address == MUX_ADDRESS && bytes.len() == 1 {
            bytes[0]
        } else {
            control
        },
        _ => control,
    }
}

/// Whatever the multiplexer was set to before, when the payload of a plan is
/// performed the multiplexer connects the channel of the plan and no other.
/// Nothing needs to be remembered of earlier selections, and a multiplexer
/// that was reset or switched in between is put right by the plan itself.
pub proof fn lemma_payload_reaches_its_channel(
    control: u8,
    number: BusNumber,
    payload: TransferView,
    channel: BusNumber,
)
    ensures
        connects(control_after(control, on_channel(number, payload)[0]), channel) <==> channel
            == number,
{
    let i: u8 = number.spec_index();
    let j: u8 = channel.spec_index();
    assert(((1u8 << i) & (1u8 << j) != 0) <==> i == j) by (bit_vector)
        requires
            i <= 7,
            j <= 7,
    ;
    assert(seq![number.spec_mask()][0] == number.spec_mask());
}

/// An operation on a virtual bus: the channel, and the payload to perform
/// on it.
pub struct Planned {
    pub number: BusNumber,
    pub payload: TransferView,
}

/// What reaches the physical bus when the first `n` of `operations` are
/// performed one after the other, each as a whole.
pub open spec fn traffic(operations: Seq<Planned>, n: int) -> Seq<TransferView>
    decreases n,
{
    if n <= 0 {
        Seq::empty()
    } else {
        traffic(operations, n - 1) + on_channel(
            operations[n - 1].number,
            operations[n - 1].payload,
        )
    }
}

/// The control register of the multiplexer before transfer `k` of `wire` is
/// performed, when it held `control` before the first.
pub open spec fn control_before(control: u8, wire: Seq<TransferView>, k: int) -> u8
    decreases k,
{
    if k <= 0 {
        control
    } else {
        control_after(control_before(control, wire, k - 1), wire[k - 1])
    }
}

/// The traffic of `n` operations is `n` pairs of a selection and a payload.
pub proof fn lemma_traffic(operations: Seq<Planned>, n: int, k: int)
    requires
        0 <= k < n,
    ensures
        traffic(operations, n).len() == 2 * n,
        traffic(operations, n)[2 * k] == select_view(operations[k].number),
        traffic(operations, n)[2 * k + 1] == operations[k].payload,
    decreases n,
{
    lemma_traffic_len(operations, n - 1);
    if k < n - 1 {
        lemma_traffic(operations, n - 1, k);
    }
}

proof fn lemma_traffic_len(operations: Seq<Planned>, n: int)
    requires
        0 <= n,
    ensures
        traffic(operations, n).len() == 2 * n,
    decreases n,
{
    if n > 0 {
        lemma_traffic_len(operations, n - 1);
    }
}

/// As long as operations are performed one after the other, each as a
/// whole, every payload is performed while the multiplexer connects its own
/// channel and no other: whatever the multiplexer was set to at the start,
/// whichever channels the operations are on, and in whatever order they
/// come. This is what holding the physical bus for a whole operation buys.
pub proof fn lemma_each_payload_on_its_channel(
    control: u8,
    operations: Seq<Planned>,
    n: int,
    k: int,
    channel: BusNumber,
)
    requires
        0 <= k < n,
    ensures
        connects(control_before(control, traffic(operations, n), 2 * k + 1), channel) <==> channel
            == operations[k].number,
{
    lemma_traffic(operations, n, k);
    let wire = traffic(operations, n);
    let before = control_before(control, wire, 2 * k);
    lemma_payload_reaches_its_channel(
        before,
        operations[k].number,
        operations[k].payload,
        channel,
    );
}

} // verus!
