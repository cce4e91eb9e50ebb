//! The two-wire bus as data: transfers to perform, and the fixed assignment of
//! multiplexer channels to the parts of the badge.

pub mod scan;
pub mod tca9548a;

use crate::i2c::tca9548a::{Bus, BusNumber};
use vstd::prelude::*;

verus! {

/// One step of a [`Transfer::Transaction`].
#[derive(Debug, Clone, PartialEq, Eq)]
pub enum Operation {
    /// Read `len` bytes from the device.
    Read { len: usize },
    /// Write `bytes` to the device.
    Write { bytes: Vec<u8> },
}

/// Mathematical model of an [`Operation`].
pub enum OperationView {
    Read { len: nat },
    Write { bytes: Seq<u8> },
}

impl DeepView for Operation {
    type V = OperationView;

    open spec fn deep_view(&self) -> OperationView {
        match *self {
            Operation::Read { len } => OperationView::Read { len: len as nat },
            Operation::Write { bytes } => OperationView::Write { bytes: bytes@ },
        }
    }
}

/// One addressed exchange with a device on the bus.
///
/// A transfer is a description only. Whoever owns the physical bus performs
/// it, and hands back the bytes that were read, if any.
#[derive(Debug, Clone, PartialEq, Eq)]
pub enum Transfer {
    /// Read `len` bytes from the device at `address`.
    Read { address: u8, len: usize },
    /// Write `bytes` to the device at `address`.
    Write { address: u8, bytes: Vec<u8> },
    /// Write `bytes`, then read `len` bytes without releasing the bus.
    WriteRead { address: u8, bytes: Vec<u8>, len: usize },
    /// Perform `operations` in order without releasing the bus.
    Transaction { address: u8, operations: Vec<Operation> },
}

/// Mathematical model of a [`Transfer`].
pub enum TransferView {
    Read { address: u8, len: nat },
    Write { address: u8, bytes: Seq<u8> },
    WriteRead { address: u8, bytes: Seq<u8>, len: nat },
    Transaction { address: u8, operations: Seq<OperationView> },
}

impl DeepView for Transfer {
    type V = TransferView;

    open spec fn deep_view(&self) -> TransferView {
        match *self {
            Transfer::Read { address, len } => TransferView::Read { address, len: len as nat },
            Transfer::Write { address, bytes } => TransferView::Write { address, bytes: bytes@ },
            Transfer::WriteRead { address, bytes, len } => TransferView::WriteRead {
                address,
                bytes: bytes@,
                len: len as nat,
            },
            Transfer::Transaction { address, operations } => TransferView::Transaction {
                address,
                operations: operations.deep_view(),
            },
        }
    }
}

/// How to go on with a plan.
#[derive(Debug, PartialEq, Eq)]
pub enum Step<E> {
    /// Perform the step at `position` of the plan.
    Perform { position: usize },
    /// Every step of the plan has been performed.
    Done,
    /// A step failed with `error`. Nothing more of the plan is performed.
    Failed { error: E },
}

/// How to go on with a plan of `len` steps, be they transfers or register
/// updates, when the first `performed` of them have been performed and the
/// last of these ended in `last`. Before the first step `last` is `Ok`.
///
/// A plan is performed in order and stops at the first step that fails. The
/// failure is handed on as it is.
pub open spec fn spec_next_step<E>(len: usize, performed: usize, last: Result<(), E>) -> Step<E> {
    match last {
        Err(error) => Step::Failed { error },
        Ok(_) => if performed < len {
            Step::Perform { position: performed }
        } else {
            Step::Done
        },
    }
}

/// Decides how to go on with a plan of `len` steps when the first
/// `performed` of them have been performed and the last of these ended in
/// `last`. Before the first step `last` is `Ok`.
pub fn next_step<E>(len: usize, performed: usize, last: Result<(), E>) -> (step: Step<E>)
    ensures
        step == spec_next_step(len, performed, last),
{
    match last {
        Err(error) => Step::Failed { error },
        Ok(()) => if performed < len {
            Step::Perform { position: performed }
        } else {
            Step::Done
        },
    }
}

/// Where a plan of `len` steps stands after `decisions` decisions, when
/// step `i`, if it is performed, ends in `outcomes[i]`: how many steps have
/// been performed, and how the last of them ended.
pub open spec fn progress<E>(len: usize, outcomes: Seq<Result<(), E>>, decisions: nat) -> (
    usize,
    Result<(), E>,
)
    decreases decisions,
{
    if decisions == 0 {
        (0, Ok(()))
    } else {
        let before = progress(len, outcomes, (decisions - 1) as nat);
        match spec_next_step(len, before.0, before.1) {
            Step::Perform { position } => ((position + 1) as usize, outcomes[position as int]),
            _ => before,
        }
    }
}

/// A plan is performed step by step, in order, up to and with the first
/// step that fails, and no further: when step `stop - 1` is the first to
/// fail, or `stop` is the length of a plan in which none fails, then
/// exactly the first `stop` steps are performed, however often the decision
/// is asked for. The plan then ends with the failure of that step, or as
/// done.
pub proof fn lemma_plan_stops_at_first_failure<E>(
    len: usize,
    outcomes: Seq<Result<(), E>>,
    stop: int,
    decisions: nat,
)
    requires
        outcomes.len() == len,
        0 <= stop <= len,
        forall|i: int| 0 <= i < stop - 1 ==> (#[trigger] outcomes[i]) is Ok,
        stop < len ==> stop > 0 && outcomes[stop - 1] is Err,
    ensures
        progress(len, outcomes, decisions).0 == (if decisions <= stop {
            decisions as int
        } else {
            stop
        }),
        0 < decisions <= stop ==> progress(len, outcomes, decisions).1 == outcomes[decisions - 1],
        decisions >= stop ==> spec_next_step(
            len,
            progress(len, outcomes, decisions).0,
            progress(len, outcomes, decisions).1,
        ) == (if stop > 0 && outcomes[stop - 1] is Err {
            Step::Failed { error: outcomes[stop - 1]->Err_0 }
        } else {
            Step::Done
        }),
    decreases decisions,
{
    if decisions > 0 {
        lemma_plan_stops_at_first_failure(len, outcomes, stop, (decisions - 1) as nat);
    }
}

impl Transfer {
    /// The device that the transfer addresses.
    pub open spec fn spec_address(&self) -> u8 {
        match *self {
            Transfer::Read { address, .. } => address,
            Transfer::Write { address, .. } => address,
            Transfer::WriteRead { address, .. } => address,
            Transfer::Transaction { address, .. } => address,
        }
    }

    /// The device that the transfer addresses.
    pub fn address(&self) -> (address: u8)
        ensures
            address == self.spec_address(),
    {
        match self {
            Transfer::Read { address, .. } => *address,
            Transfer::Write { address, .. } => *address,
            Transfer::WriteRead { address, .. } => *address,
            Transfer::Transaction { address, .. } => *address,
        }
    }
}

/// The virtual bus of the badge's own devices: channel 7.
pub fn system_i2c_bus() -> (bus: Bus)
    ensures
        bus@ == BusNumber::Bus7,
{
    Bus::new(BusNumber::Bus7)
}

/// The virtual bus of the top board: channel 0.
pub fn top_i2c_bus() -> (bus: Bus)
    ensures
        bus@ == BusNumber::Bus0,
{
    Bus::new(BusNumber::Bus0)
}

/// The virtual bus of hexpansion slot A: channel 1.
pub fn hexpansion_a_i2c_bus() -> (bus: Bus)
    ensures
        bus@ == BusNumber::Bus1,
{
    Bus::new(BusNumber::Bus1)
}

/// The virtual bus of hexpansion slot B: channel 2.
pub fn hexpansion_b_i2c_bus() -> (bus: Bus)
    ensures
        bus@ == BusNumber::Bus2,
{
    Bus::new(BusNumber::Bus2)
}

/// The virtual bus of hexpansion slot C: channel 3.
pub fn hexpansion_c_i2c_bus() -> (bus: Bus)
    ensures
        bus@ == BusNumber::Bus3,
{
    Bus::new(BusNumber::Bus3)
}

/// The virtual bus of hexpansion slot D: channel 4.
pub fn hexpansion_d_i2c_bus() -> (bus: Bus)
    ensures
        bus@ == BusNumber::Bus4,
{
    Bus::new(BusNumber::Bus4)
}

/// The virtual bus of hexpansion slot E: channel 5.
pub fn hexpansion_e_i2c_bus() -> (bus: Bus)
    ensures
        bus@ == BusNumber::Bus5,
{
    Bus::new(BusNumber::Bus5)
}

/// The virtual bus of hexpansion slot F: channel 6.
pub fn hexpansion_f_i2c_bus() -> (bus: Bus)
    ensures
        bus@ == BusNumber::Bus6,
{
    Bus::new(BusNumber::Bus6)
}

} // verus!
