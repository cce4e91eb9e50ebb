//! Probing the bus for devices.

use crate::i2c::{Transfer, TransferView};
use vstd::prelude::*;

verus! {

/// First address that a scan leaves out: addresses 0 to 126 are probed.
pub const SCAN_END: u8 = 127;

/// What came of probing one address.
#[derive(Debug)]
pub struct ScanResult<E> {
    pub address: u8,
    pub result: Result<(), E>,
}

impl<E> ScanResult<E> {
    /// Whether a device answered at the address.
    pub fn is_present(&self) -> (present: bool)
        ensures
            present == (self.result is Ok),
    {
        self.result.is_ok()
    }
}

/// The probe of `address`: a read of one byte.
pub open spec fn probe_view(address: u8) -> TransferView {
    TransferView::Read { address, len: 1 }
}

/// The results among the first `n` of `results` whose device is present
/// (`present`) or absent (`!present`), in the order of the results.
pub open spec fn results_upto<E>(results: Seq<ScanResult<E>>, present: bool, n: int) -> Seq<
    ScanResult<E>,
>
    decreases n,
{
    if n <= 0 {
        Seq::empty()
    } else {
        let earlier = results_upto(results, present, n - 1);
        if (results[n - 1].result is Ok) == present {
            earlier.push(results[n - 1])
        } else {
            earlier
        }
    }
}

/// Plans a scan of the bus: a probe of every address from 0 to 126, in
/// rising order.
pub fn scan_requests() -> (probes: Vec<Transfer>)
    ensures
        probes.deep_view() == Seq::new(127, |address: int| probe_view(address as u8)),
{
    let mut probes: Vec<Transfer> = Vec::new();
    let mut address: u8 = 0;
    while address < SCAN_END
        invariant
            address <= SCAN_END,
            probes.deep_view() == Seq::new(
                address as nat,
                |address: int| probe_view(address as u8),
            ),
        decreases SCAN_END - address,
    {
        let ghost before = probes.deep_view();
        probes.push(Transfer::Read { address, len: 1 });
        assert(probes.deep_view() =~= before.push(probe_view(address)));
        address += 1;
    }
    probes
}

fn results_of<E>(results: &[ScanResult<E>], present: bool) -> (found: Vec<&ScanResult<E>>)
    ensures
        found@.len() == results_upto(results@, present, results@.len() as int).len(),
        forall|i: int|
            0 <= i < found@.len() ==> *(#[trigger] found@[i]) == results_upto(
                results@,
                present,
                results@.len() as int,
            )[i],
{
    let mut found: Vec<&ScanResult<E>> = Vec::new();
    let mut idx: usize = 0;
    while idx < results.len()
        invariant
            idx <= results@.len(),
            found@.len() == results_upto(results@, present, idx as int).len(),
            forall|i: int|
                0 <= i < found@.len() ==> *(#[trigger] found@[i]) == results_upto(
                    results@,
                    present,
                    idx as int,
                )[i],
        decreases results@.len() - idx,
    {
        if results[idx].is_present() == present {
            found.push(&results[idx]);
        }
        idx += 1;
    }
    found
}

/// The results at whose address a device answered, in the order of
/// `results`.
pub fn present_devices<E>(results: &[ScanResult<E>]) -> (found: Vec<&ScanResult<E>>)
    ensures
        found@.len() == results_upto(results@, true, results@.len() as int).len(),
        forall|i: int|
            0 <= i < found@.len() ==> *(#[trigger] found@[i]) == results_upto(
                results@,
                true,
                results@.len() as int,
            )[i],
{
    results_of(results, true)
}

/// The results at whose address no device answered, each with the failure
/// of its probe, in the order of `results`.
pub fn absent_devices<E>(results: &[ScanResult<E>]) -> (found: Vec<&ScanResult<E>>)
    ensures
        found@.len() == results_upto(results@, false, results@.len() as int).len(),
        forall|i: int|
            0 <= i < found@.len() ==> *(#[trigger] found@[i]) == results_upto(
                results@,
                false,
                results@.len() as int,
            )[i],
{
    results_of(results, false)
}

} // verus!
