//! Bookkeeping of a firmware transfer: which device to open, the progress
//! reported to the session, and what the transfer's end means.
use vstd::prelude::*;
use vstd::string::*;
use crate::error::CommandError;
use crate::exchange::SerialError;
use crate::observer::{DeviceIds, UsbDevice};

verus! {

/// Percentage of `total` that `transferred` bytes make; an empty file is
/// complete from the start.
pub open spec fn percent_of(total: nat, transferred: nat) -> nat {
    if total == 0 {
        100
    } else {
        transferred * 100 / total
    }
}

/// Bytes transferred after `chunks` were accepted, starting from `done`,
/// never more than `total`.
pub open spec fn after_chunks(total: nat, done: nat, chunks: Seq<nat>) -> nat
    decreases chunks.len(),
{
    if chunks.len() == 0 {
        done
    } else {
        let before = after_chunks(total, done, chunks.drop_last());
        if before + chunks.last() > total {
            total
        } else {
            before + chunks.last()
        }
    }
}

/// The percentages reported after each of `chunks`.
pub open spec fn reported(total: nat, done: nat, chunks: Seq<nat>) -> Seq<nat> {
    Seq::new(chunks.len(), |i: int| percent_of(total, after_chunks(total, done, chunks.take(i + 1))))
}

/// Cumulative progress of a transfer.
pub struct ProgressTracker {
    total: u64,
    transferred: u64,
}

pub struct Progress {
    pub total: nat,
    pub transferred: nat,
}

impl View for ProgressTracker {
    type V = Progress;

    closed spec fn view(&self) -> Progress {
        Progress { total: self.total as nat, transferred: self.transferred as nat }
    }
}

proof fn lemma_percent_monotone(total: nat, a: nat, b: nat)
    requires
        a <= b,
    ensures
        percent_of(total, a) <= percent_of(total, b),
{
    if total > 0 {
        assert(a * 100 <= b * 100) by (nonlinear_arith)
            requires a <= b;
        vstd::arithmetic::div_mod::lemma_div_is_ordered((a * 100) as int, (b * 100) as int, total as int);
    }
}

impl ProgressTracker {
    pub closed spec fn wf(&self) -> bool {
        self.transferred <= self.total
    }

    /// A tracker for a file of `total` bytes.
    pub fn new(total: u64) -> (r: ProgressTracker)
        ensures
            r.wf(),
            r@ == (Progress { total: total as nat, transferred: 0 }),
    {
        ProgressTracker { total, transferred: 0 }
    }

    /// The percentage transferred so far.
    pub fn percent(&self) -> (r: u64)
        requires
            self.wf(),
        ensures
            r == percent_of(self@.total, self@.transferred),
            r <= 100,
    {
        if self.total == 0 {
            100
        } else {
            let t = self.transferred as u128;
            proof {
                assert(t * 100 <= self.total * 100) by (nonlinear_arith)
                    requires t <= self.total;
                vstd::arithmetic::div_mod::lemma_div_is_ordered((t * 100) as int, (self.total * 100) as int, self.total as int);
                vstd::arithmetic::div_mod::lemma_div_by_multiple(100, self.total as int);
                assert((self.total * 100) as int / self.total as int == 100) by (nonlinear_arith)
                    requires self.total > 0;
            }
            ((t * 100) / (self.total as u128)) as u64
        }
    }

    /// Records a chunk of `n` bytes accepted by the device and returns the
    /// percentage now transferred, which never goes down.
    pub fn add_chunk(&mut self, n: usize) -> (r: u64)
        requires
            old(self).wf(),
        ensures
            final(self).wf(),
            final(self)@.total == old(self)@.total,
            final(self)@.transferred == after_chunks(old(self)@.total, old(self)@.transferred, seq![n as nat]),
            r == percent_of(final(self)@.total, final(self)@.transferred),
            r >= percent_of(old(self)@.total, old(self)@.transferred),
    {
        proof {
            assert(seq![n as nat].drop_last() =~= Seq::<nat>::empty());
            assert(after_chunks(self.total as nat, self.transferred as nat, Seq::<nat>::empty())
                == self.transferred as nat);
        }
        let room = self.total - self.transferred;
        if n as u128 >= room as u128 {
            self.transferred = self.total;
        } else {
            self.transferred = self.transferred + n as u64;
        }
        proof {
            lemma_percent_monotone(self.total as nat, old(self).transferred as nat, self.transferred as nat);
        }
        self.percent()
    }
}

/// Reported progress never goes down: for any chunks accepted from any
/// starting point, each reported percentage is at most every later one.
pub proof fn lemma_reported_non_decreasing(total: nat, done: nat, chunks: Seq<nat>, i: int, j: int)
    requires
        0 <= i <= j < chunks.len(),
    ensures
        reported(total, done, chunks)[i] <= reported(total, done, chunks)[j],
    decreases j - i,
{
    if i < j {
        lemma_reported_non_decreasing(total, done, chunks, i, j - 1);
        let prefix = chunks.take(j + 1);
        assert(prefix.drop_last() =~= chunks.take(j));
        lemma_percent_monotone(
            total,
            after_chunks(total, done, chunks.take(j)),
            after_chunks(total, done, prefix),
        );
    }
}

/// How a transfer that did not complete normally ended.
#[derive(Debug, Clone, PartialEq, Eq)]
pub enum TransferFailure {
    /// The device reset itself after taking the last chunk, which ends the
    /// final USB request with an I/O error code.
    DeviceReset,
    /// Any other failure, with its description.
    Failed(String),
}

/// The result of a transfer for the session: the reset after the last chunk
/// is a success.
pub fn transfer_outcome(result: Result<(), TransferFailure>) -> (r: Result<(), CommandError>)
    ensures
        match result {
            Ok(()) => r == Ok::<(), CommandError>(()),
            Err(TransferFailure::DeviceReset) => r == Ok::<(), CommandError>(()),
            Err(TransferFailure::Failed(m)) => r == Err::<(), CommandError>(CommandError::Dfu(m)),
        },
{
    match result {
        Ok(()) => Ok(()),
        Err(TransferFailure::DeviceReset) => Ok(()),
        Err(TransferFailure::Failed(m)) => Err(CommandError::Dfu(m)),
    }
}

/// The device that the transfer opens: the one handed in, or else the first
/// attached device with the upgrade-mode identity.
pub fn install_target(device: Option<UsbDevice>, ids: &DeviceIds) -> (r: UsbDevice)
    ensures
        r == match device {
            Some(d) => d,
            None => ids.upgrade,
        },
{
    match device {
        Some(d) => d,
        None => ids.upgrade,
    }
}

/// The result of the bootloader command for the session: any completed
/// exchange is a success, since the device may leave before it answers.
pub fn bootloader_outcome(result: Result<String, SerialError>) -> (r: Result<(), CommandError>)
    ensures
        match result {
            Ok(_) => r == Ok::<(), CommandError>(()),
            Err(e) => r is Err && r->Err_0 is Device
                && r->Err_0->Device_0@ == "unable to enter bootloader: "@ + e.spec_message(),
        },
{
    match result {
        Ok(_) => Ok(()),
        Err(e) => {
            let mut m = String::from_str("unable to enter bootloader: ");
            let detail = e.message();
            m.append(detail.as_str());
            Err(CommandError::Device(m))
        },
    }
}

} // verus!
