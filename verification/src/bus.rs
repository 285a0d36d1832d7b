//! The state bus: the two values every task shares, each in a cell of its own.
//!
//! A cell is read by copying its value out and written by replacing the value
//! whole. The caller guards each cell with its own lock; the critical section
//! is one call of a method below.

use vstd::prelude::*;

verus! {

/// Where the wireless link stands.
#[derive(Clone, Copy, Debug, PartialEq, Eq, Structural)]
pub enum ConnectivityStatus {
    Disconnected,
    Connecting,
    Connected,
    Failed,
}

/// Six throughput counters in bits per second: up and down for the direct,
/// the proxied and the bypass channel.
#[derive(Clone, Copy, Debug, PartialEq, Eq, Structural)]
pub struct TelemetrySample {
    pub direct_up_bps: u64,
    pub direct_down_bps: u64,
    pub proxy_up_bps: u64,
    pub proxy_down_bps: u64,
    pub bypass_up_bps: u64,
    pub bypass_down_bps: u64,
}

impl TelemetrySample {
    /// The sample whose six counters are zero.
    pub open spec fn zero() -> TelemetrySample {
        TelemetrySample {
            direct_up_bps: 0,
            direct_down_bps: 0,
            proxy_up_bps: 0,
            proxy_down_bps: 0,
            bypass_up_bps: 0,
            bypass_down_bps: 0,
        }
    }
}

impl Default for TelemetrySample {
    fn default() -> (s: Self)
        ensures
            s == TelemetrySample::zero(),
    {
        TelemetrySample {
            direct_up_bps: 0,
            direct_down_bps: 0,
            proxy_up_bps: 0,
            proxy_down_bps: 0,
            bypass_up_bps: 0,
            bypass_down_bps: 0,
        }
    }
}

/// The cell that holds the connectivity status.
pub struct StatusCell {
    value: ConnectivityStatus,
}

impl StatusCell {
    /// The status the cell holds.
    pub closed spec fn view(&self) -> ConnectivityStatus {
        self.value
    }

    pub fn new(v: ConnectivityStatus) -> (c: Self)
        ensures
            c@ == v,
    {
        StatusCell { value: v }
    }

    /// Copies the status out.
    pub fn read_status(&self) -> (v: ConnectivityStatus)
        ensures
            v == self@,
    {
        self.value
    }

    /// Replaces the status.
    pub fn write_status(&mut self, v: ConnectivityStatus)
        ensures
            final(self)@ == v,
    {
        self.value = v;
    }
}

/// The cell that holds the latest telemetry sample.
pub struct SampleCell {
    value: TelemetrySample,
}

impl SampleCell {
    /// The sample the cell holds.
    pub closed spec fn view(&self) -> TelemetrySample {
        self.value
    }

    pub fn new(v: TelemetrySample) -> (c: Self)
        ensures
            c@ == v,
    {
        SampleCell { value: v }
    }

    /// Copies the sample out.
    pub fn read_sample(&self) -> (v: TelemetrySample)
        ensures
            v == self@,
    {
        self.value
    }

    /// Replaces the sample, all six counters at once.
    pub fn write_sample(&mut self, v: TelemetrySample)
        ensures
            final(self)@ == v,
    {
        self.value = v;
    }
}

/// What the bus holds, as a pair of plain values.
pub struct BusState {
    pub status: ConnectivityStatus,
    pub sample: TelemetrySample,
}

/// One write to the bus.
pub enum BusWrite {
    Status(ConnectivityStatus),
    Sample(TelemetrySample),
}

/// The bus after one write: the written field is replaced, the other kept.
pub open spec fn after_write(s: BusState, w: BusWrite) -> BusState {
    match w {
        BusWrite::Status(v) => BusState { status: v, sample: s.sample },
        BusWrite::Sample(v) => BusState { status: s.status, sample: v },
    }
}

/// The bus after a sequence of writes, applied first to last.
pub open spec fn after_writes(s: BusState, ws: Seq<BusWrite>) -> BusState
    decreases ws.len(),
{
    if ws.len() == 0 {
        s
    } else {
        after_write(after_writes(s, ws.drop_last()), ws.last())
    }
}

/// The state bus: one status cell and one sample cell, independent of each
/// other. It knows nothing of who reads or writes it.
pub struct StateBus {
    pub status: StatusCell,
    pub sample: SampleCell,
}

impl StateBus {
    /// Both values the bus holds.
    pub open spec fn view(&self) -> BusState {
        BusState { status: self.status@, sample: self.sample@ }
    }

    /// A bus that starts disconnected with an all-zero sample.
    pub fn new() -> (b: Self)
        ensures
            b@ == (BusState {
                status: ConnectivityStatus::Disconnected,
                sample: TelemetrySample::zero(),
            }),
    {
        StateBus {
            status: StatusCell::new(ConnectivityStatus::Disconnected),
            sample: SampleCell::new(TelemetrySample::default()),
        }
    }

    pub fn read_status(&self) -> (v: ConnectivityStatus)
        ensures
            v == self@.status,
    {
        self.status.read_status()
    }

    pub fn write_status(&mut self, v: ConnectivityStatus)
        ensures
            final(self)@ == after_write(old(self)@, BusWrite::Status(v)),
    {
        self.status.write_status(v);
    }

    pub fn read_sample(&self) -> (v: TelemetrySample)
        ensures
            v == self@.sample,
    {
        self.sample.read_sample()
    }

    pub fn write_sample(&mut self, v: TelemetrySample)
        ensures
            final(self)@ == after_write(old(self)@, BusWrite::Sample(v)),
    {
        self.sample.write_sample(v);
    }
}

/// Whatever was written and in whatever order, the sample on the bus is never
/// a mix: it is the sample the bus started with, or the whole value of one of
/// the sample writes. The same holds of the status.
pub proof fn lemma_reads_see_whole_writes(s: BusState, ws: Seq<BusWrite>)
    ensures
        after_writes(s, ws).sample == s.sample || exists|i: int|
            0 <= i < ws.len() && ws[i] == BusWrite::Sample(after_writes(s, ws).sample),
        after_writes(s, ws).status == s.status || exists|i: int|
            0 <= i < ws.len() && ws[i] == BusWrite::Status(after_writes(s, ws).status),
    decreases ws.len(),
{
    if ws.len() > 0 {
        let init = ws.drop_last();
        let last = ws.len() - 1;
        lemma_reads_see_whole_writes(s, init);
        let before = after_writes(s, init);
        let after = after_writes(s, ws);
        match ws.last() {
            BusWrite::Sample(v) => {
                assert(ws[last] == BusWrite::Sample(after.sample));
                if before.status != s.status {
                    let i = choose|i: int|
                        0 <= i < init.len() && init[i] == BusWrite::Status(before.status);
                    assert(ws[i] == init[i]);
                }
            },
            BusWrite::Status(v) => {
                assert(ws[last] == BusWrite::Status(after.status));
                if before.sample != s.sample {
                    let i = choose|i: int|
                        0 <= i < init.len() && init[i] == BusWrite::Sample(before.sample);
                    assert(ws[i] == init[i]);
                }
            },
        }
    }
}

/// The last write of a kind wins: after a sample write the bus holds that
/// sample, whatever came before it.
pub proof fn lemma_last_write_wins(s: BusState, ws: Seq<BusWrite>, v: TelemetrySample)
    ensures
        after_writes(s, ws.push(BusWrite::Sample(v))).sample == v,
        after_writes(s, ws.push(BusWrite::Sample(v))).status == after_writes(s, ws).status,
{
    let all = ws.push(BusWrite::Sample(v));
    assert(all.drop_last() =~= ws);
}

} // verus!
