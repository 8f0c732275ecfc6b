//! The table of readings that an acquisition hands back.

use vstd::prelude::*;

verus! {

/// One reading: when it was nominally taken, on which channel, and its code.
#[derive(Debug, Clone, Copy, PartialEq, Eq, Structural)]
pub struct Sample {
    /// Milliseconds from the start of the acquisition to the sample's slot.
    pub elapsed_ms: u64,
    /// The channel that was converted.
    pub channel: usize,
    /// The conversion code as the chip gave it.
    pub raw: u16,
}

/// What a series holds: one row per sample, one code per channel in each row.
pub struct SeriesView {
    /// Codes per row.
    pub channels: nat,
    /// Nominal distance of two rows in milliseconds.
    pub period_ms: u16,
    /// The rows, oldest first.
    pub table: Seq<Seq<u16>>,
}

impl SeriesView {
    /// Every row has one code per channel.
    pub open spec fn aligned(self) -> bool {
        forall|i: int| 0 <= i < self.table.len() ==> (#[trigger] self.table[i]).len() == self.channels
    }

    /// The nominal time of row `i`: `i` periods after the start.
    pub open spec fn elapsed_ms(self, i: int) -> int {
        i * self.period_ms
    }

    /// The nominal times of all rows.
    pub open spec fn stamps(self) -> Seq<u64> {
        Seq::new(self.table.len(), |i: int| self.elapsed_ms(i) as u64)
    }

    /// The codes of channel `c`, oldest first.
    pub open spec fn column(self, c: int) -> Seq<u16> {
        Seq::new(self.table.len(), |i: int| self.table[i][c])
    }

    /// The reading of channel `c` in row `i`.
    pub open spec fn sample(self, i: int, c: int) -> Sample {
        Sample { elapsed_ms: self.elapsed_ms(i) as u64, channel: c as usize, raw: self.table[i][c] }
    }
}

/// Readings of several channels, aligned by sample index: the `i`-th code of
/// every channel belongs to the same nominal time.
#[derive(Debug)]
pub struct SampleSeries {
    channels: usize,
    period_ms: u16,
    rows: Vec<Vec<u16>>,
}

impl View for SampleSeries {
    type V = SeriesView;

    closed spec fn view(&self) -> SeriesView {
        SeriesView {
            channels: self.channels as nat,
            period_ms: self.period_ms,
            table: Seq::new(self.rows@.len(), |i: int| self.rows@[i]@),
        }
    }
}

impl SampleSeries {
    #[verifier::type_invariant]
    spec fn inv(self) -> bool {
        &&& self.rows@.len() <= u32::MAX
        &&& forall|i: int|
            0 <= i < self.rows@.len() ==> (#[trigger] self.rows@[i])@.len() == self.channels
    }

    /// A series without rows.
    pub fn empty(channels: usize, period_ms: u16) -> (series: SampleSeries)
        ensures
            series@.channels == channels,
            series@.period_ms == period_ms,
            series@.table == Seq::<Seq<u16>>::empty(),
            series@.aligned(),
    {
        let series = SampleSeries { channels, period_ms, rows: Vec::new() };
        assert(series@.table =~= Seq::<Seq<u16>>::empty());
        series
    }

    /// The series with `row` as its newest row.
    pub(crate) fn append(self, row: Vec<u16>) -> (series: SampleSeries)
        requires
            row@.len() == self@.channels,
            self@.table.len() < u32::MAX,
        ensures
            series@.channels == self@.channels,
            series@.period_ms == self@.period_ms,
            series@.table == self@.table.push(row@),
            series@.aligned(),
    {
        proof {
            use_type_invariant(&self);
        }
        let SampleSeries { channels, period_ms, mut rows } = self;
        rows.push(row);
        let series = SampleSeries { channels, period_ms, rows };
        assert(series@.table =~= self@.table.push(row@));
        series
    }

    /// The number of rows.
    pub fn len(&self) -> (n: usize)
        ensures
            n == self@.table.len(),
            n <= u32::MAX,
            self@.aligned(),
    {
        proof {
            use_type_invariant(self);
        }
        self.rows.len()
    }

    /// The number of codes in each row.
    pub fn channels(&self) -> (n: usize)
        ensures
            n == self@.channels,
    {
        self.channels
    }

    /// The nominal distance of two rows in milliseconds.
    pub fn period_ms(&self) -> (period: u16)
        ensures
            period == self@.period_ms,
    {
        self.period_ms
    }

    /// The nominal times of the rows in milliseconds: row `i` stands at `i`
    /// periods.
    pub fn elapsed_ms(&self) -> (stamps: Vec<u64>)
        ensures
            stamps@ == self@.stamps(),
    {
        proof {
            use_type_invariant(self);
        }
        let mut stamps: Vec<u64> = Vec::new();
        let mut i: usize = 0;
        while i < self.rows.len()
            invariant
                i <= self.rows@.len() <= u32::MAX,
                stamps@.len() == i,
                forall|j: int| 0 <= j < i ==> stamps@[j] == j * self.period_ms,
            decreases self.rows@.len() - i,
        {
            assert(i * self.period_ms <= 0xFFFF_FFFF * 0xFFFF) by (nonlinear_arith)
                requires
                    i <= 0xFFFF_FFFF,
                    self.period_ms <= 0xFFFF,
            ;
            stamps.push((i as u64) * (self.period_ms as u64));
            i += 1;
        }
        assert(stamps@ =~= self@.stamps());
        stamps
    }

    /// Row `i`: the codes of all channels at one sample index, or `None` if
    /// the series has no such row.
    pub fn row(&self, i: usize) -> (row: Option<Vec<u16>>)
        ensures
            i < self@.table.len() ==> row is Some && row->0@ == self@.table[i as int],
            i >= self@.table.len() ==> row is None,
    {
        proof {
            use_type_invariant(self);
        }
        if i >= self.rows.len() {
            return None;
        }
        let mut row: Vec<u16> = Vec::new();
        let mut c: usize = 0;
        while c < self.channels
            invariant
                i < self.rows@.len(),
                self.rows@[i as int]@.len() == self.channels,
                c <= self.channels,
                row@.len() == c,
                forall|j: int| 0 <= j < c ==> row@[j] == self.rows@[i as int]@[j],
            decreases self.channels - c,
        {
            row.push(self.rows[i][c]);
            c += 1;
        }
        assert(row@ =~= self@.table[i as int]);
        Some(row)
    }

    /// The codes of channel `c`, oldest first, or `None` if the series has no
    /// such channel.
    pub fn column(&self, c: usize) -> (column: Option<Vec<u16>>)
        ensures
            c < self@.channels ==> column is Some && column->0@ == self@.column(c as int),
            c >= self@.channels ==> column is None,
    {
        proof {
            use_type_invariant(self);
        }
        if c >= self.channels {
            return None;
        }
        let mut column: Vec<u16> = Vec::new();
        let mut i: usize = 0;
        while i < self.rows.len()
            invariant
                c < self.channels,
                forall|k: int|
                    0 <= k < self.rows@.len() ==> (#[trigger] self.rows@[k])@.len()
                        == self.channels,
                i <= self.rows@.len(),
                column@.len() == i,
                forall|j: int| 0 <= j < i ==> column@[j] == self.rows@[j]@[c as int],
            decreases self.rows@.len() - i,
        {
            column.push(self.rows[i][c]);
            i += 1;
        }
        assert(column@ =~= self@.column(c as int));
        Some(column)
    }

    /// The reading of channel `c` in row `i`, or `None` if the series has no
    /// such row or no such channel.
    pub fn sample(&self, i: usize, c: usize) -> (sample: Option<Sample>)
        ensures
            i < self@.table.len() && c < self@.channels ==> sample == Some(
                self@.sample(i as int, c as int),
            ),
            i >= self@.table.len() || c >= self@.channels ==> sample is None,
    {
        proof {
            use_type_invariant(self);
        }
        if i >= self.rows.len() || c >= self.channels {
            return None;
        }
        assert(i * self.period_ms <= 0xFFFF_FFFF * 0xFFFF) by (nonlinear_arith)
            requires
                i <= 0xFFFF_FFFF,
                self.period_ms <= 0xFFFF,
        ;
        Some(
            Sample {
                elapsed_ms: (i as u64) * (self.period_ms as u64),
                channel: c,
                raw: self.rows[i][c],
            },
        )
    }
}

/// With a period above zero the rows stand in strictly increasing time
/// order.
pub proof fn lemma_stamps_increase(series: SeriesView, earlier: int, later: int)
    requires
        series.period_ms > 0,
        0 <= earlier < later,
    ensures
        series.elapsed_ms(earlier) < series.elapsed_ms(later),
{
    assert(earlier * series.period_ms < later * series.period_ms) by (nonlinear_arith)
        requires
            series.period_ms > 0,
            0 <= earlier < later,
    ;
}

} // verus!
