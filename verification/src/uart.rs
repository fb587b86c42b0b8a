//! Software serial (bit-banged UART) transmitter.
//!
//! A transmitter owns one output capability — a pin token in output mode, or a
//! simulated sink — and one frame configuration, and emits a byte as a timed
//! sequence of line levels: one start bit (low), eight data bits
//! least-significant first, an optional parity bit, and the configured number
//! of stop bits (high), each level held for one bit period of `1 / baud_rate`
//! seconds.

use vstd::prelude::*;

verus! {

/// Parity mode of a serial frame.
#[derive(Copy, Clone, PartialEq, Eq, Structural)]
pub enum ParityMode {
    NoParity,
    Odd,
    Even,
}

/// Number of stop-bit periods that terminate a serial frame.
#[derive(Copy, Clone, PartialEq, Eq, Structural)]
pub enum StopBitsOption {
    Zero,
    One,
    Two,
}

impl ParityMode {
    /// How many parity-bit periods this mode adds to a frame.
    pub open spec fn bit_count(self) -> nat {
        match self {
            ParityMode::NoParity => 0,
            ParityMode::Odd => 1,
            ParityMode::Even => 1,
        }
    }
}

impl StopBitsOption {
    /// How many stop-bit periods this option stands for.
    pub open spec fn count(self) -> nat {
        match self {
            StopBitsOption::Zero => 0,
            StopBitsOption::One => 1,
            StopBitsOption::Two => 2,
        }
    }

    /// The stop-bit count as a machine integer.
    pub fn count_u32(self) -> (r: u32)
        ensures
            r == self.count(),
    {
        match self {
            StopBitsOption::Zero => 0,
            StopBitsOption::One => 1,
            StopBitsOption::Two => 2,
        }
    }
}

/// Whether bit `i` (counting from the least significant end) of `word` is set.
pub open spec fn bit_of(word: u8, i: int) -> bool {
    ((word as u32) >> (i as u32)) & 1 == 1
}

/// The eight data-bit levels of `word`, least-significant bit first.
pub open spec fn data_bits(word: u8) -> Seq<bool> {
    Seq::new(8, |i: int| bit_of(word, i))
}

/// The number of logical-1 levels in a level sequence.
pub open spec fn level_ones(s: Seq<bool>) -> nat
    decreases s.len(),
{
    if s.len() == 0 {
        0
    } else {
        level_ones(s.drop_last()) + (if s.last() {
            1nat
        } else {
            0nat
        })
    }
}

/// Whether `word` holds an odd number of set bits.
pub open spec fn data_ones_odd(word: u8) -> bool {
    level_ones(data_bits(word)) % 2 == 1
}

/// The parity-bit levels of a frame: empty for NoParity; for Even, a bit that
/// makes the total number of logical-1 levels (data plus parity) even; for
/// Odd, the complementary bit.
pub open spec fn parity_levels(word: u8, parity: ParityMode) -> Seq<bool> {
    match parity {
        ParityMode::NoParity => Seq::empty(),
        ParityMode::Even => seq![data_ones_odd(word)],
        ParityMode::Odd => seq![!data_ones_odd(word)],
    }
}

/// `n` stop-bit periods, each at the high level.
pub open spec fn stop_levels(n: nat) -> Seq<bool> {
    Seq::new(n, |i: int| true)
}

/// The full level sequence of one frame: start bit (low), data bits
/// least-significant first, parity levels, stop levels.
pub open spec fn frame_levels(word: u8, parity: ParityMode, stop: StopBitsOption) -> Seq<bool> {
    seq![false] + data_bits(word) + parity_levels(word, parity) + stop_levels(stop.count())
}

/// The duration of one bit period in nanoseconds, at the given baud rate.
pub open spec fn bit_period_nanos(baud: u32) -> nat
    recommends
        baud > 0,
{
    (1_000_000_000 as nat) / (baud as nat)
}

/// An output capability the transmitter can drive: a pin token in output mode,
/// or a simulated sink. It records the levels driven so far and the total time
/// spent holding them, so that a frame's shape and timing can be stated.
pub trait OutputCapability: Sized {
    /// The levels driven on the line so far, in order.
    spec fn emitted(&self) -> Seq<bool>;

    /// The total nanoseconds spent holding levels so far.
    spec fn waited_nanos(&self) -> nat;

    /// The level the line is currently driven to.
    spec fn line(&self) -> bool;

    /// Drive the line to the high level.
    fn set_high(&mut self)
        ensures
            final(self).emitted() == old(self).emitted().push(true),
            final(self).waited_nanos() == old(self).waited_nanos(),
            final(self).line() == true,
    ;

    /// Drive the line to the low level.
    fn set_low(&mut self)
        ensures
            final(self).emitted() == old(self).emitted().push(false),
            final(self).waited_nanos() == old(self).waited_nanos(),
            final(self).line() == false,
    ;

    /// Drive the line to the given level.
    fn set_state(&mut self, high: bool)
        ensures
            final(self).emitted() == old(self).emitted().push(high),
            final(self).waited_nanos() == old(self).waited_nanos(),
            final(self).line() == high,
    ;

    /// Hold the current level for the given duration.
    fn hold(&mut self, nanos: u64)
        ensures
            final(self).emitted() == old(self).emitted(),
            final(self).waited_nanos() == old(self).waited_nanos() + nanos,
            final(self).line() == old(self).line(),
    ;
}

/// A simulated output sink: records every driven level in a vector readable by
/// host tests, in place of a physical pin.
pub struct SimulatedSink {
    /// Every level driven so far, in order.
    pub levels: Vec<bool>,
    /// The level the line is currently driven to.
    pub line_level: bool,
    /// The total nanoseconds spent holding levels.
    pub waited: Ghost<nat>,
}

impl SimulatedSink {
    /// A fresh sink with an idle-low line and no recorded levels.
    pub fn new() -> (r: Self)
        ensures
            r.emitted() == Seq::<bool>::empty(),
            r.waited_nanos() == 0,
            r.line_level == false,
    {
        SimulatedSink { levels: Vec::new(), line_level: false, waited: Ghost(0nat) }
    }
}

impl OutputCapability for SimulatedSink {
    open spec fn emitted(&self) -> Seq<bool> {
        self.levels@
    }

    open spec fn waited_nanos(&self) -> nat {
        self.waited@
    }

    open spec fn line(&self) -> bool {
        self.line_level
    }

    fn set_high(&mut self) {
        self.levels.push(true);
        self.line_level = true;
    }

    fn set_low(&mut self) {
        self.levels.push(false);
        self.line_level = false;
    }

    fn set_state(&mut self, high: bool) {
        self.levels.push(high);
        self.line_level = high;
    }

    fn hold(&mut self, nanos: u64) {
        self.waited = Ghost(self.waited@ + nanos as nat);
    }
}

/// The error a transmitter constructor reports.
#[derive(Copy, Clone, PartialEq, Eq, Structural, Debug)]
pub enum UartError {
    /// The requested baud rate was zero, which would make the bit period
    /// undefined.
    ZeroBaudRate,
}

/// A software serial transmitter: one output capability plus one immutable
/// frame configuration. Every `write` is a fully synchronous, blocking
/// emission of one framed byte; there is no internal buffer.
pub struct SoftUartTransmitter<T: OutputCapability> {
    tx_pin: T,
    baud_rate: u32,
    stop_bits: StopBitsOption,
    parity: ParityMode,
}

impl<T: OutputCapability> SoftUartTransmitter<T> {
    /// The configuration is well formed: the baud rate is strictly positive.
    pub closed spec fn wf(self) -> bool {
        self.baud_rate > 0
    }

    /// The output capability this transmitter owns.
    pub closed spec fn pin(self) -> T {
        self.tx_pin
    }

    /// The configured baud rate.
    pub closed spec fn baud(self) -> u32 {
        self.baud_rate
    }

    /// The configured stop-bit count.
    pub closed spec fn stop_config(self) -> StopBitsOption {
        self.stop_bits
    }

    /// The configured parity mode.
    pub closed spec fn parity_config(self) -> ParityMode {
        self.parity
    }

    /// Construct a transmitter over the given output capability. A baud rate
    /// of zero is rejected: the bit period would be a division by zero.
    pub fn new(tx_pin: T, baud_rate: u32, stop_bits: StopBitsOption, parity: ParityMode) -> (r:
        Result<Self, UartError>)
        ensures
            r is Ok <==> baud_rate > 0,
            r is Err ==> r->Err_0 == UartError::ZeroBaudRate,
            r is Ok ==> r->Ok_0.wf(),
            r is Ok ==> r->Ok_0.pin() == tx_pin,
            r is Ok ==> r->Ok_0.baud() == baud_rate,
            r is Ok ==> r->Ok_0.stop_config() == stop_bits,
            r is Ok ==> r->Ok_0.parity_config() == parity,
    {
        if baud_rate == 0 {
            Err(UartError::ZeroBaudRate)
        } else {
            Ok(SoftUartTransmitter { tx_pin, baud_rate, stop_bits, parity })
        }
    }

    /// The configured baud rate in bauds per second.
    pub fn get_baud_rate(&self) -> (r: u32)
        ensures
            r == self.baud(),
    {
        self.baud_rate
    }

    /// Give the output capability back, releasing the transmitter.
    pub fn release(self) -> (r: T)
        ensures
            r == self.pin(),
    {
        self.tx_pin
    }

    /// Emit one framed byte and block for the frame's entire duration: start
    /// bit, eight data bits least-significant first, parity per the configured
    /// mode, then the configured stop bits, each level held one bit period.
    pub fn write(&mut self, word: u8) -> (r: Result<(), UartError>)
        requires
            old(self).wf(),
        ensures
            r is Ok,
            final(self).wf(),
            final(self).baud() == old(self).baud(),
            final(self).stop_config() == old(self).stop_config(),
            final(self).parity_config() == old(self).parity_config(),
            final(self).pin().emitted() == old(self).pin().emitted() + frame_levels(
                word,
                old(self).parity_config(),
                old(self).stop_config(),
            ),
            final(self).pin().waited_nanos() == old(self).pin().waited_nanos() + frame_levels(
                word,
                old(self).parity_config(),
                old(self).stop_config(),
            ).len() * bit_period_nanos(old(self).baud()),
    {
        let ghost base: Seq<bool> = self.tx_pin.emitted();
        let ghost wbase: nat = self.tx_pin.waited_nanos();
        let ghost per: nat = bit_period_nanos(self.baud_rate);
        let ghost par0: ParityMode = self.parity;
        let ghost baud0: u32 = self.baud_rate;
        let ghost stop0: StopBitsOption = self.stop_bits;
        let period: u64 = 1_000_000_000u64 / (self.baud_rate as u64);
        assert(period as nat == per);

        // Start bit: drive low and hold one period.
        self.tx_pin.set_low();
        self.tx_pin.hold(period);
        assert(self.tx_pin.emitted() =~= base + seq![false]);

        // Data bits, least-significant first; count the set bits as they go
        // out, for the parity level.
        let mut shift: u32 = 0;
        let mut ones: u32 = 0;
        while shift < 8
            invariant
                shift <= 8,
                self.wf(),
                self.baud_rate == baud0,
                self.parity == par0,
                self.stop_bits == stop0,
                per == bit_period_nanos(self.baud_rate),
                period as nat == per,
                self.tx_pin.emitted() == base + seq![false] + data_bits(word).take(shift as int),
                self.tx_pin.waited_nanos() == wbase + (1 + shift) * per,
                ones == level_ones(data_bits(word).take(shift as int)),
            decreases 8 - shift,
        {
            let ghost done: Seq<bool> = data_bits(word).take(shift as int);
            let curr: u32 = ((word as u32) >> shift) & 1;
            proof {
                assert(((word as u32) >> shift) & 1 == 1 || ((word as u32) >> shift) & 1 == 0)
                    by (bit_vector);
                lemma_level_ones_bound(done);
            }
            self.tx_pin.set_state(curr != 0);
            self.tx_pin.hold(period);
            ones = ones + curr;
            proof {
                assert((curr != 0) == bit_of(word, shift as int));
                assert(data_bits(word).take(shift as int + 1).drop_last() =~= done);
                assert(data_bits(word).take(shift as int + 1).last() == bit_of(
                    word,
                    shift as int,
                ));
                assert(base + seq![false] + done + seq![bit_of(word, shift as int)] =~= base
                    + seq![false] + data_bits(word).take(shift as int + 1));
                assert(self.tx_pin.emitted() =~= base + seq![false] + done + seq![
                    bit_of(word, shift as int),
                ]);
                assert((1 + shift) * per + per == (1 + (shift + 1)) * per) by (nonlinear_arith);
            }
            shift = shift + 1;
        }
        assert(data_bits(word).take(8) =~= data_bits(word));
        let ghost after_data: Seq<bool> = base + seq![false] + data_bits(word);

        // Parity level, if the mode calls for one. Even parity makes the total
        // number of set levels even, Odd the complement.
        match self.parity {
            ParityMode::Even => {
                self.tx_pin.set_state(ones % 2 == 1);
                self.tx_pin.hold(period);
                proof {
                    assert((ones % 2 == 1) == data_ones_odd(word));
                    assert(self.tx_pin.emitted() =~= after_data + parity_levels(word, par0));
                    assert((10 as nat) * per == (9 as nat) * per + per) by (nonlinear_arith);
                }
            },
            ParityMode::Odd => {
                self.tx_pin.set_state(ones % 2 == 0);
                self.tx_pin.hold(period);
                proof {
                    assert((ones % 2 == 0) == !data_ones_odd(word));
                    assert(self.tx_pin.emitted() =~= after_data + parity_levels(word, par0));
                    assert((10 as nat) * per == (9 as nat) * per + per) by (nonlinear_arith);
                }
            },
            ParityMode::NoParity => {
                proof {
                    assert(self.tx_pin.emitted() =~= after_data + parity_levels(word, par0));
                }
            },
        }
        let ghost after_parity: Seq<bool> = after_data + parity_levels(word, par0);
        let ghost steps0: nat = 9 + par0.bit_count();
        assert(self.tx_pin.waited_nanos() == wbase + steps0 * per);

        // Stop bits: drive high for each configured stop-bit period.
        let stop_n: u32 = self.stop_bits.count_u32();
        let mut i: u32 = 0;
        while i < stop_n
            invariant
                i <= stop_n,
                self.wf(),
                self.baud_rate == baud0,
                self.parity == par0,
                self.stop_bits == stop0,
                stop_n == stop0.count(),
                per == bit_period_nanos(self.baud_rate),
                period as nat == per,
                steps0 == 9 + par0.bit_count(),
                self.tx_pin.emitted() == after_parity + stop_levels(i as nat),
                self.tx_pin.waited_nanos() == wbase + (steps0 + i) * per,
            decreases stop_n - i,
        {
            self.tx_pin.set_high();
            self.tx_pin.hold(period);
            proof {
                assert(stop_levels(i as nat).push(true) =~= stop_levels((i + 1) as nat));
                assert(after_parity + stop_levels(i as nat) + seq![true] =~= after_parity
                    + stop_levels((i + 1) as nat));
                assert((steps0 + i) * per + per == (steps0 + (i + 1)) * per) by (nonlinear_arith);
            }
            i = i + 1;
        }

        proof {
            let f = frame_levels(word, par0, stop0);
            assert(self.tx_pin.emitted() =~= base + f);
            assert(f.len() == steps0 + stop0.count());
            assert(self.tx_pin.waited_nanos() == wbase + f.len() * per);
        }
        Ok(())
    }

    /// A no-op: there is no internal buffer, so every `write` is already fully
    /// flushed on return.
    pub fn flush(&mut self) -> (r: Result<(), UartError>)
        ensures
            r is Ok,
            *final(self) == *old(self),
    {
        Ok(())
    }
}

/// A level sequence holds at most as many logical-1 levels as it has levels.
pub proof fn lemma_level_ones_bound(s: Seq<bool>)
    ensures
        level_ones(s) <= s.len(),
    decreases s.len(),
{
    if s.len() > 0 {
        lemma_level_ones_bound(s.drop_last());
    }
}

/// A single level counts as one logical-1 level exactly when it is high.
pub proof fn lemma_level_ones_singleton(b: bool)
    ensures
        level_ones(seq![b]) == (if b {
            1nat
        } else {
            0nat
        }),
{
    assert(seq![b].drop_last() =~= Seq::<bool>::empty());
    reveal_with_fuel(level_ones, 2);
}

/// The number of logical-1 levels in a concatenation is the sum over the two
/// parts.
pub proof fn lemma_level_ones_add(a: Seq<bool>, b: Seq<bool>)
    ensures
        level_ones(a + b) == level_ones(a) + level_ones(b),
    decreases b.len(),
{
    if b.len() == 0 {
        assert(a + b =~= a);
    } else {
        assert((a + b).drop_last() =~= a + b.drop_last());
        lemma_level_ones_add(a, b.drop_last());
    }
}

/// Among the data and parity levels of a frame, the number of logical-1
/// levels is even under Even parity and odd under Odd parity; under NoParity
/// no parity level is present at all.
pub proof fn lemma_parity_balance(word: u8, parity: ParityMode)
    ensures
        parity is Even ==> level_ones(data_bits(word) + parity_levels(word, parity)) % 2 == 0,
        parity is Odd ==> level_ones(data_bits(word) + parity_levels(word, parity)) % 2 == 1,
        parity is NoParity ==> parity_levels(word, parity).len() == 0,
{
    lemma_level_ones_add(data_bits(word), parity_levels(word, parity));
    match parity {
        ParityMode::NoParity => {
        },
        ParityMode::Even => {
            lemma_level_ones_singleton(data_ones_odd(word));
        },
        ParityMode::Odd => {
            lemma_level_ones_singleton(!data_ones_odd(word));
        },
    }
}

/// A frame decomposes as written: after the start bit, levels 1 up to the
/// stop portion are exactly the data bits followed by the parity levels, so
/// `lemma_parity_balance` speaks of precisely what a frame emits there.
pub proof fn lemma_frame_decomposition(word: u8, parity: ParityMode, stop: StopBitsOption)
    ensures
        frame_levels(word, parity, stop).subrange(1, 9 + parity.bit_count() as int) == data_bits(
            word,
        ) + parity_levels(word, parity),
{
    assert(frame_levels(word, parity, stop).subrange(1, 9 + parity.bit_count() as int)
        =~= data_bits(word) + parity_levels(word, parity));
}

/// A frame holds exactly `1 + 8 + parity bits + stop bits` levels, and the
/// configured number of stop-bit periods, all at the high level, are exactly
/// the levels that follow the data and parity portion.
pub proof fn lemma_stop_bits_tail(word: u8, parity: ParityMode, stop: StopBitsOption)
    ensures
        frame_levels(word, parity, stop).len() == 9 + parity.bit_count() + stop.count(),
        forall|i: int|
            9 + parity.bit_count() <= i < frame_levels(word, parity, stop).len()
                ==> frame_levels(word, parity, stop)[i] == true,
        frame_levels(word, parity, stop).skip(9 + parity.bit_count() as int) =~= stop_levels(
            stop.count(),
        ),
{
    assert(frame_levels(word, parity, stop).skip(9 + parity.bit_count() as int) =~= stop_levels(
        stop.count(),
    ));
}

/// Data bits stand in the frame least-significant bit first: level `1 + i` of
/// a frame is bit `i` of the byte, and level 0 is the low start bit.
pub proof fn lemma_data_bits_lsb_first(word: u8, parity: ParityMode, stop: StopBitsOption)
    ensures
        frame_levels(word, parity, stop)[0] == false,
        forall|i: int|
            0 <= i < 8 ==> frame_levels(word, parity, stop)[1 + i] == bit_of(word, i),
{
}

/// Every frame lasts `(1 + 8 + parity bits + stop bits)` bit periods: its
/// level count times the bit period is that total duration in nanoseconds.
pub proof fn lemma_frame_duration(word: u8, parity: ParityMode, stop: StopBitsOption, baud: u32)
    requires
        baud > 0,
    ensures
        frame_levels(word, parity, stop).len() * bit_period_nanos(baud) == (9 + parity.bit_count()
            + stop.count()) * bit_period_nanos(baud),
{
    lemma_stop_bits_tail(word, parity, stop);
}

} // verus!
