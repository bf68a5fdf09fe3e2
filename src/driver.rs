//! The channel driver: encodes colours and hands them to a pulse-output
//! channel that was configured elsewhere.
use vstd::prelude::*;
use crate::color::Rgb;
use crate::encoder::{color_to_pulse_code, spec_encode_color};
use crate::timing::{BitTimingTable, PulseSymbol};

verus! {

/// A fault the pulse-output peripheral reports for one transmission.
#[derive(Clone, Copy, Debug, PartialEq, Eq, Structural)]
pub enum TransmissionError {
    /// The channel was still busy with an earlier transmission.
    ChannelBusy,
    /// The sequence did not fit in the channel's buffer.
    BufferOverrun,
}

/// A pulse-output channel whose idle level, carrier and clock divider are
/// already set up.
pub trait PulseChannel {
    /// Every sequence handed to the channel so far, in order.
    spec fn issued(&self) -> Seq<Seq<PulseSymbol>>;

    /// For each sequence of `issued`, whether the channel reported it sent.
    spec fn delivered(&self) -> Seq<bool>;

    /// Sends `pulses` once, in one-shot mode.
    fn send_pulse_sequence(&mut self, pulses: &[PulseSymbol]) -> (r: Result<(), TransmissionError>)
        ensures
            final(self).issued() == old(self).issued().push(pulses@),
            final(self).delivered() == old(self).delivered().push(r is Ok),
    ;
}

/// The sequences of `colors`, one per colour, in order.
pub open spec fn encode_all(colors: Seq<Rgb>, table: BitTimingTable) -> Seq<Seq<PulseSymbol>> {
    Seq::new(colors.len(), |i: int| spec_encode_color(colors[i], table))
}

/// Drives one LED chain through one pulse-output channel.
pub struct Ws281X<C> {
    channel: C,
    bits: BitTimingTable,
}

impl<C: PulseChannel> Ws281X<C> {
    /// The timing table in use.
    pub closed spec fn spec_bits(&self) -> BitTimingTable {
        self.bits
    }

    /// The channel the driver owns.
    pub closed spec fn spec_channel(&self) -> C {
        self.channel
    }

    /// Takes ownership of `channel`, whose peripheral clock runs at `clock_hz`.
    pub fn new(channel: C, clock_hz: u32) -> (d: Self)
        ensures
            d.spec_channel() == channel,
            d.spec_bits() == BitTimingTable::spec_for_clock(clock_hz as int),
    {
        Ws281X { channel, bits: BitTimingTable::for_clock(clock_hz) }
    }

    /// The timing table in use.
    pub fn bits(&self) -> (t: BitTimingTable)
        ensures
            t == self.spec_bits(),
    {
        self.bits
    }

    /// The channel the driver owns.
    pub fn channel(&self) -> (c: &C)
        ensures
            *c == self.spec_channel(),
    {
        &self.channel
    }

    /// Gives the channel back.
    pub fn into_channel(self) -> (c: C)
        ensures
            c == self.spec_channel(),
    {
        self.channel
    }

    /// Encodes `c` and sends its 24 symbols in one transmission.
    pub fn send_one_color(&mut self, c: Rgb) -> (r: Result<(), TransmissionError>)
        ensures
            final(self).spec_bits() == old(self).spec_bits(),
            final(self).spec_channel().issued() == old(self).spec_channel().issued().push(
                spec_encode_color(c, old(self).spec_bits()),
            ),
            final(self).spec_channel().delivered() == old(self).spec_channel().delivered().push(
                r is Ok,
            ),
    {
        let pulses = color_to_pulse_code(c, &self.bits);
        self.channel.send_pulse_sequence(pulses.as_slice())
    }

    /// Sends each colour in turn and stops at the first failed transmission,
    /// whose error it returns; nothing is retried.
    pub fn send_colors(&mut self, colors: &[Rgb]) -> (r: Result<(), TransmissionError>)
        ensures
            final(self).spec_bits() == old(self).spec_bits(),
            ({
                let before = old(self).spec_channel();
                let after = final(self).spec_channel();
                let n = after.issued().len() - before.issued().len();
                &&& 0 <= n <= colors@.len()
                &&& after.issued() == before.issued() + encode_all(
                    colors@.take(n),
                    old(self).spec_bits(),
                )
                &&& after.delivered().len() == before.delivered().len() + n
                &&& after.delivered().take(before.delivered().len() as int) == before.delivered()
                &&& forall|i: int|
                    before.delivered().len() <= i < after.delivered().len() - 1
                        ==> after.delivered()[i]
                &&& r is Ok <==> (n == colors@.len() && (n == 0 || after.delivered().last()))
                &&& r is Err ==> n >= 1 && !after.delivered().last()
            }),
    {
        let ghost before = self.channel;
        let ghost table = self.bits;
        let mut i: usize = 0;
        let mut outcome: Result<(), TransmissionError> = Ok(());
        while i < colors.len()
            invariant_except_break
                outcome is Ok,
                self.channel.issued() == before.issued() + encode_all(colors@.take(i as int), table),
                self.channel.issued().len() == before.issued().len() + i,
                self.channel.delivered().len() == before.delivered().len() + i,
                forall|j: int|
                    before.delivered().len() <= j < self.channel.delivered().len()
                        ==> self.channel.delivered()[j],
            invariant
                i <= colors@.len(),
                self.bits == table,
                self.channel.delivered().take(before.delivered().len() as int) == before.delivered(),
            ensures
                outcome is Ok ==> i == colors@.len()
                    && self.channel.issued() == before.issued() + encode_all(colors@.take(i as int), table)
                    && self.channel.delivered().len() == before.delivered().len() + i
                    && forall|j: int|
                    before.delivered().len() <= j < self.channel.delivered().len()
                        ==> self.channel.delivered()[j],
                outcome is Err ==> i < colors@.len()
                    && self.channel.issued() == before.issued() + encode_all(colors@.take(i + 1), table)
                    && self.channel.delivered().len() == before.delivered().len() + i + 1
                    && !self.channel.delivered().last()
                    && forall|j: int|
                    before.delivered().len() <= j < self.channel.delivered().len() - 1
                        ==> self.channel.delivered()[j],
            decreases colors@.len() - i,
        {
            let ghost prev = self.channel;
            let res = self.send_one_color(colors[i]);
            assert(colors@.take(i + 1) == colors@.take(i as int).push(colors@[i as int]));
            assert(encode_all(colors@.take(i + 1), table) =~= encode_all(colors@.take(i as int), table).push(
                spec_encode_color(colors@[i as int], table),
            ));
            assert(self.channel.delivered().take(before.delivered().len() as int)
                =~= prev.delivered().take(before.delivered().len() as int));
            if res.is_err() {
                outcome = res;
                break;
            }
            i = i + 1;
        }
        if outcome.is_ok() {
            assert(colors@.take(i as int) =~= colors@);
        }
        outcome
    }
}


/// A channel that keeps every sequence handed to it instead of driving a pin;
/// it can be told to fail one chosen transmission.
pub struct RecordingChannel {
    sent: Vec<Vec<PulseSymbol>>,
    results: Vec<bool>,
    fail_at: Option<usize>,
}

impl RecordingChannel {
    /// A channel on which every transmission succeeds.
    pub fn new() -> (c: RecordingChannel)
        ensures
            c.issued() == Seq::<Seq<PulseSymbol>>::empty(),
            c.delivered() == Seq::<bool>::empty(),
            c.spec_fail_at() == None::<usize>,
    {
        RecordingChannel { sent: Vec::new(), results: Vec::new(), fail_at: None }
    }

    /// A channel on which the transmission numbered `attempt` (counting from
    /// zero) fails with `ChannelBusy`.
    pub fn failing_at(attempt: usize) -> (c: RecordingChannel)
        ensures
            c.issued() == Seq::<Seq<PulseSymbol>>::empty(),
            c.delivered() == Seq::<bool>::empty(),
            c.spec_fail_at() == Some(attempt),
    {
        RecordingChannel { sent: Vec::new(), results: Vec::new(), fail_at: Some(attempt) }
    }

    pub closed spec fn spec_fail_at(&self) -> Option<usize> {
        self.fail_at
    }

    /// How many transmissions were attempted.
    pub fn attempts(&self) -> (n: usize)
        ensures
            n == self.issued().len(),
    {
        self.sent.len()
    }

    /// The symbols of the transmission numbered `k`.
    pub fn transmission(&self, k: usize) -> (s: &Vec<PulseSymbol>)
        requires
            k < self.issued().len(),
        ensures
            s@ == self.issued()[k as int],
    {
        &self.sent[k]
    }
}

impl PulseChannel for RecordingChannel {
    closed spec fn issued(&self) -> Seq<Seq<PulseSymbol>> {
        Seq::new(self.sent@.len(), |i: int| self.sent@[i]@)
    }

    closed spec fn delivered(&self) -> Seq<bool> {
        self.results@
    }

    fn send_pulse_sequence(&mut self, pulses: &[PulseSymbol]) -> (r: Result<(), TransmissionError>) {
        let attempt = self.sent.len();
        self.sent.push(vstd::slice::slice_to_vec(pulses));
        let fails = match self.fail_at {
            Some(k) => k == attempt,
            None => false,
        };
        self.results.push(!fails);
        assert(self.issued() =~= old(self).issued().push(pulses@));
        if fails {
            Err(TransmissionError::ChannelBusy)
        } else {
            Ok(())
        }
    }
}

} // verus!
