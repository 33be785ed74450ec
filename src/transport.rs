use vstd::prelude::*;
use vstd::slice::SliceAdditionalExecFns;
use crate::device::{AJConfig, EngineError};
use crate::ring::RingBuffer;

verus! {

/// What a stream reports when asked how many frames it can take or give.
#[derive(PartialEq, Eq, Structural, Clone, Copy, Debug)]
pub enum Availability {
    Frames(u32),
    InputOverflowed,
    OutputUnderflowed,
}

/// A transient sample-loss condition reported by the driver.
#[derive(PartialEq, Eq, Structural, Clone, Copy, Debug)]
pub enum StreamWarning {
    InputOverflowed,
    OutputUnderflowed,
}

/// How many frames to move now, and the warning to report, if any.
#[derive(PartialEq, Eq, Structural, Clone, Copy, Debug)]
pub struct Plan {
    pub frames: u32,
    pub warning: Option<StreamWarning>,
}

/// Frames a report offers; a warning offers none.
pub open spec fn frames_offered(a: Availability) -> nat {
    match a {
        Availability::Frames(n) => n as nat,
        _ => 0,
    }
}

/// The warning a report carries.
pub open spec fn warning_of(a: Availability) -> Option<StreamWarning> {
    match a {
        Availability::Frames(_) => None,
        Availability::InputOverflowed => Some(StreamWarning::InputOverflowed),
        Availability::OutputUnderflowed => Some(StreamWarning::OutputUnderflowed),
    }
}

pub open spec fn min_nat(a: nat, b: nat) -> nat {
    if a <= b {
        a
    } else {
        b
    }
}

/// Frames read in one cycle: what the input offers, as far as there is room.
pub open spec fn read_count(input: Availability, free_frames: nat) -> nat {
    min_nat(frames_offered(input), free_frames)
}

/// Frames written in one cycle: what the output accepts, as far as frames
/// are buffered.
pub open spec fn write_count(output: Availability, buffered_frames: nat) -> nat {
    min_nat(frames_offered(output), buffered_frames)
}

/// The buffer after the read half of a cycle; `incoming` is what the input
/// stream delivered for the planned frames.
pub open spec fn after_read<S>(
    buf: Seq<S>,
    capacity: nat,
    channels: nat,
    input: Availability,
    incoming: Seq<S>,
) -> Seq<S> {
    if read_count(input, ((capacity - buf.len()) as nat) / channels) > 0 {
        buf + incoming
    } else {
        buf
    }
}

/// Samples handed to the output in one cycle, oldest first.
pub open spec fn cycle_output<S>(
    buf: Seq<S>,
    capacity: nat,
    channels: nat,
    input: Availability,
    incoming: Seq<S>,
    output: Availability,
) -> Seq<S> {
    let b = after_read(buf, capacity, channels, input, incoming);
    b.take((write_count(output, b.len() / channels) * channels) as int)
}

/// The buffer at the end of one cycle.
pub open spec fn cycle_buffer<S>(
    buf: Seq<S>,
    capacity: nat,
    channels: nat,
    input: Availability,
    incoming: Seq<S>,
    output: Availability,
) -> Seq<S> {
    let b = after_read(buf, capacity, channels, input, incoming);
    b.skip((write_count(output, b.len() / channels) * channels) as int)
}

/// The buffer after `n` cycles in which both streams report a warning.
pub open spec fn after_warning_streak<S>(buf: Seq<S>, capacity: nat, channels: nat, n: nat) -> Seq<
    S,
>
    decreases n,
{
    if n == 0 {
        buf
    } else {
        cycle_buffer(
            after_warning_streak(buf, capacity, channels, (n - 1) as nat),
            capacity,
            channels,
            Availability::InputOverflowed,
            seq![],
            Availability::OutputUnderflowed,
        )
    }
}

/// A warning is absorbed as "no frames this time": a cycle that meets one
/// on either side moves exactly what it would move had that side offered
/// zero frames, and the loop carries on from the same state.
pub proof fn lemma_warning_is_idle<S>(
    buf: Seq<S>,
    capacity: nat,
    channels: nat,
    input: Availability,
    incoming: Seq<S>,
    output: Availability,
)
    requires
        channels >= 1,
    ensures
        warning_of(input) is Some ==> cycle_buffer(buf, capacity, channels, input, incoming, output)
            == cycle_buffer(buf, capacity, channels, Availability::Frames(0), incoming, output)
            && cycle_output(buf, capacity, channels, input, incoming, output) == cycle_output(
            buf,
            capacity,
            channels,
            Availability::Frames(0),
            incoming,
            output,
        ),
        warning_of(output) is Some ==> cycle_buffer(buf, capacity, channels, input, incoming, output)
            == cycle_buffer(buf, capacity, channels, input, incoming, Availability::Frames(0))
            && cycle_output(buf, capacity, channels, input, incoming, output) == cycle_output(
            buf,
            capacity,
            channels,
            input,
            incoming,
            Availability::Frames(0),
        ),
{
}

/// Any number of warnings in a row leave the buffered samples untouched,
/// so the cycle after them forwards exactly what it would have forwarded
/// without them.
pub proof fn lemma_warning_streak<S>(buf: Seq<S>, capacity: nat, channels: nat, n: nat)
    requires
        channels >= 1,
    ensures
        after_warning_streak(buf, capacity, channels, n) == buf,
    decreases n,
{
    if n > 0 {
        lemma_warning_streak(buf, capacity, channels, (n - 1) as nat);
        let e: Seq<S> = seq![];
        assert(read_count(Availability::InputOverflowed, ((capacity - buf.len()) as nat) / channels)
            == 0);
        assert(after_read(buf, capacity, channels, Availability::InputOverflowed, e) == buf);
        assert(write_count(Availability::OutputUnderflowed, buf.len() / channels) == 0);
        assert(0 * channels == 0);
        assert(buf.skip(0) =~= buf);
    }
}

/// The state of the buffered-poll strategy: a ring buffer between the input
/// and the output stream, sized to one transport cycle.
pub struct BufferedTransport<S> {
    buffer: RingBuffer<S>,
    channels: u32,
}

impl<S: Copy> BufferedTransport<S> {
    /// The samples waiting for the output, oldest first.
    pub closed spec fn buffered(&self) -> Seq<S> {
        self.buffer@
    }

    pub closed spec fn spec_capacity(&self) -> nat {
        self.buffer.spec_capacity()
    }

    pub closed spec fn spec_channels(&self) -> nat {
        self.channels as nat
    }

    pub open spec fn wf(&self) -> bool {
        self.spec_channels() >= 1 && self.buffered().len() <= self.spec_capacity()
    }

    /// Whole frames that still fit.
    pub open spec fn free_frames(&self) -> nat {
        ((self.spec_capacity() - self.buffered().len()) as nat) / self.spec_channels()
    }

    /// Whole frames buffered.
    pub open spec fn buffered_frames(&self) -> nat {
        self.buffered().len() / self.spec_channels()
    }

    /// An empty buffer of `frames × channels` samples for a session.
    pub fn new<R, G>(config: &AJConfig<R, G>) -> (r: Self)
        requires
            config.wf(),
            config.frames * config.channels <= usize::MAX,
        ensures
            r.wf(),
            r.buffered() == Seq::<S>::empty(),
            r.spec_channels() == config.channels,
            r.spec_capacity() == config.frames * config.channels,
    {
        let cap = (config.frames as usize) * (config.channels as usize);
        BufferedTransport { buffer: RingBuffer::new(cap), channels: config.channels }
    }

    /// Samples per frame.
    pub fn channels(&self) -> (r: u32)
        ensures
            r == self.spec_channels(),
    {
        self.channels
    }

    /// Decides how many frames to read, given what the input stream reports.
    pub fn plan_read(&self, input: Availability) -> (r: Plan)
        requires
            self.wf(),
        ensures
            r.frames == read_count(input, self.free_frames()),
            r.warning == warning_of(input),
    {
        let free = (self.buffer.capacity() - self.buffer.len()) / (self.channels as usize);
        match input {
            Availability::Frames(n) => {
                let f = if (n as usize) <= free {
                    n
                } else {
                    free as u32
                };
                Plan { frames: f, warning: None }
            },
            Availability::InputOverflowed => Plan {
                frames: 0,
                warning: Some(StreamWarning::InputOverflowed),
            },
            Availability::OutputUnderflowed => Plan {
                frames: 0,
                warning: Some(StreamWarning::OutputUnderflowed),
            },
        }
    }

    /// Appends what the input stream delivered. Whole frames that fit are
    /// taken; anything else breaks the read plan and is refused with
    /// `InvariantViolation`, leaving the buffer as it was.
    pub fn accept_input(&mut self, samples: &[S]) -> (r: Result<(), EngineError>)
        requires
            old(self).wf(),
        ensures
            final(self).wf(),
            final(self).spec_channels() == old(self).spec_channels(),
            final(self).spec_capacity() == old(self).spec_capacity(),
            r is Ok <==> (samples@.len() % old(self).spec_channels() == 0 && old(self).buffered().len()
                + samples@.len() <= old(self).spec_capacity()),
            r is Ok ==> final(self).buffered() == old(self).buffered() + samples@,
            r is Err ==> r == Err::<(), EngineError>(EngineError::InvariantViolation)
                && final(self).buffered() == old(self).buffered(),
    {
        let room = self.buffer.capacity() - self.buffer.len();
        if samples.len() % (self.channels as usize) != 0 || samples.len() > room {
            return Err(EngineError::InvariantViolation);
        }
        self.buffer.push_samples(samples);
        Ok(())
    }

    /// Decides how many frames to write, given what the output stream reports.
    pub fn plan_write(&self, output: Availability) -> (r: Plan)
        requires
            self.wf(),
        ensures
            r.frames == write_count(output, self.buffered_frames()),
            r.warning == warning_of(output),
    {
        let held = self.buffer.len() / (self.channels as usize);
        match output {
            Availability::Frames(n) => {
                let f = if (n as usize) <= held {
                    n
                } else {
                    held as u32
                };
                Plan { frames: f, warning: None }
            },
            Availability::InputOverflowed => Plan {
                frames: 0,
                warning: Some(StreamWarning::InputOverflowed),
            },
            Availability::OutputUnderflowed => Plan {
                frames: 0,
                warning: Some(StreamWarning::OutputUnderflowed),
            },
        }
    }

    /// Removes `frames` whole frames from the head, oldest first, for the
    /// output stream. The write plan guarantees they are there.
    pub fn take_output(&mut self, frames: u32) -> (r: Vec<S>)
        requires
            old(self).wf(),
            frames <= old(self).buffered_frames(),
        ensures
            final(self).wf(),
            final(self).spec_channels() == old(self).spec_channels(),
            final(self).spec_capacity() == old(self).spec_capacity(),
            r@ == old(self).buffered().take(frames * old(self).spec_channels()),
            final(self).buffered() == old(self).buffered().skip(frames * old(self).spec_channels()),
    {
        let cap = self.buffer.capacity();
        proof {
            let c = self.channels as nat;
            let l = self.buffer@.len();
            assert(frames * c <= (l / c) * c) by (nonlinear_arith)
                requires
                    frames <= l / c,
                    c >= 1,
            ;
            assert((l / c) * c <= l) by (nonlinear_arith)
                requires
                    c >= 1,
            ;
        }
        let n = (frames as usize) * (self.channels as usize);
        self.buffer.pop_samples(n)
    }
}

/// The callback strategy: copies the delivered input block to the output
/// block unchanged. A frame count other than the negotiated one, or blocks
/// not sized `frames × channels`, break the subsystem's contract and give
/// `InvariantViolation` with the output left as it was.
pub fn passthrough<S: Copy>(
    input: &[S],
    output: &mut [S],
    frames: u32,
    expected_frames: u32,
    channels: u32,
) -> (r: Result<(), EngineError>)
    ensures
        r is Ok <==> (frames == expected_frames && input@.len() == frames * channels
            && old(output)@.len() == input@.len()),
        r is Ok ==> final(output)@ == input@,
        r is Err ==> r == Err::<(), EngineError>(EngineError::InvariantViolation) && final(output)@
            == old(output)@,
{
    proof {
        assert((frames as nat) * (channels as nat) <= 0xffff_ffffnat * 0xffff_ffffnat)
            by (nonlinear_arith)
            requires
                frames <= 0xffff_ffffnat,
                channels <= 0xffff_ffffnat,
        ;
    }
    let block = (frames as u64) * (channels as u64);
    if frames != expected_frames || input.len() as u64 != block || output.len() != input.len() {
        return Err(EngineError::InvariantViolation);
    }
    let mut i: usize = 0;
    while i < input.len()
        invariant
            i <= input@.len(),
            output@.len() == input@.len(),
            forall|j: int| 0 <= j < i ==> output@[j] == input@[j],
        decreases input@.len() - i,
    {
        output[i] = input[i];
        i = i + 1;
    }
    assert(output@ =~= input@);
    Ok(())
}

} // verus!
