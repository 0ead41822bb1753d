use vstd::prelude::*;
use crate::clock::UpdateClock;
use crate::error::{ConfigError, DeviceOp, Error};
use crate::rate::{
    lemma_division_tiles, lemma_hz_window, round_div, schedulable, window_frames,
    window_frames_spec, UpdateRate,
};
use crate::ring::{RingAccumulator, MINIMUM_BUFFER_RESERVATION};
use crate::settings::Settings;
use crate::stream::LastEvent;
use core::marker::PhantomData;

verus! {

/// The kind of event that the stream tries to produce next.
#[derive(Clone, Copy, Debug, PartialEq, Eq, Structural)]
pub enum NextEvent {
    In,
    Out,
    Update,
}

/// The kind that follows `k` in the cycle In, Out, Update.
pub open spec fn after(k: NextEvent) -> NextEvent {
    match k {
        NextEvent::In => NextEvent::Out,
        NextEvent::Out => NextEvent::Update,
        NextEvent::Update => NextEvent::In,
    }
}

/// The record of an emitted event of kind `k`.
pub open spec fn last_of(k: NextEvent) -> LastEvent {
    match k {
        NextEvent::In => LastEvent::In,
        NextEvent::Out => LastEvent::Out,
        NextEvent::Update => LastEvent::Update,
    }
}

/// An event for the caller.
#[derive(Debug)]
pub enum Event<I> {
    /// A window of input samples, with the window's settings.
    In(Vec<I>, Settings),
    /// The output window is ready to be filled through `output_window`.
    Out(Settings),
    /// Nanoseconds since the previous update.
    Update(u64),
}

/// The kind of an event.
pub open spec fn event_kind<I>(e: Event<I>) -> NextEvent {
    match e {
        Event::In(_, _) => NextEvent::In,
        Event::Out(_) => NextEvent::Out,
        Event::Update(_) => NextEvent::Update,
    }
}

/// What the driver of the device tells the stream.
#[derive(Debug)]
pub enum Report<I> {
    /// The caller asks for the next event.
    Next,
    /// The device has this many frames available, for reading or for writing as asked.
    Available(u32),
    /// The samples that the device read.
    Samples(Vec<I>),
    /// The device took the samples handed to it for writing.
    Written,
    /// The operation asked for failed.
    Failed(DeviceOp, String),
}

/// What the stream asks the driver to do next.
#[derive(Debug)]
pub enum Action<I, O> {
    /// Ask the device how many frames can be read.
    QueryReadAvailable,
    /// Read this many frames.
    Read(u32),
    /// Ask the device how many frames can be written.
    QueryWriteAvailable,
    /// Write these samples, this many frames.
    Write(Vec<O>, u32),
    /// Hand this event to the caller.
    Emit(Event<I>),
    /// The stream has failed and ends; this is reported once.
    Fail(Error),
    /// The stream has ended: there are no more events.
    Finished,
}

/// Where the stream stands within one request for an event.
#[derive(Clone, Copy, Debug, PartialEq, Eq, Structural)]
pub enum Phase {
    Idle,
    AwaitReadAvailable,
    AwaitRead,
    AwaitWriteAvailable,
    AwaitWritten,
    Exhausted,
}

/// The event scheduler of a stream: it collects device reads into windows of the caller's
/// size, collects the caller's output windows into device buffers, and decides which event
/// comes next. A driver performs what it asks and reports back.
pub struct SoundStream<I, O> {
    in_device: Settings,
    out_device: Settings,
    in_window: Settings,
    out_window: Settings,
    has_input: bool,
    has_output: bool,
    input: RingAccumulator<I>,
    output: RingAccumulator<O>,
    window: Vec<O>,
    window_open: bool,
    silence: O,
    next_event: NextEvent,
    last_event: Option<LastEvent>,
    phase: Phase,
    clock: UpdateClock,
    reads: Ghost<Seq<I>>,
    delivered: Ghost<Seq<I>>,
    committed: Ghost<Seq<O>>,
    written: Ghost<Seq<O>>,
}

impl<I, O> SoundStream<I, O> {
    /// Every sample the device has read so far, in order.
    pub closed spec fn device_reads(&self) -> Seq<I> {
        self.reads@
    }

    /// The samples of all input events so far, concatenated.
    pub closed spec fn delivered(&self) -> Seq<I> {
        self.delivered@
    }

    /// The samples of all output windows the caller has completed so far, concatenated.
    pub closed spec fn committed(&self) -> Seq<O> {
        self.committed@
    }

    /// Every sample handed to the device for writing so far, in order.
    pub closed spec fn device_writes(&self) -> Seq<O> {
        self.written@
    }

    /// Input samples read and not yet delivered.
    pub closed spec fn pending_input(&self) -> Seq<I> {
        self.input@
    }

    /// Output samples completed and not yet written.
    pub closed spec fn pending_output(&self) -> Seq<O> {
        self.output@
    }

    /// The most samples the input ring may hold.
    pub closed spec fn input_capacity(&self) -> nat {
        self.input.cap()
    }

    /// The most samples the output ring may hold.
    pub closed spec fn output_capacity(&self) -> nat {
        self.output.cap()
    }

    /// The output window handed out by the last output event.
    pub closed spec fn window_view(&self) -> Seq<O> {
        self.window@
    }

    /// The sample that fills a fresh output window.
    pub closed spec fn silence(&self) -> O {
        self.silence
    }

    /// Whether an output window is out with the caller.
    pub closed spec fn window_is_open(&self) -> bool {
        self.window_open
    }

    pub closed spec fn spec_next_event(&self) -> NextEvent {
        self.next_event
    }

    /// The clock reading of the last update (or of the stream's start).
    pub closed spec fn clock_last(&self) -> u64 {
        self.clock.last()
    }

    /// The kind of the last event emitted, if any.
    pub closed spec fn spec_last_event(&self) -> Option<LastEvent> {
        self.last_event
    }

    pub closed spec fn spec_phase(&self) -> Phase {
        self.phase
    }

    pub closed spec fn spec_has_input(&self) -> bool {
        self.has_input
    }

    pub closed spec fn spec_has_output(&self) -> bool {
        self.has_output
    }

    /// Device-side settings of the input.
    pub closed spec fn spec_in_device(&self) -> Settings {
        self.in_device
    }

    /// Device-side settings of the output.
    pub closed spec fn spec_out_device(&self) -> Settings {
        self.out_device
    }

    /// Settings of the caller's input windows.
    pub closed spec fn spec_in_window(&self) -> Settings {
        self.in_window
    }

    /// Settings of the caller's output windows.
    pub closed spec fn spec_out_window(&self) -> Settings {
        self.out_window
    }

    /// The stream's invariant.
    pub closed spec fn wf(&self) -> bool {
        &&& self.input.wf()
        &&& self.output.wf()
        &&& self.in_device.is_valid()
        &&& self.out_device.is_valid()
        &&& self.in_window.frames <= self.in_device.frames
        &&& self.out_window.frames <= self.out_device.frames
        &&& self.in_window.channels == self.in_device.channels
        &&& self.out_window.channels == self.out_device.channels
        &&& self.in_window.frames > 0
        &&& self.out_window.frames > 0
        &&& self.input.cap() >= 2 * self.in_device.samples()
        &&& self.output.cap() >= 2 * self.out_device.samples()
        &&& self.delivered@ + self.input@ == self.reads@
        &&& self.written@ + self.output@ == self.committed@
        &&& self.window_open ==> self.output@.len() <= self.out_device.samples()
        &&& self.phase == Phase::Idle || self.phase == Phase::Exhausted || !self.window_open
    }
}

/// The number of samples that the ring of a side with `samples` samples per device buffer
/// holds: twice a device buffer, and at least the minimum reservation. `None` where that
/// does not fit in a `usize`.
fn ring_capacity(samples: usize) -> (r: Option<usize>)
    ensures
        r is Some <==> 2 * samples <= usize::MAX,
        r is Some ==> r->Some_0 == (if 2 * samples > MINIMUM_BUFFER_RESERVATION {
            2 * samples
        } else {
            MINIMUM_BUFFER_RESERVATION as int
        }),
{
    if samples > usize::MAX / 2 {
        return None;
    }
    let doubled = 2 * samples;
    if doubled > MINIMUM_BUFFER_RESERVATION {
        Some(doubled)
    } else {
        Some(MINIMUM_BUFFER_RESERVATION)
    }
}

/// The capacity of the ring of a side with `samples` samples per device buffer: twice a
/// device buffer, and at least the minimum reservation.
pub open spec fn ring_capacity_spec(samples: nat) -> nat {
    if 2 * samples > MINIMUM_BUFFER_RESERVATION {
        2 * samples
    } else {
        MINIMUM_BUFFER_RESERVATION as nat
    }
}

/// The side whose device settings fix the window: the input where there is one.
pub open spec fn primary(input: Option<Settings>, output: Option<Settings>) -> Settings {
    match input {
        Some(s) => s,
        None => match output {
            Some(s) => s,
            None => Settings { sample_hz: 0, frames: 0, channels: 0 },
        },
    }
}

/// A side that is absent, or valid with a ring that fits in memory.
pub open spec fn side_ok(side: Option<Settings>) -> bool {
    match side {
        Some(s) => s.is_valid() && 2 * s.samples() <= usize::MAX,
        None => true,
    }
}

/// The window size in frames that a stream with these sides and rate gets, or why it
/// cannot be opened.
pub open spec fn stream_window_spec(
    input: Option<Settings>,
    output: Option<Settings>,
    rate: UpdateRate,
) -> Result<u16, ConfigError> {
    if input is None && output is None {
        Err(ConfigError::InvalidSettings)
    } else if !side_ok(input) || !side_ok(output) {
        Err(ConfigError::InvalidSettings)
    } else if input is Some && output is Some && (input->Some_0.sample_hz
        != output->Some_0.sample_hz || input->Some_0.frames != output->Some_0.frames) {
        Err(ConfigError::InvalidSettings)
    } else {
        window_frames_spec(primary(input, output), rate)
    }
}

/// The same sides, windows and capacities.
pub open spec fn same_config<I, O>(a: SoundStream<I, O>, b: SoundStream<I, O>) -> bool {
    &&& a.spec_in_device() == b.spec_in_device()
    &&& a.spec_out_device() == b.spec_out_device()
    &&& a.spec_in_window() == b.spec_in_window()
    &&& a.spec_out_window() == b.spec_out_window()
    &&& a.spec_has_input() == b.spec_has_input()
    &&& a.spec_has_output() == b.spec_has_output()
    &&& a.input_capacity() == b.input_capacity()
    &&& a.output_capacity() == b.output_capacity()
    &&& a.silence() == b.silence()
}

/// Which kinds may be emitted when `next` is the kind due: the one due; an output event
/// where there is no input side to wait for; an update where the output event is passed
/// over, because there is no output side or its ring is full enough.
pub open spec fn may_emit(next: NextEvent, kind: NextEvent, has_input: bool, has_output: bool) -> bool {
    &&& kind == NextEvent::In ==> next == NextEvent::In && has_input
    &&& kind == NextEvent::Out ==> has_output && (next == NextEvent::Out || (next == NextEvent::In
        && !has_input))
    &&& kind == NextEvent::Update ==> next == NextEvent::Update || next == NextEvent::Out || (next
        == NextEvent::In && !has_input)
}

/// What an action says of the stream before and after it: an emitted event follows the
/// cycle, and its samples are what the stream delivered.
pub open spec fn emits_in_cycle<I, O>(pre: SoundStream<I, O>, post: SoundStream<I, O>, r: Action<I, O>) -> bool {
    match r {
        Action::Emit(e) => {
            &&& post.spec_phase() == Phase::Idle
            &&& post.spec_next_event() == after(event_kind(e))
            &&& post.spec_last_event() == Some(last_of(event_kind(e)))
            &&& may_emit(pre.spec_next_event(), event_kind(e), pre.spec_has_input(), pre.spec_has_output())
            &&& match e {
                Event::In(v, st) => {
                    &&& st == pre.spec_in_window()
                    &&& v@.len() == st.samples()
                    &&& post.delivered() == pre.delivered() + v@
                },
                Event::Out(st) => {
                    &&& st == pre.spec_out_window()
                    &&& post.pending_output().len() <= pre.spec_out_device().samples()
                    &&& post.window_is_open()
                    &&& post.window_view() == Seq::new(st.samples(), |i: int| pre.silence())
                    &&& post.delivered() == pre.delivered()
                },
                Event::Update(dt) => {
                    &&& post.delivered() == pre.delivered()
                    &&& dt == (if post.clock_last() >= pre.clock_last() {
                        post.clock_last() - pre.clock_last()
                    } else {
                        0
                    })
                },
            }
            &&& !(e is Update) ==> post.clock_last() == pre.clock_last()
        },
        _ => {
            &&& post.spec_next_event() == pre.spec_next_event()
            &&& post.clock_last() == pre.clock_last()
            &&& post.spec_last_event() == pre.spec_last_event()
            &&& post.delivered() == pre.delivered()
        },
    }
}

/// An action that is not an event or a failure leaves the stream waiting for the matching
/// report, and a write hands over one device buffer from the front of the output ring.
pub open spec fn asks_properly<I, O>(pre: SoundStream<I, O>, post: SoundStream<I, O>, r: Action<I, O>) -> bool {
    match r {
        Action::QueryReadAvailable => post.spec_phase() == Phase::AwaitReadAvailable,
        Action::Read(k) => {
            &&& post.spec_phase() == Phase::AwaitRead
            &&& k > 0
            &&& k * post.spec_in_device().channels <= post.input_capacity() - post.pending_input().len()
        },
        Action::QueryWriteAvailable => post.spec_phase() == Phase::AwaitWriteAvailable,
        Action::Write(v, f) => {
            &&& post.spec_phase() == Phase::AwaitWritten
            &&& f == pre.spec_out_device().frames
            &&& v@.len() == pre.spec_out_device().samples()
            &&& post.device_writes() == pre.device_writes() + v@
        },
        Action::Fail(_) => post.spec_phase() == Phase::Exhausted,
        Action::Finished => post.spec_phase() == Phase::Exhausted,
        Action::Emit(_) => true,
    }
}

/// The samples that a report adds to the device reads: those of a read that was asked for
/// and that fit in the input ring.
pub open spec fn accepted_read<I, O>(pre: SoundStream<I, O>, report: Report<I>) -> Seq<I> {
    match report {
        Report::Samples(v) => if pre.spec_phase() == Phase::AwaitRead && pre.pending_input().len()
            + v@.len() <= pre.input_capacity() {
            v@
        } else {
            Seq::empty()
        },
        _ => Seq::empty(),
    }
}

/// A read report that fits in the input ring.
pub open spec fn read_fits<I, O>(pre: SoundStream<I, O>, report: Report<I>) -> bool {
    report matches Report::Samples(v) && pre.pending_input().len() + v@.len() <= pre.input_capacity()
}

/// Whether `report` answers what the stream waits for; any other report ends it.
pub open spec fn expected_report<I, O>(pre: SoundStream<I, O>, report: Report<I>) -> bool {
    match pre.spec_phase() {
        Phase::Idle => report is Next,
        Phase::AwaitReadAvailable => report is Available,
        Phase::AwaitRead => read_fits(pre, report),
        Phase::AwaitWriteAvailable => report is Available,
        Phase::AwaitWritten => report is Written,
        Phase::Exhausted => true,
    }
}

/// The error that ends a stream on an unexpected report: the device's own failure where
/// an operation was asked for, else an unexpected report.
pub open spec fn failure_of<I, O>(pre: SoundStream<I, O>, report: Report<I>) -> Error {
    match report {
        Report::Failed(op, d) => if pre.spec_phase() != Phase::Idle {
            Error::Device(op, d)
        } else {
            Error::UnexpectedReport
        },
        _ => Error::UnexpectedReport,
    }
}

/// How many frames a read asks for when `n` are available: as many as are available and
/// fit in the room left in the input ring.
pub open spec fn frames_to_read<I, O>(pre: SoundStream<I, O>, n: u32) -> int {
    let room = (pre.input_capacity() - pre.pending_input().len()) / (pre.spec_in_device().channels as int);
    if n <= room { n as int } else { room }
}

/// Whether `report` closes the input phase of a request: a request on a stream without
/// input, a poll with nothing to read, or a read that fits.
pub open spec fn input_phase_done<I, O>(pre: SoundStream<I, O>, report: Report<I>) -> bool {
    ||| pre.spec_phase() == Phase::Idle && report is Next && !pre.spec_has_input()
    ||| pre.spec_phase() == Phase::AwaitReadAvailable && (report matches Report::Available(n)
        && frames_to_read(pre, n) == 0)
    ||| pre.spec_phase() == Phase::AwaitRead && read_fits(pre, report)
}

/// Whether a report of `n` writable frames lets one device buffer be written.
pub open spec fn can_write<I, O>(pre: SoundStream<I, O>, n: u32) -> bool {
    n >= pre.spec_out_device().frames && pre.pending_output().len() >= pre.spec_out_device().samples()
}

impl<I, O: Copy> SoundStream<I, O> {
    /// A stream over an input side, an output side or both, with windows sized by `rate`.
    /// A duplex stream's sides share their rate and buffer size. Fresh output windows hold
    /// `silence`. The first event will be an input event where there is an input side.
    pub fn with_sides(
        input: Option<Settings>,
        output: Option<Settings>,
        rate: UpdateRate,
        silence: O,
    ) -> (r: Result<SoundStream<I, O>, ConfigError>)
        ensures
            r is Ok <==> stream_window_spec(input, output, rate) is Ok,
            r is Err ==> r->Err_0 == stream_window_spec(input, output, rate)->Err_0,
            r is Ok ==> {
                let st = r->Ok_0;
                let w = stream_window_spec(input, output, rate)->Ok_0;
                &&& st.wf()
                &&& st.input_capacity() == ring_capacity_spec(st.spec_in_device().samples())
                &&& st.output_capacity() == ring_capacity_spec(st.spec_out_device().samples())
                &&& st.spec_has_input() == input is Some
                &&& st.spec_has_output() == output is Some
                &&& input is Some ==> st.spec_in_device() == input->Some_0
                &&& output is Some ==> st.spec_out_device() == output->Some_0
                &&& st.spec_in_window() == Settings { frames: w, ..st.spec_in_device() }
                &&& st.spec_out_window() == Settings { frames: w, ..st.spec_out_device() }
                &&& st.spec_next_event() == NextEvent::In
                &&& st.spec_last_event() is None
                &&& st.spec_phase() == Phase::Idle
                &&& !st.window_is_open()
                &&& st.silence() == silence
                &&& st.device_reads() == Seq::<I>::empty()
                &&& st.delivered() == Seq::<I>::empty()
                &&& st.committed() == Seq::<O>::empty()
                &&& st.device_writes() == Seq::<O>::empty()
                &&& st.pending_input() == Seq::<I>::empty()
                &&& st.pending_output() == Seq::<O>::empty()
            },
    {
        let (in_device, out_device) = match (input, output) {
            (None, None) => {
                return Err(ConfigError::InvalidSettings);
            },
            (Some(i), None) => (i, i),
            (None, Some(o)) => (o, o),
            (Some(i), Some(o)) => (i, o),
        };
        if !in_device.valid() || !out_device.valid() {
            return Err(ConfigError::InvalidSettings);
        }
        let in_cap = match ring_capacity(in_device.buffer_size()) {
            Some(c) => c,
            None => {
                return Err(ConfigError::InvalidSettings);
            },
        };
        let out_cap = match ring_capacity(out_device.buffer_size()) {
            Some(c) => c,
            None => {
                return Err(ConfigError::InvalidSettings);
            },
        };
        if in_device.sample_hz != out_device.sample_hz || in_device.frames != out_device.frames {
            return Err(ConfigError::InvalidSettings);
        }
        let frames = match window_frames(&in_device, rate) {
            Ok(f) => f,
            Err(e) => {
                return Err(e);
            },
        };
        Ok(SoundStream {
            in_device,
            out_device,
            in_window: Settings { frames, ..in_device },
            out_window: Settings { frames, ..out_device },
            has_input: input.is_some(),
            has_output: output.is_some(),
            input: RingAccumulator::with_capacity(in_cap),
            output: RingAccumulator::with_capacity(out_cap),
            window: Vec::new(),
            window_open: false,
            silence,
            next_event: NextEvent::In,
            last_event: None,
            phase: Phase::Idle,
            clock: UpdateClock::start(),
            reads: Ghost(Seq::empty()),
            delivered: Ghost(Seq::empty()),
            committed: Ghost(Seq::empty()),
            written: Ghost(Seq::empty()),
        })
    }
}

impl<I, O: Copy> SoundStream<I, O> {
    /// Ends the stream with `err`.
    fn fail(&mut self, err: Error) -> (r: Action<I, O>)
        requires
            old(self).wf(),
        ensures
            final(self).wf(),
            same_config(*old(self), *final(self)),
            final(self).device_reads() == old(self).device_reads(),
            final(self).delivered() == old(self).delivered(),
            final(self).committed() == old(self).committed(),
            final(self).device_writes() == old(self).device_writes(),
            final(self).spec_next_event() == old(self).spec_next_event(),
            final(self).spec_last_event() == old(self).spec_last_event(),
            final(self).spec_phase() == Phase::Exhausted,
            final(self).clock_last() == old(self).clock_last(),
            r == Action::<I, O>::Fail(err),
    {
        self.phase = Phase::Exhausted;
        Action::Fail(err)
    }

    /// Decides the event once the device has been served: the input window when it is
    /// due and full, else another poll; the output window when it is due and the output
    /// ring is not above one device buffer; else the update.
    fn decide(&mut self) -> (r: Action<I, O>)
        requires
            old(self).wf(),
            !old(self).window_is_open(),
            old(self).spec_phase() != Phase::Exhausted,
        ensures
            final(self).wf(),
            same_config(*old(self), *final(self)),
            final(self).device_reads() == old(self).device_reads(),
            final(self).committed() == old(self).committed(),
            final(self).device_writes() == old(self).device_writes(),
            emits_in_cycle(*old(self), *final(self), r),
            r is Emit || r is QueryReadAvailable,
            r is QueryReadAvailable ==> final(self).spec_phase() == Phase::AwaitReadAvailable,
            r is QueryReadAvailable ==> old(self).spec_next_event() == NextEvent::In,
            r is QueryReadAvailable ==> old(self).spec_has_input(),
            r is QueryReadAvailable ==> final(self).pending_input().len() < final(self).spec_in_window().samples(),
            r matches Action::Emit(Event::Update(_)) ==> final(self).pending_output() == old(self).pending_output(),
            final(self).pending_input().len() <= old(self).pending_input().len(),
            r matches Action::Emit(Event::Update(_)) && old(self).spec_has_output() && (
            old(self).spec_next_event() == NextEvent::Out || (old(self).spec_next_event()
                == NextEvent::In && !old(self).spec_has_input())) ==> old(self).pending_output().len()
                > old(self).spec_out_device().samples(),
    {
        let mut due = self.next_event;
        if due == NextEvent::In {
            if self.has_input {
                let target = self.in_window.buffer_size();
                if self.input.len() >= target {
                    let ghost pre_in = self.input@;
                    let v = self.input.take_front(target);
                    self.delivered = Ghost(self.delivered@ + v@);
                    proof {
                        assert(pre_in =~= v@ + self.input@);
                        assert(self.delivered@ + self.input@ =~= self.reads@);
                    }
                    self.next_event = NextEvent::Out;
                    self.last_event = Some(LastEvent::In);
                    self.phase = Phase::Idle;
                    return Action::Emit(Event::In(v, self.in_window));
                }
                self.phase = Phase::AwaitReadAvailable;
                return Action::QueryReadAvailable;
            }
            due = NextEvent::Out;
        }
        if due == NextEvent::Out && self.has_output && self.output.len()
            <= self.out_device.buffer_size() {
            let n = self.out_window.buffer_size();
            let mut w: Vec<O> = Vec::with_capacity(n);
            let mut i: usize = 0;
            while i < n
                invariant
                    i <= n,
                    w@ == Seq::new(i as nat, |j: int| self.silence),
                decreases n - i,
            {
                w.push(self.silence);
                i = i + 1;
                assert(w@ =~= Seq::new(i as nat, |j: int| self.silence));
            }
            self.window = w;
            self.window_open = true;
            self.next_event = NextEvent::Update;
            self.last_event = Some(LastEvent::Out);
            self.phase = Phase::Idle;
            return Action::Emit(Event::Out(self.out_window));
        }
        let dt = self.clock.tick();
        self.next_event = NextEvent::In;
        self.last_event = Some(LastEvent::Update);
        self.phase = Phase::Idle;
        Action::Emit(Event::Update(dt))
    }

    /// Starts the output phase: polls the device where there is an output side.
    fn begin_output(&mut self) -> (r: Action<I, O>)
        requires
            old(self).wf(),
            !old(self).window_is_open(),
            old(self).spec_phase() != Phase::Exhausted,
        ensures
            final(self).wf(),
            same_config(*old(self), *final(self)),
            final(self).device_reads() == old(self).device_reads(),
            final(self).committed() == old(self).committed(),
            final(self).device_writes() == old(self).device_writes(),
            emits_in_cycle(*old(self), *final(self), r),
            r is Emit || r is QueryReadAvailable || r is QueryWriteAvailable,
            r is QueryReadAvailable ==> final(self).spec_phase() == Phase::AwaitReadAvailable,
            r is QueryWriteAvailable ==> final(self).spec_phase() == Phase::AwaitWriteAvailable,
            r is QueryWriteAvailable <==> old(self).spec_has_output(),
            r is QueryReadAvailable ==> old(self).spec_has_input(),
            r is QueryReadAvailable ==> final(self).pending_input().len() < final(self).spec_in_window().samples(),
            r is QueryReadAvailable ==> old(self).spec_next_event() == NextEvent::In,
            r matches Action::Emit(Event::Update(_)) && old(self).spec_has_output() && (
            old(self).spec_next_event() == NextEvent::Out || (old(self).spec_next_event()
                == NextEvent::In && !old(self).spec_has_input())) ==> final(self).pending_output().len()
                > final(self).spec_out_device().samples(),
    {
        if self.has_output {
            self.phase = Phase::AwaitWriteAvailable;
            Action::QueryWriteAvailable
        } else {
            self.decide()
        }
    }

    /// Moves the window that the caller filled, if one is out, into the output ring. A
    /// window is always handed out with the window size and slices keep their length, so
    /// the window always goes in whole.
    fn commit_window(&mut self)
        requires
            old(self).wf(),
            old(self).spec_phase() == Phase::Idle,
        ensures
            final(self).wf(),
            same_config(*old(self), *final(self)),
            !final(self).window_is_open(),
            final(self).spec_phase() == Phase::Idle,
            final(self).clock_last() == old(self).clock_last(),
            final(self).spec_next_event() == old(self).spec_next_event(),
            final(self).spec_last_event() == old(self).spec_last_event(),
            final(self).device_reads() == old(self).device_reads(),
            final(self).delivered() == old(self).delivered(),
            final(self).device_writes() == old(self).device_writes(),
            final(self).committed() == old(self).committed() + (if old(self).window_is_open()
                && old(self).window_view().len() == old(self).spec_out_window().samples() {
                old(self).window_view()
            } else {
                Seq::<O>::empty()
            }),
    {
        if self.window_open && self.window.len() == self.out_window.buffer_size() {
            let mut w: Vec<O> = Vec::new();
            core::mem::swap(&mut w, &mut self.window);
            proof {
                assert(self.out_window.samples() <= self.out_device.samples()) by (nonlinear_arith)
                    requires
                        self.out_window.frames <= self.out_device.frames,
                        self.out_window.channels == self.out_device.channels,
                        self.out_window.samples() == self.out_window.frames as nat * self.out_window.channels as nat,
                        self.out_device.samples() == self.out_device.frames as nat * self.out_device.channels as nat,
                ;
            }
            self.committed = Ghost(self.committed@ + w@);
            self.output.append(w);
            self.window_open = false;
            proof {
                assert(self.written@ + self.output@ =~= self.committed@);
            }
        }
        self.window_open = false;
    }

    /// Advances the stream by one report from the driver and says what to do next.
    ///
    /// A request for an event (`Report::Next`) first hands the output window that the
    /// caller filled, if any, to the output ring. Then the device is polled: readable
    /// frames are read while the input ring has room, and one device buffer is written
    /// whenever the output ring holds one and the device can take it; samples beyond it
    /// stay queued for the next write, never padded or dropped. Then the due event
    /// is emitted, in the cycle In, Out, Update: an input event waits, polling again,
    /// until a whole window has been read; an output event is passed over while the
    /// output ring holds more than one device buffer. Any failure that the driver reports
    /// ends the stream: it is returned once as `Action::Fail`, and every report after it
    /// gets `Action::Finished`.
    pub fn step(&mut self, report: Report<I>) -> (r: Action<I, O>)
        requires
            old(self).wf(),
        ensures
            final(self).wf(),
            same_config(*old(self), *final(self)),
            emits_in_cycle(*old(self), *final(self), r),
            asks_properly(*old(self), *final(self), r),
            r is Finished <==> old(self).spec_phase() == Phase::Exhausted,
            r is Fail <==> !expected_report(*old(self), report),
            r is Fail ==> r == Action::<I, O>::Fail(failure_of(*old(self), report)),
            r is Read <==> old(self).spec_phase() == Phase::AwaitReadAvailable && (report matches Report::Available(n)
                && frames_to_read(*old(self), n) > 0),
            r matches Action::Read(k) ==> (report matches Report::Available(n) && k == frames_to_read(*old(self), n)),
            old(self).spec_phase() == Phase::Idle && report is Next ==> (r is QueryReadAvailable
                <==> old(self).spec_has_input()),
            r is QueryWriteAvailable <==> old(self).spec_has_output() && input_phase_done(*old(self), report),
            r is Write <==> old(self).spec_phase() == Phase::AwaitWriteAvailable && (report matches Report::Available(n)
                && can_write(*old(self), n)),
            r matches Action::Write(v, f) ==> v@ == old(self).pending_output().take(
                old(self).spec_out_device().samples() as int,
            ),
            r is QueryReadAvailable && old(self).spec_phase() != Phase::Idle ==> final(self).pending_input().len()
                < final(self).spec_in_window().samples(),
            r matches Action::Emit(Event::Update(_)) && old(self).spec_has_output() && (
            old(self).spec_next_event() == NextEvent::Out || (old(self).spec_next_event()
                == NextEvent::In && !old(self).spec_has_input())) ==> final(self).pending_output().len()
                > final(self).spec_out_device().samples(),
            final(self).device_reads() == old(self).device_reads() + accepted_read(*old(self), report),
            !(r is Write) ==> final(self).device_writes() == old(self).device_writes(),
            final(self).committed() == old(self).committed() + (if old(self).spec_phase()
                == Phase::Idle && report is Next && old(self).window_is_open()
                && old(self).window_view().len() == old(self).spec_out_window().samples() {
                old(self).window_view()
            } else {
                Seq::<O>::empty()
            }),
    {
        match self.phase {
            Phase::Exhausted => Action::Finished,
            Phase::Idle => match report {
                Report::Next => {
                    self.commit_window();
                    if self.has_input {
                        self.phase = Phase::AwaitReadAvailable;
                        Action::QueryReadAvailable
                    } else {
                        self.begin_output()
                    }
                },
                _ => self.fail(Error::UnexpectedReport),
            },
            Phase::AwaitReadAvailable => match report {
                Report::Available(n) => {
                    let room = self.input.capacity_remaining() / (self.in_device.channels as usize);
                    let k: u32 = if (n as usize) <= room { n } else { room as u32 };
                    proof {
                        let ch = self.in_device.channels as int;
                        let rm = self.input.cap() - self.input@.len();
                        assert(k as int * ch <= rm) by (nonlinear_arith)
                            requires k as int <= rm / ch, ch > 0, rm >= 0;
                    }
                    if k > 0 {
                        self.phase = Phase::AwaitRead;
                        Action::Read(k)
                    } else {
                        self.begin_output()
                    }
                },
                Report::Failed(op, d) => self.fail(Error::Device(op, d)),
                _ => self.fail(Error::UnexpectedReport),
            },
            Phase::AwaitRead => match report {
                Report::Samples(v) => {
                    if v.len() <= self.input.capacity_remaining() {
                        self.reads = Ghost(self.reads@ + v@);
                        self.input.append(v);
                        proof {
                            assert(self.delivered@ + self.input@ =~= self.reads@);
                        }
                        self.begin_output()
                    } else {
                        self.fail(Error::UnexpectedReport)
                    }
                },
                Report::Failed(op, d) => self.fail(Error::Device(op, d)),
                _ => self.fail(Error::UnexpectedReport),
            },
            Phase::AwaitWriteAvailable => match report {
                Report::Available(n) => {
                    let dev = self.out_device.buffer_size();
                    if n >= self.out_device.frames as u32 && self.output.len() >= dev {
                        let ghost pre_out = self.output@;
                        let w = self.output.take_front(dev);
                        self.written = Ghost(self.written@ + w@);
                        proof {
                            assert(pre_out =~= w@ + self.output@);
                            assert(self.written@ + self.output@ =~= self.committed@);
                        }
                        self.phase = Phase::AwaitWritten;
                        Action::Write(w, self.out_device.frames as u32)
                    } else {
                        self.decide()
                    }
                },
                Report::Failed(op, d) => self.fail(Error::Device(op, d)),
                _ => self.fail(Error::UnexpectedReport),
            },
            Phase::AwaitWritten => match report {
                Report::Written => self.decide(),
                Report::Failed(op, d) => self.fail(Error::Device(op, d)),
                _ => self.fail(Error::UnexpectedReport),
            },
        }
    }
}

impl<I, O> SoundStream<I, O> {
    /// The output window of the last output event, for the caller to fill. It stays the
    /// caller's until the next report: then it goes, filled as it is, to the output ring.
    pub fn output_window(&mut self) -> (r: &mut [O])
        requires
            old(self).wf(),
        ensures
            r@ == old(self).window_view(),
            final(self).window_view() == final(r)@,
            final(self).wf(),
            same_config(*old(self), *final(self)),
            final(self).spec_phase() == old(self).spec_phase(),
            final(self).spec_next_event() == old(self).spec_next_event(),
            final(self).spec_last_event() == old(self).spec_last_event(),
            final(self).window_is_open() == old(self).window_is_open(),
            final(self).clock_last() == old(self).clock_last(),
            final(self).device_reads() == old(self).device_reads(),
            final(self).delivered() == old(self).delivered(),
            final(self).committed() == old(self).committed(),
            final(self).device_writes() == old(self).device_writes(),
            final(self).pending_input() == old(self).pending_input(),
            final(self).pending_output() == old(self).pending_output(),
    {
        self.window.as_mut_slice()
    }
}

impl<I, O> SoundStream<I, O> {
    /// The kind of event due next.
    pub fn next_event(&self) -> (r: NextEvent)
        ensures
            r == self.spec_next_event(),
    {
        self.next_event
    }

    /// The kind of the last event emitted; none before the first.
    pub fn last_event(&self) -> (r: Option<LastEvent>)
        ensures
            r == self.spec_last_event(),
    {
        self.last_event
    }

    /// Where the stream stands within a request for an event.
    pub fn phase(&self) -> (r: Phase)
        ensures
            r == self.spec_phase(),
    {
        self.phase
    }

    /// True once a failure has ended the stream.
    pub fn is_exhausted(&self) -> (r: bool)
        ensures
            r == (self.spec_phase() == Phase::Exhausted),
    {
        self.phase == Phase::Exhausted
    }

    /// Whether the stream reads from an input side.
    pub fn has_input(&self) -> (r: bool)
        ensures
            r == self.spec_has_input(),
    {
        self.has_input
    }

    /// Whether the stream writes to an output side.
    pub fn has_output(&self) -> (r: bool)
        ensures
            r == self.spec_has_output(),
    {
        self.has_output
    }

    /// The device-side settings of the input.
    pub fn input_device(&self) -> (r: Settings)
        ensures
            r == self.spec_in_device(),
    {
        self.in_device
    }

    /// The device-side settings of the output.
    pub fn output_device(&self) -> (r: Settings)
        ensures
            r == self.spec_out_device(),
    {
        self.out_device
    }

    /// The settings of the input windows handed to the caller.
    pub fn input_settings(&self) -> (r: Settings)
        ensures
            r == self.spec_in_window(),
    {
        self.in_window
    }

    /// The settings of the output windows the caller fills.
    pub fn output_settings(&self) -> (r: Settings)
        ensures
            r == self.spec_out_window(),
    {
        self.out_window
    }

    /// How many input samples wait in the input ring.
    pub fn pending_input_len(&self) -> (r: usize)
        ensures
            r == self.pending_input().len(),
    {
        self.input.len()
    }

    /// How many output samples wait in the output ring.
    pub fn pending_output_len(&self) -> (r: usize)
        ensures
            r == self.pending_output().len(),
    {
        self.output.len()
    }

    /// The most samples the input ring holds.
    pub fn input_ring_capacity(&self) -> (r: usize)
        ensures
            r == self.input_capacity(),
    {
        self.input.capacity()
    }

    /// The most samples the output ring holds.
    pub fn output_ring_capacity(&self) -> (r: usize)
        ensures
            r == self.output_capacity(),
    {
        self.output.capacity()
    }
}

/// No sample is lost or repeated: the samples of all input events, followed by those still
/// waiting, are exactly what the device read, in order; and the samples handed to the
/// device, followed by those still waiting, are exactly the output windows the caller
/// completed, in order.
pub proof fn lemma_no_sample_loss<I, O>(s: &SoundStream<I, O>)
    requires
        s.wf(),
    ensures
        s.delivered() + s.pending_input() == s.device_reads(),
        s.device_writes() + s.pending_output() == s.committed(),
{
}

/// Neither ring ever holds more than its capacity, and each capacity is at least twice a
/// device buffer (so at least twice any window).
pub proof fn lemma_bounded_memory<I, O>(s: &SoundStream<I, O>)
    requires
        s.wf(),
    ensures
        s.pending_input().len() <= s.input_capacity(),
        s.pending_output().len() <= s.output_capacity(),
        s.input_capacity() >= 2 * s.spec_in_device().samples(),
        s.output_capacity() >= 2 * s.spec_out_device().samples(),
        s.spec_in_window().samples() <= s.spec_in_device().samples(),
        s.spec_out_window().samples() <= s.spec_out_device().samples(),
{
    s.input.lemma_within_capacity();
    s.output.lemma_within_capacity();
    let a = s.spec_in_window();
    let b = s.spec_in_device();
    assert(a.frames as nat * a.channels as nat <= b.frames as nat * b.channels as nat)
        by (nonlinear_arith) requires a.frames <= b.frames, a.channels == b.channels;
    let c = s.spec_out_window();
    let d = s.spec_out_device();
    assert(c.frames as nat * c.channels as nat <= d.frames as nat * d.channels as nat)
        by (nonlinear_arith) requires c.frames <= d.frames, c.channels == d.channels;
}

/// On a stream with one side, events alternate with updates: on an input-only stream an
/// input event comes exactly when one is due, and an update otherwise; on an output-only
/// stream an output event never comes when an update is due. Since an input (or output)
/// event makes an update due and an update makes the input event due, the events run
/// In, Update, In, Update (or Out, Update, ...), an output event being passed over only
/// while the output ring holds more than a device buffer.
pub proof fn lemma_single_side_cycle(next: NextEvent, kind: NextEvent, has_input: bool, has_output: bool)
    requires
        has_input != has_output,
        may_emit(next, kind, has_input, has_output),
    ensures
        has_input ==> (kind == NextEvent::In <==> next == NextEvent::In),
        has_input ==> kind != NextEvent::Out,
        has_output ==> kind != NextEvent::In,
        has_output && next == NextEvent::Update ==> kind == NextEvent::Update,
        after(NextEvent::In) == NextEvent::Out,
        after(NextEvent::Out) == NextEvent::Update,
        after(NextEvent::Update) == NextEvent::In,
{
}

/// Options of a duplex stream whose two sides share one set of settings; they are checked
/// when the stream is run.
pub struct SoundStreamBuilder<I, O> {
    maybe_settings: Option<Settings>,
    maybe_update_rate: Option<UpdateRate>,
    phantom_i: PhantomData<I>,
    phantom_o: PhantomData<O>,
}

/// The settings a builder runs with: its own, or the default ones.
pub open spec fn chosen_settings(s: Option<Settings>) -> Settings {
    match s {
        Some(st) => st,
        None => Settings { sample_hz: 44100, frames: 256, channels: 2 },
    }
}

/// The rate a builder runs with: its own, or one window per device buffer.
pub open spec fn chosen_rate(r: Option<UpdateRate>, st: Settings) -> UpdateRate {
    match r {
        Some(rate) => rate,
        None => UpdateRate::Frames(st.frames),
    }
}

impl<I, O> SoundStreamBuilder<I, O> {
    /// The settings chosen, if any.
    pub closed spec fn spec_settings(&self) -> Option<Settings> {
        self.maybe_settings
    }

    /// The update rate chosen, if any.
    pub closed spec fn spec_rate(&self) -> Option<UpdateRate> {
        self.maybe_update_rate
    }
}

impl<I, O> SoundStream<I, O> {
    /// A builder with no options set.
    pub fn new() -> (r: SoundStreamBuilder<I, O>)
        ensures
            r.spec_settings() is None,
            r.spec_rate() is None,
    {
        SoundStreamBuilder {
            maybe_settings: None,
            maybe_update_rate: None,
            phantom_i: PhantomData,
            phantom_o: PhantomData,
        }
    }
}

impl<I, O: Copy> SoundStreamBuilder<I, O> {
    /// Use these settings for both sides.
    pub fn settings(self, settings: Settings) -> (r: SoundStreamBuilder<I, O>)
        ensures
            r.spec_settings() == Some(settings),
            r.spec_rate() == self.spec_rate(),
    {
        SoundStreamBuilder { maybe_settings: Some(settings), ..self }
    }

    /// Update `hz` times per second.
    pub fn update_hz(self, hz: u32) -> (r: SoundStreamBuilder<I, O>)
        ensures
            r.spec_settings() == self.spec_settings(),
            r.spec_rate() == Some(UpdateRate::Hz(hz)),
    {
        SoundStreamBuilder { maybe_update_rate: Some(UpdateRate::Hz(hz)), ..self }
    }

    /// Update every `frames` frames.
    pub fn update_frames(self, frames: u16) -> (r: SoundStreamBuilder<I, O>)
        ensures
            r.spec_settings() == self.spec_settings(),
            r.spec_rate() == Some(UpdateRate::Frames(frames)),
    {
        SoundStreamBuilder { maybe_update_rate: Some(UpdateRate::Frames(frames)), ..self }
    }

    /// Update `num` times per device buffer; `num` must be a positive multiple of two.
    pub fn updates_per_buffer(self, num: u16) -> (r: SoundStreamBuilder<I, O>)
        ensures
            r.spec_settings() == self.spec_settings(),
            r.spec_rate() == Some(UpdateRate::PerBuffer(num)),
    {
        SoundStreamBuilder { maybe_update_rate: Some(UpdateRate::PerBuffer(num)), ..self }
    }

    /// Checks the options and makes the duplex stream's scheduler; fresh output windows
    /// hold `silence`. Without settings the default ones are used; without a rate, one
    /// window per device buffer.
    pub fn run(self, silence: O) -> (r: Result<SoundStream<I, O>, Error>)
        ensures
            ({
                let st = chosen_settings(self.spec_settings());
                let spec = stream_window_spec(Some(st), Some(st), chosen_rate(self.spec_rate(), st));
                &&& r is Ok <==> spec is Ok
                &&& spec is Err ==> (r matches Err(Error::Configuration(e)) && e == spec->Err_0)
                &&& r is Ok ==> {
                    let s = r->Ok_0;
                    &&& s.wf()
                    &&& s.spec_has_input() && s.spec_has_output()
                    &&& s.spec_in_device() == st && s.spec_out_device() == st
                    &&& s.spec_in_window() == Settings { frames: spec->Ok_0, ..st }
                    &&& s.spec_out_window() == Settings { frames: spec->Ok_0, ..st }
                    &&& s.input_capacity() == ring_capacity_spec(st.samples())
                    &&& s.output_capacity() == ring_capacity_spec(st.samples())
                    &&& s.spec_next_event() == NextEvent::In
                    &&& s.spec_last_event() is None
                    &&& s.spec_phase() == Phase::Idle
                    &&& s.silence() == silence
                    &&& !s.window_is_open()
                    &&& s.device_reads() == Seq::<I>::empty()
                    &&& s.committed() == Seq::<O>::empty()
                }
            }),
    {
        let st = match self.maybe_settings {
            Some(s) => s,
            None => Settings::cd_quality(),
        };
        let rate = match self.maybe_update_rate {
            Some(r) => r,
            None => UpdateRate::Frames(st.frames),
        };
        match SoundStream::with_sides(Some(st), Some(st), rate, silence) {
            Ok(s) => Ok(s),
            Err(e) => Err(Error::Configuration(e)),
        }
    }
}

/// On a stream over one side or two sides with the same settings, a frequency whose
/// rounded window is schedulable gives windows of `sample_hz / hz` rounded to the nearest
/// integer, within half a frame of the exact ratio.
pub proof fn lemma_stream_hz_window(s: Settings, hz: u32)
    requires
        s.is_valid(),
        2 * s.samples() <= usize::MAX,
        hz > 0,
        round_div(s.sample_hz as nat, hz as nat) > 0,
        schedulable(s.frames as int, round_div(s.sample_hz as nat, hz as nat) as int),
    ensures
        ({
            let t = round_div(s.sample_hz as nat, hz as nat);
            &&& stream_window_spec(Some(s), Some(s), UpdateRate::Hz(hz)) == Ok::<u16, ConfigError>(t as u16)
            &&& stream_window_spec(Some(s), None, UpdateRate::Hz(hz)) == Ok::<u16, ConfigError>(t as u16)
            &&& stream_window_spec(None, Some(s), UpdateRate::Hz(hz)) == Ok::<u16, ConfigError>(t as u16)
            &&& t <= s.frames
            &&& -(hz as int) < 2 * t * hz - 2 * s.sample_hz <= hz
        }),
{
    lemma_hz_window(s, hz);
}

/// On a stream over one side or two sides with the same settings, dividing the device
/// buffer by an even `n` no larger than it gives windows of exactly `frames / n` frames.
pub proof fn lemma_stream_division(s: Settings, n: u16)
    requires
        s.is_valid(),
        2 * s.samples() <= usize::MAX,
        n > 0,
        n % 2 == 0,
        n <= s.frames,
    ensures
        stream_window_spec(Some(s), Some(s), UpdateRate::PerBuffer(n)) == Ok::<u16, ConfigError>(
            (s.frames / n) as u16,
        ),
        stream_window_spec(Some(s), None, UpdateRate::PerBuffer(n)) == Ok::<u16, ConfigError>(
            (s.frames / n) as u16,
        ),
        stream_window_spec(None, Some(s), UpdateRate::PerBuffer(n)) == Ok::<u16, ConfigError>(
            (s.frames / n) as u16,
        ),
{
    lemma_division_tiles(s, n);
}

} // verus!
