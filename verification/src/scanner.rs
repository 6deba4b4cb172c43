//! The scan as a state machine.
//!
//! A [`Scanner`] decides; its caller acts. [`Scanner::start`] and
//! [`Scanner::advance`] each return the next [`Action`] for the caller to
//! perform on the receiver, on the transform or on the queue of results, and
//! the caller reports how it went as the next [`Event`]. The scanner never
//! waits and never touches a device.
//!
//! One capture takes five actions: tune, settle, capture, transform, publish.
//! The scanner centres the capture itself and leaves the samples in its own
//! buffer, which it allocates once; the caller transforms them and reports
//! one value for each bin, in the order of the transform; the scanner puts
//! them in ascending order of frequency and publishes them.

use vstd::prelude::*;
use crate::dsp::{normalize, rtl_import};
use crate::error::ValidationError;
use crate::iterators::dft_order;
use crate::sizing::capture_len;
use crate::sweep::ScanParameters;

verus! {

/// The length of the capture that is read and thrown away after every
/// retuning, unless the scanner is told otherwise.
pub const DEFAULT_SETTLE_BYTES: usize = 4096;

/// What a scan reports to its consumer.
#[derive(Debug, PartialEq)]
pub enum ScannerStatus<T> {
    /// A remark on the progress of the scan.
    Info(String),
    /// The scan has failed and is over; the text says why.
    Error(String),
    /// The spectrum of one capture, one value for each bin, in ascending
    /// order of frequency.
    Data(Vec<T>),
    /// The scan has covered the band and is over.
    Complete,
}

/// A [`ScannerStatus`] as a mathematical value.
pub enum StatusView<T> {
    Info(Seq<char>),
    Error(Seq<char>),
    Data(Seq<T>),
    Complete,
}

impl<T> View for ScannerStatus<T> {
    type V = StatusView<T>;

    open spec fn view(&self) -> StatusView<T> {
        match self {
            ScannerStatus::Info(text) => StatusView::Info(text@),
            ScannerStatus::Error(text) => StatusView::Error(text@),
            ScannerStatus::Data(values) => StatusView::Data(values@),
            ScannerStatus::Complete => StatusView::Complete,
        }
    }
}

/// What the scanner asks its caller to do next.
#[derive(Debug, PartialEq)]
pub enum Action<T> {
    /// Open the receiver with this index.
    Open(i32),
    /// Set the sample rate and the bandwidth of the tuner, both in Hz.
    Configure { sample_rate: u32, bandwidth: u32 },
    /// Empty the buffer of the receiver.
    ResetBuffer,
    /// Tune to this frequency, in Hz.
    Tune(u32),
    /// Read a capture of this many bytes and throw it away, to let the tuner
    /// settle.
    Settle(usize),
    /// Read a capture of this many bytes.
    Capture(usize),
    /// Transform the samples that the scanner holds and report one value for
    /// each bin.
    Transform,
    /// Hand this to the consumer.
    Publish(ScannerStatus<T>),
    /// Nothing: the scan is over, or has not started.
    Halt,
}

/// An [`Action`] as a mathematical value.
pub enum ActionView<T> {
    Open(i32),
    Configure { sample_rate: u32, bandwidth: u32 },
    ResetBuffer,
    Tune(u32),
    Settle(usize),
    Capture(usize),
    Transform,
    Publish(StatusView<T>),
    Halt,
}

impl<T> View for Action<T> {
    type V = ActionView<T>;

    open spec fn view(&self) -> ActionView<T> {
        match self {
            Action::Open(index) => ActionView::Open(*index),
            Action::Configure { sample_rate, bandwidth } => ActionView::Configure {
                sample_rate: *sample_rate,
                bandwidth: *bandwidth,
            },
            Action::ResetBuffer => ActionView::ResetBuffer,
            Action::Tune(hz) => ActionView::Tune(*hz),
            Action::Settle(bytes) => ActionView::Settle(*bytes),
            Action::Capture(bytes) => ActionView::Capture(*bytes),
            Action::Transform => ActionView::Transform,
            Action::Publish(status) => ActionView::Publish(status@),
            Action::Halt => ActionView::Halt,
        }
    }
}

impl<T> ActionView<T> {
    /// Whether this action publishes a spectrum.
    pub open spec fn is_data(self) -> bool {
        self matches ActionView::Publish(StatusView::Data(_))
    }

    /// Whether this action publishes an error.
    pub open spec fn is_error(self) -> bool {
        self matches ActionView::Publish(StatusView::Error(_))
    }

    /// Whether this action publishes the end of the scan: an error, or its
    /// completion.
    pub open spec fn is_terminal(self) -> bool {
        self.is_error() || self == ActionView::<T>::Publish(StatusView::Complete)
    }
}

/// How many of `actions` publish a spectrum.
pub open spec fn data_count<T>(actions: Seq<ActionView<T>>) -> nat
    decreases actions.len(),
{
    if actions.len() == 0 {
        0
    } else {
        data_count(actions.drop_last()) + if actions.last().is_data() {
            1nat
        } else {
            0nat
        }
    }
}

/// How the action that the scanner asked for went.
#[derive(Debug, PartialEq)]
pub enum Event<T> {
    /// It is done, and there is nothing to report.
    Done,
    /// The capture was read: these are its bytes.
    Captured(Vec<u8>),
    /// The samples were transformed: this is the value of each bin, in the
    /// order in which the transform delivers them.
    Bins(Vec<T>),
    /// It failed; the text says how.
    Failed(String),
}

/// Where the scanner stands within the work on one capture, or before the
/// first.
#[derive(Clone, Copy, Debug, PartialEq, Eq, Structural)]
pub enum Stage {
    Opening,
    Configuring,
    Resetting,
    Tuning,
    Settling,
    Capturing,
    Transforming,
    Publishing,
}

/// The state of a scan.
#[derive(Clone, Copy, Debug, PartialEq, Eq, Structural)]
pub enum ScanState {
    /// Not started.
    Idle,
    /// Under way, and waiting for the event that ends this stage.
    Scanning(Stage),
    /// Over: the band is covered.
    Complete,
    /// Over: the scan was given up.
    Failed,
}

/// A [`Scanner`] as a mathematical value.
pub struct ScannerView {
    pub device_index: i32,
    pub params: ScanParameters,
    pub settle_bytes: usize,
    pub remove_dc: bool,
    pub state: ScanState,
    /// How many spectra the scan has published.
    pub published: u64,
    /// The samples of the latest capture.
    pub samples: Seq<i64>,
}

impl ScannerView {
    /// What holds of every scanner: while a scan is under way, and once it is
    /// complete, its parameters are well formed, its buffer has the length of
    /// a capture, and it has published no more spectra than the scan has
    /// captures; fewer, while it works on a capture. It settles only if it
    /// has a settling capture to read.
    pub open spec fn sound(self) -> bool {
        &&& self.samples.len() <= crate::sizing::MAX_CAPTURE_BYTES
        &&& match self.state {
            ScanState::Idle | ScanState::Failed => true,
            ScanState::Complete => self.in_scan(),
            ScanState::Scanning(stage) => {
                &&& self.in_scan()
                &&& stage == Stage::Tuning || stage == Stage::Settling || stage
                    == Stage::Capturing || stage == Stage::Transforming ==> self.published
                    < self.params.captures()
                &&& stage == Stage::Settling ==> self.settle_bytes > 0
            },
        }
    }

    /// What a sample of the buffer is to be divided by: a sample of value 1
    /// is held as this number. It is 127, times the number of complex
    /// samples where the mean is removed.
    pub open spec fn divisor(self) -> int {
        if self.remove_dc {
            127 * (self.samples.len() as int / 2)
        } else {
            127
        }
    }

    /// What holds of a scanner from the start of its scan to its completion.
    pub open spec fn in_scan(self) -> bool {
        &&& self.params.well_formed()
        &&& self.samples.len() == self.params.capture_bytes()
        &&& self.published <= self.params.captures()
    }

    /// Whether `event` answers the action that is pending, with a capture and
    /// a transform of the right length. Before the scan and after it, every
    /// event does.
    pub open spec fn expects<T>(self, event: Event<T>) -> bool {
        match self.state {
            ScanState::Scanning(stage) => match (stage, event) {
                (Stage::Capturing, Event::Captured(bytes)) => bytes@.len()
                    == self.params.capture_bytes(),
                (Stage::Transforming, Event::Bins(bins)) => bins@.len()
                    == self.params.capture_bytes() / 2,
                (Stage::Capturing, _) | (Stage::Transforming, _) => false,
                (_, Event::Done) => true,
                _ => false,
            },
            _ => true,
        }
    }

    /// The number of events that `n` captures take.
    pub open spec fn capture_events(self, n: int) -> int {
        if self.settle_bytes > 0 {
            5 * n
        } else {
            4 * n
        }
    }

    /// The number of events that the scan still takes before it is complete,
    /// if every one of them is expected.
    pub open spec fn to_go(self) -> int {
        let left = self.params.captures() - self.published;
        match self.state {
            ScanState::Scanning(stage) => match stage {
                Stage::Opening => self.capture_events(left) + 3,
                Stage::Configuring => self.capture_events(left) + 2,
                Stage::Resetting => self.capture_events(left) + 1,
                Stage::Tuning => self.capture_events(left),
                Stage::Settling => self.capture_events(left) - 1,
                Stage::Capturing => self.capture_events(left - 1) + 3,
                Stage::Transforming => self.capture_events(left - 1) + 2,
                Stage::Publishing => self.capture_events(left) + 1,
            },
            _ => 0,
        }
    }

    /// What becomes of the scanner when it takes `events` one after another,
    /// and the actions that it returns.
    pub open spec fn run<T>(self, events: Seq<Event<T>>) -> (ScannerView, Seq<ActionView<T>>)
        decreases events.len(),
    {
        if events.len() == 0 {
            (self, Seq::empty())
        } else {
            let (before, actions) = self.run(events.drop_last());
            let (after, action) = before.next(events.last());
            (after, actions.push(action))
        }
    }

    /// Whether every one of `events` is expected when it arrives.
    pub open spec fn cooperative<T>(self, events: Seq<Event<T>>) -> bool {
        forall|i: int|
            0 <= i < events.len() ==> (#[trigger] self.run(events.take(i))).0.expects(events[i])
    }

    /// The scan is given up for `reason`.
    pub open spec fn fail<T>(self, reason: Seq<char>) -> (ScannerView, ActionView<T>) {
        (
            ScannerView { state: ScanState::Failed, ..self },
            ActionView::Publish(StatusView::Error(reason)),
        )
    }

    /// The work on the next capture begins, or the scan is complete.
    pub open spec fn begin_step<T>(self) -> (ScannerView, ActionView<T>) {
        if self.published < self.params.captures() {
            (
                ScannerView { state: ScanState::Scanning(Stage::Tuning), ..self },
                ActionView::Tune(self.params.tuned(self.published as int) as u32),
            )
        } else {
            (
                ScannerView { state: ScanState::Complete, ..self },
                ActionView::Publish(StatusView::Complete),
            )
        }
    }

    /// The capture is asked for.
    pub open spec fn capture<T>(self) -> (ScannerView, ActionView<T>) {
        (
            ScannerView { state: ScanState::Scanning(Stage::Capturing), ..self },
            ActionView::Capture(self.params.capture_bytes() as usize),
        )
    }

    /// The samples that the scanner makes of a capture.
    pub open spec fn ingest(self, bytes: Seq<u8>) -> Seq<i64> {
        if self.remove_dc {
            crate::dsp::imported(bytes)
        } else {
            crate::dsp::centered_all(bytes)
        }
    }

    /// What [`Scanner::start`] does.
    pub open spec fn start<T>(self) -> (ScannerView, ActionView<T>) {
        if self.state != ScanState::Idle {
            (self, ActionView::Halt)
        } else {
            match self.params.check() {
                Err(error) => self.fail(error.text()),
                Ok(()) => (
                    ScannerView {
                        state: ScanState::Scanning(Stage::Opening),
                        published: 0,
                        samples: Seq::new(self.params.capture_bytes() as nat, |i: int| 0i64),
                        ..self
                    },
                    ActionView::Open(self.device_index),
                ),
            }
        }
    }

    /// What [`Scanner::advance`] does.
    pub open spec fn next<T>(self, event: Event<T>) -> (ScannerView, ActionView<T>) {
        match self.state {
            ScanState::Scanning(stage) => match (stage, event) {
                (_, Event::Failed(reason)) => self.fail(reason@),
                (Stage::Opening, Event::Done) => (
                    ScannerView { state: ScanState::Scanning(Stage::Configuring), ..self },
                    ActionView::Configure {
                        sample_rate: self.params.samplerate as u32,
                        bandwidth: self.params.bandwidth as u32,
                    },
                ),
                (Stage::Configuring, Event::Done) => (
                    ScannerView { state: ScanState::Scanning(Stage::Resetting), ..self },
                    ActionView::ResetBuffer,
                ),
                (Stage::Resetting, Event::Done) => self.begin_step(),
                (Stage::Tuning, Event::Done) => if self.settle_bytes > 0 {
                    (
                        ScannerView { state: ScanState::Scanning(Stage::Settling), ..self },
                        ActionView::Settle(self.settle_bytes),
                    )
                } else {
                    self.capture()
                },
                (Stage::Settling, Event::Done) => self.capture(),
                (Stage::Capturing, Event::Captured(bytes)) => if bytes@.len()
                    != self.params.capture_bytes() {
                    self.fail(ValidationError::SizeMismatch.text())
                } else {
                    (
                        ScannerView {
                            state: ScanState::Scanning(Stage::Transforming),
                            samples: self.ingest(bytes@),
                            ..self
                        },
                        ActionView::Transform,
                    )
                },
                (Stage::Transforming, Event::Bins(bins)) => if bins@.len()
                    != self.params.capture_bytes() / 2 {
                    self.fail(ValidationError::SizeMismatch.text())
                } else {
                    (
                        ScannerView {
                            state: ScanState::Scanning(Stage::Publishing),
                            published: (self.published + 1) as u64,
                            ..self
                        },
                        ActionView::Publish(StatusView::Data(crate::iterators::ascending(bins@))),
                    )
                },
                (Stage::Publishing, Event::Done) => self.begin_step(),
                _ => self.fail(ValidationError::UnexpectedEvent.text()),
            },
            _ => (self, ActionView::Halt),
        }
    }
}

/// One scan of a band: its parameters, its state, and the samples of its
/// latest capture.
pub struct Scanner {
    device_index: i32,
    params: ScanParameters,
    settle_bytes: usize,
    remove_dc: bool,
    state: ScanState,
    published: u64,
    samples: Vec<i64>,
}

impl View for Scanner {
    type V = ScannerView;

    closed spec fn view(&self) -> ScannerView {
        ScannerView {
            device_index: self.device_index,
            params: self.params,
            settle_bytes: self.settle_bytes,
            remove_dc: self.remove_dc,
            state: self.state,
            published: self.published,
            samples: self.samples@,
        }
    }
}

impl Scanner {
    #[verifier::type_invariant]
    spec fn sound(self) -> bool {
        self@.sound()
    }

    /// A scan of the band between `from` and `to`, both in Hz, with the
    /// receiver number `device_index`: not started, with the mean removed
    /// from every capture, and with a settling capture of
    /// [`DEFAULT_SETTLE_BYTES`].
    pub fn new(
        device_index: i32,
        samplerate: usize,
        from: u32,
        to: u32,
        dwell_ms: usize,
        bandwidth: usize,
    ) -> (scanner: Scanner)
        ensures
            scanner@ == (ScannerView {
                device_index,
                params: ScanParameters { from, to, bandwidth, dwell_ms, samplerate },
                settle_bytes: DEFAULT_SETTLE_BYTES,
                remove_dc: true,
                state: ScanState::Idle,
                published: 0,
                samples: Seq::empty(),
            }),
            scanner@.sound(),
    {
        Scanner {
            device_index,
            params: ScanParameters { from, to, bandwidth, dwell_ms, samplerate },
            settle_bytes: DEFAULT_SETTLE_BYTES,
            remove_dc: true,
            state: ScanState::Idle,
            published: 0,
            samples: Vec::new(),
        }
    }

    /// The same scanner with another length of the capture that is read and
    /// thrown away after every retuning; with 0, none is read. A scan that
    /// has started keeps the length that it started with.
    pub fn with_settle_bytes(self, bytes: usize) -> (scanner: Scanner)
        ensures
            scanner@ == if self@.state == ScanState::Idle {
                (ScannerView { settle_bytes: bytes, ..self@ })
            } else {
                self@
            },
            scanner@.sound(),
    {
        proof {
            use_type_invariant(&self);
        }
        let mut scanner = self;
        match scanner.state {
            ScanState::Idle => {
                scanner.settle_bytes = bytes;
            },
            _ => {},
        }
        scanner
    }

    /// The same scanner, which removes the mean from every capture if
    /// `remove` is set and leaves the captures as they are centred if not. A
    /// scan that has started keeps what it started with.
    pub fn with_dc_correction(self, remove: bool) -> (scanner: Scanner)
        ensures
            scanner@ == if self@.state == ScanState::Idle {
                (ScannerView { remove_dc: remove, ..self@ })
            } else {
                self@
            },
            scanner@.sound(),
    {
        proof {
            use_type_invariant(&self);
        }
        let mut scanner = self;
        match scanner.state {
            ScanState::Idle => {
                scanner.remove_dc = remove;
            },
            _ => {},
        }
        scanner
    }

    /// The state of the scan.
    pub fn state(&self) -> (state: ScanState)
        ensures
            state == self@.state,
    {
        self.state
    }

    /// The parameters of the scan.
    pub fn parameters(&self) -> (params: ScanParameters)
        ensures
            params == self@.params,
    {
        self.params
    }

    /// The number of spectra that the scan has published.
    pub fn published(&self) -> (count: u64)
        ensures
            count == self@.published,
    {
        self.published
    }

    /// The samples of the latest capture, real and imaginary parts in turn,
    /// each to be divided by [`Scanner::divisor`].
    pub fn samples(&self) -> (samples: &Vec<i64>)
        ensures
            samples@ == self@.samples,
    {
        &self.samples
    }

    /// What a sample of the buffer is to be divided by.
    pub fn divisor(&self) -> (divisor: u64)
        ensures
            divisor == self@.divisor(),
    {
        proof {
            use_type_invariant(self);
        }
        if self.remove_dc {
            127 * (self.samples.len() as u64 / 2)
        } else {
            127
        }
    }

    fn fail<T>(&mut self, error: ValidationError) -> (action: Action<T>)
        ensures
            (final(self)@, action@) == old(self)@.fail::<T>(error.text()),
    {
        proof {
            use_type_invariant(&*self);
        }
        self.state = ScanState::Failed;
        Action::Publish(ScannerStatus::Error(error.message()))
    }

    fn begin_step<T>(&mut self) -> (action: Action<T>)
        requires
            old(self)@.in_scan(),
            old(self).state is Scanning,
        ensures
            (final(self)@, action@) == old(self)@.begin_step::<T>(),
    {
        if self.published < self.params.capture_count() {
            self.state = ScanState::Scanning(Stage::Tuning);
            Action::Tune(self.params.frequency(self.published))
        } else {
            self.state = ScanState::Complete;
            Action::Publish(ScannerStatus::Complete)
        }
    }

    fn capture<T>(&mut self) -> (action: Action<T>)
        requires
            old(self)@.in_scan(),
            old(self).state is Scanning,
            old(self).published < old(self).params.captures(),
        ensures
            (final(self)@, action@) == old(self)@.capture::<T>(),
    {
        self.state = ScanState::Scanning(Stage::Capturing);
        Action::Capture(self.samples.len())
    }

    /// Starts the scan, if it has not been started: checks the parameters and
    /// asks for the receiver to be opened. With parameters that are not well
    /// formed the scan fails at once.
    pub fn start<T>(&mut self) -> (action: Action<T>)
        ensures
            (final(self)@, action@) == old(self)@.start::<T>(),
            final(self)@.sound(),
    {
        proof {
            use_type_invariant(&*self);
        }
        match self.state {
            ScanState::Idle => {},
            _ => {
                return Action::Halt;
            },
        }
        match self.params.validate() {
            Err(error) => self.fail(error),
            Ok(()) => {
                let len: usize = match capture_len(self.params.dwell_ms, self.params.samplerate) {
                    Some(len) => len,
                    None => 0,
                };
                let mut samples: Vec<i64> = Vec::with_capacity(len);
                let mut i: usize = 0;
                while i < len
                    invariant
                        i <= len,
                        samples@ == Seq::new(i as nat, |k: int| 0i64),
                    decreases len - i,
                {
                    samples.push(0);
                    i += 1;
                }
                self.samples = samples;
                self.published = 0;
                self.state = ScanState::Scanning(Stage::Opening);
                Action::Open(self.device_index)
            },
        }
    }

    /// Takes the event that ends the pending action and returns the next
    /// action.
    ///
    /// Any failure ends the scan with one error report. So does an event
    /// that does not answer the pending action, a capture of another length
    /// than was asked for, and a transform with another number of bins than
    /// the capture has samples. Once the scan is over, and before it has
    /// started, there is nothing to do.
    pub fn advance<T: Copy>(&mut self, event: Event<T>) -> (action: Action<T>)
        ensures
            (final(self)@, action@) == old(self)@.next(event),
            old(self)@.sound(),
            final(self)@.sound(),
    {
        proof {
            use_type_invariant(&*self);
        }
        let stage: Stage = match self.state {
            ScanState::Scanning(stage) => stage,
            _ => {
                return Action::Halt;
            },
        };
        match (stage, event) {
            (_, Event::Failed(reason)) => {
                self.state = ScanState::Failed;
                Action::Publish(ScannerStatus::Error(reason))
            },
            (Stage::Opening, Event::Done) => {
                self.state = ScanState::Scanning(Stage::Configuring);
                Action::Configure {
                    sample_rate: self.params.samplerate as u32,
                    bandwidth: self.params.bandwidth as u32,
                }
            },
            (Stage::Configuring, Event::Done) => {
                self.state = ScanState::Scanning(Stage::Resetting);
                Action::ResetBuffer
            },
            (Stage::Resetting, Event::Done) => self.begin_step(),
            (Stage::Tuning, Event::Done) => {
                if self.settle_bytes > 0 {
                    self.state = ScanState::Scanning(Stage::Settling);
                    Action::Settle(self.settle_bytes)
                } else {
                    self.capture()
                }
            },
            (Stage::Settling, Event::Done) => self.capture(),
            (Stage::Capturing, Event::Captured(bytes)) => {
                if bytes.len() != self.samples.len() {
                    self.fail(ValidationError::SizeMismatch)
                } else {
                    assert(bytes@.take(bytes@.len() as int) == bytes@);
                    // While the buffer is out of the scanner, the scan counts as given up.
                    let mut samples: Vec<i64> = Vec::new();
                    self.state = ScanState::Failed;
                    core::mem::swap(&mut self.samples, &mut samples);
                    let outcome = if self.remove_dc {
                        rtl_import(&bytes, bytes.len(), samples.as_mut_slice())
                    } else {
                        normalize(&bytes, samples.as_mut_slice())
                    };
                    assert(outcome is Ok);
                    core::mem::swap(&mut self.samples, &mut samples);
                    self.state = ScanState::Scanning(Stage::Transforming);
                    Action::Transform
                }
            },
            (Stage::Transforming, Event::Bins(bins)) => {
                if bins.len() != self.samples.len() / 2 {
                    self.fail(ValidationError::SizeMismatch)
                } else {
                    self.state = ScanState::Scanning(Stage::Publishing);
                    self.published = self.published + 1;
                    Action::Publish(ScannerStatus::Data(dft_order(bins.as_slice())))
                }
            },
            (Stage::Publishing, Event::Done) => self.begin_step(),
            _ => self.fail(ValidationError::UnexpectedEvent),
        }
    }
}

} // verus!
