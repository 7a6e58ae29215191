use vstd::prelude::*;
use std::sync::mpsc::Sender;
use crate::config::{ConfigurationError, Settings, exposure_in_range, resolution_in_range};
use crate::frame::Frame;
use crate::model::{Event, StreamModel, started, step};

verus! {

/// The sending half of a channel of the standard library.
#[verifier::external_type_specification]
#[verifier::external_body]
#[verifier::reject_recursive_types(T)]
pub struct ExSender<T>(std::sync::mpsc::Sender<T>);

/// Relies on std's `Sender::send`: the frame is moved into the channel, and the
/// call fails only when the receiving half is gone, handing the frame back in
/// its `SendError`. Whether the receiver is gone is not known here, so which
/// of the two comes back is not promised; a frame that comes back is the one
/// given.
#[verifier::external_body]
fn send_frame(sender: &Sender<Frame>, frame: Frame) -> (refused: Option<Frame>)
    ensures
        refused is Some ==> refused == Some(frame),
{
    match sender.send(frame) {
        Ok(()) => None,
        Err(e) => Some(e.0),
    }
}

/// Why an operation on a stream did not do what it asked for.
#[derive(Debug, Clone, Copy, PartialEq, Eq, Structural)]
pub enum StreamError {
    /// A requested setting lies outside the source's limits.
    Configuration(ConfigurationError),
    /// The bound consumer is gone; the frame was dropped and the stream runs on.
    Disconnected,
    /// The backend failed and the stream ended.
    Backend,
    /// The stream has already ended.
    AlreadyStopped,
}

/// A frame that was not sent, handed back with the reason.
pub struct Undelivered {
    pub error: StreamError,
    pub frame: Frame,
}

/// A message from the controlling side to the acquisition loop, observed at
/// the next frame boundary.
pub enum Command {
    /// Deliver frames produced from now on to this channel.
    ChangeConsumer(Sender<Frame>),
    /// Use this exposure time, in nanoseconds, from the next frame on.
    SetExposure(u64),
    /// Use this resolution `[width, height]` from the next frame on.
    SetResolution([usize; 2]),
    /// End the stream.
    Stop,
}

impl Command {
    /// The event this command is to the stream.
    pub open spec fn event(&self) -> Event {
        match self {
            Command::ChangeConsumer(s) => Event::Swap(*s),
            Command::SetExposure(x) => Event::Exposure(*x),
            Command::SetResolution(r) => Event::Resolution(*r),
            Command::Stop => Event::Stop,
        }
    }
}

/// What the acquisition loop does after a command.
#[derive(Debug, Clone, Copy, PartialEq, Eq, Structural)]
pub enum Directive {
    /// Go on producing frames.
    Continue,
    /// Release the backend and end the loop: no frame is sent after this.
    Release,
}

/// What the acquisition loop is told after an event: a stopped stream
/// refuses everything, and reports a backend failure to `stop`.
pub open spec fn outcome(m: StreamModel, e: Event) -> Result<Directive, StreamError> {
    if !m.running {
        if e is Stop && m.failed {
            Err(StreamError::Backend)
        } else {
            Err(StreamError::AlreadyStopped)
        }
    } else {
        match e {
            Event::Produce(_, accepted) => if accepted {
                Ok(Directive::Continue)
            } else {
                Err(StreamError::Disconnected)
            },
            Event::Swap(_) => Ok(Directive::Continue),
            Event::Stop => Ok(Directive::Release),
            Event::Fail => Ok(Directive::Release),
            Event::Exposure(x) => if exposure_in_range(m.limits, x) {
                Ok(Directive::Continue)
            } else {
                Err(StreamError::Configuration(ConfigurationError::ExposureOutOfRange))
            },
            Event::Resolution(x) => if resolution_in_range(m.limits, x) {
                Ok(Directive::Continue)
            } else {
                Err(StreamError::Configuration(ConfigurationError::ResolutionOutOfRange))
            },
        }
    }
}

/// The state that the acquisition loop of a running stream owns: the channel
/// currently bound, the settings in effect and the lifecycle state. Only the
/// loop touches it, so a consumer swap and a send never overlap.
pub struct Acquisition {
    consumer: Sender<Frame>,
    running: bool,
    failed: bool,
    settings: Settings,
    consumer_number: Ghost<nat>,
    log: Ghost<Seq<crate::model::Dispatch>>,
    releases: Ghost<nat>,
}

impl View for Acquisition {
    type V = StreamModel;

    closed spec fn view(&self) -> StreamModel {
        StreamModel {
            running: self.running,
            failed: self.failed,
            consumer: self.consumer_number@,
            endpoint: self.consumer,
            limits: self.settings.limits(),
            exposure: self.settings.exposure(),
            resolution: self.settings.resolution(),
            log: self.log@,
            releases: self.releases@,
        }
    }
}

impl Acquisition {
    /// Start a stream that delivers to `sender` with the given settings.
    pub fn start(sender: Sender<Frame>, settings: Settings) -> (r: Acquisition)
        ensures
            r@ == started(sender, settings.limits(), settings.exposure(), settings.resolution()),
    {
        Acquisition {
            consumer: sender,
            running: true,
            failed: false,
            settings,
            consumer_number: Ghost(0),
            log: Ghost(Seq::empty()),
            releases: Ghost(0),
        }
    }

    /// Whether the stream is still running.
    pub fn is_running(&self) -> (r: bool)
        ensures
            r == self@.running,
    {
        self.running
    }

    /// The settings in effect for the next frame.
    pub fn settings(&self) -> (r: Settings)
        ensures
            r.limits() == self@.limits,
            r.exposure() == self@.exposure,
            r.resolution() == self@.resolution,
    {
        self.settings
    }

    /// Send a frame just produced to the consumer currently bound. A stopped
    /// stream sends nothing and hands the frame back. A consumer that is gone
    /// loses that frame alone, which is handed back too: the stream runs on.
    pub fn produce(&mut self, frame: Frame) -> (r: Result<(), Undelivered>)
        ensures
            !old(self)@.running ==> r == Err::<(), _>(
                Undelivered { error: StreamError::AlreadyStopped, frame },
            ),
            old(self)@.running ==> (r is Ok || r == Err::<(), _>(
                Undelivered { error: StreamError::Disconnected, frame },
            )),
            final(self)@ == step(old(self)@, Event::Produce(frame, r is Ok)),
    {
        if !self.running {
            return Err(Undelivered { error: StreamError::AlreadyStopped, frame });
        }
        let ghost entry = crate::model::Dispatch {
            frame,
            consumer: self.consumer_number@,
            endpoint: self.consumer,
            resolution: self.settings.resolution(),
            accepted: true,
        };
        match send_frame(&self.consumer, frame) {
            None => {
                self.log = Ghost(self.log@.push(entry));
                Ok(())
            },
            Some(back) => {
                self.log = Ghost(self.log@.push(crate::model::Dispatch { accepted: false, ..entry }));
                Err(Undelivered { error: StreamError::Disconnected, frame: back })
            },
        }
    }

    /// Deliver the frames produced from now on to `sender`. Every frame sent
    /// before this call went to the previous consumer, and none will again.
    pub fn change_consumer(&mut self, sender: Sender<Frame>) -> (r: Result<(), StreamError>)
        ensures
            old(self)@.running <==> r is Ok,
            r is Err ==> r == Err::<(), _>(StreamError::AlreadyStopped),
            r is Ok ==> final(self)@.endpoint == sender,
            r is Err ==> final(self)@.endpoint == old(self)@.endpoint,
            final(self)@ == step(old(self)@, Event::Swap(sender)),
    {
        if !self.running {
            return Err(StreamError::AlreadyStopped);
        }
        self.consumer = sender;
        self.consumer_number = Ghost(self.consumer_number@ + 1);
        Ok(())
    }

    /// Use this exposure time, in nanoseconds, from the next frame on.
    pub fn set_exposure(&mut self, exposure_ns: u64) -> (r: Result<(), StreamError>)
        ensures
            !old(self)@.running ==> r == Err::<(), _>(StreamError::AlreadyStopped),
            old(self)@.running ==> (exposure_in_range(old(self)@.limits, exposure_ns) <==> r is Ok),
            old(self)@.running && r is Err ==> r == Err::<(), _>(
                StreamError::Configuration(ConfigurationError::ExposureOutOfRange),
            ),
            final(self)@ == step(old(self)@, Event::Exposure(exposure_ns)),
    {
        if !self.running {
            return Err(StreamError::AlreadyStopped);
        }
        match self.settings.set_exposure(exposure_ns) {
            Ok(()) => Ok(()),
            Err(e) => Err(StreamError::Configuration(e)),
        }
    }

    /// Use this resolution `[width, height]` from the next frame on; frames
    /// already produced keep theirs.
    pub fn set_resolution(&mut self, resolution: [usize; 2]) -> (r: Result<(), StreamError>)
        ensures
            !old(self)@.running ==> r == Err::<(), _>(StreamError::AlreadyStopped),
            old(self)@.running ==> (resolution_in_range(old(self)@.limits, resolution) <==> r is Ok),
            old(self)@.running && r is Err ==> r == Err::<(), _>(
                StreamError::Configuration(ConfigurationError::ResolutionOutOfRange),
            ),
            final(self)@ == step(old(self)@, Event::Resolution(resolution)),
    {
        if !self.running {
            return Err(StreamError::AlreadyStopped);
        }
        match self.settings.set_resolution(resolution) {
            Ok(()) => Ok(()),
            Err(e) => Err(StreamError::Configuration(e)),
        }
    }

    /// End the stream: the backend is to be released, once. On a stream that
    /// has ended already this reports why it ended.
    pub fn stop(&mut self) -> (r: Result<Directive, StreamError>)
        ensures
            old(self)@.running ==> r == Ok::<_, StreamError>(Directive::Release),
            !old(self)@.running && old(self)@.failed ==> r == Err::<Directive, _>(
                StreamError::Backend,
            ),
            !old(self)@.running && !old(self)@.failed ==> r == Err::<Directive, _>(
                StreamError::AlreadyStopped,
            ),
            final(self)@ == step(old(self)@, Event::Stop),
    {
        if !self.running {
            return Err(
                if self.failed {
                    StreamError::Backend
                } else {
                    StreamError::AlreadyStopped
                },
            );
        }
        self.running = false;
        self.releases = Ghost(self.releases@ + 1);
        Ok(Directive::Release)
    }

    /// The backend failed: the stream ends, the backend is to be released, and
    /// a later `stop` reports the failure.
    pub fn backend_failed(&mut self) -> (r: Result<Directive, StreamError>)
        ensures
            old(self)@.running ==> r == Ok::<_, StreamError>(Directive::Release),
            !old(self)@.running ==> r == Err::<Directive, _>(StreamError::AlreadyStopped),
            final(self)@ == step(old(self)@, Event::Fail),
    {
        if !self.running {
            return Err(StreamError::AlreadyStopped);
        }
        self.running = false;
        self.failed = true;
        self.releases = Ghost(self.releases@ + 1);
        Ok(Directive::Release)
    }

    /// Carry out a command from the controlling side.
    pub fn apply(&mut self, command: Command) -> (r: Result<Directive, StreamError>)
        ensures
            final(self)@ == step(old(self)@, command.event()),
            r == outcome(old(self)@, command.event()),
            r is Ok ==> (command matches Command::ChangeConsumer(s) ==> final(self)@.endpoint == s),
            !(command is ChangeConsumer && r is Ok) ==> final(self)@.endpoint == old(self)@.endpoint,
    {
        match command {
            Command::ChangeConsumer(sender) => match self.change_consumer(sender) {
                Ok(()) => Ok(Directive::Continue),
                Err(e) => Err(e),
            },
            Command::SetExposure(x) => match self.set_exposure(x) {
                Ok(()) => Ok(Directive::Continue),
                Err(e) => Err(e),
            },
            Command::SetResolution(x) => match self.set_resolution(x) {
                Ok(()) => Ok(Directive::Continue),
                Err(e) => Err(e),
            },
            Command::Stop => self.stop(),
        }
    }
}

/// A running stream of frames.
pub trait FrameStream {
    /// Stop streaming.
    fn stop(self);

    /// Change the destination of the frame stream. New frames will be placed
    /// into the provided `Sender`.
    fn change_consumer(&mut self, sender: Sender<Frame>);
}

} // verus!
