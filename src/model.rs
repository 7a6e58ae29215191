use vstd::prelude::*;
use std::sync::mpsc::Sender;
use crate::frame::Frame;
use crate::config::{Limits, exposure_in_range, resolution_in_range};

verus! {

/// One frame handed to a consumer: the frame itself, which consumer took it
/// (consumers are numbered in the order they were bound, from 0) and the
/// channel it was sent on, the resolution in effect when it was produced, and
/// whether the channel accepted it.
pub struct Dispatch {
    pub frame: Frame,
    pub consumer: nat,
    pub endpoint: Sender<Frame>,
    pub resolution: [usize; 2],
    pub accepted: bool,
}

/// The abstract state of a stream.
pub struct StreamModel {
    /// `Running` when true, `Stopped` when false.
    pub running: bool,
    /// Whether the stream ended because the backend failed.
    pub failed: bool,
    /// The number of the consumer currently bound.
    pub consumer: nat,
    /// The channel currently bound.
    pub endpoint: Sender<Frame>,
    pub limits: Limits,
    pub exposure: u64,
    pub resolution: [usize; 2],
    /// Every frame produced so far, in order of production.
    pub log: Seq<Dispatch>,
    /// How many times the backend was told to release its resources.
    pub releases: nat,
}

/// What happens to a stream, in the order the acquisition loop observes it.
pub enum Event {
    /// This frame was produced; the channel accepted it or not.
    Produce(Frame, bool),
    /// This channel was bound as the new consumer.
    Swap(Sender<Frame>),
    /// The stream was asked to stop.
    Stop,
    /// The backend reported a failure.
    Fail,
    /// A new exposure time was requested.
    Exposure(u64),
    /// A new resolution was requested.
    Resolution([usize; 2]),
}

/// A stream that has just started, bound to `endpoint`, with these settings.
pub open spec fn started(endpoint: Sender<Frame>, limits: Limits, exposure: u64, resolution: [usize; 2]) -> StreamModel {
    StreamModel {
        running: true,
        failed: false,
        consumer: 0,
        endpoint,
        limits,
        exposure,
        resolution,
        log: Seq::empty(),
        releases: 0,
    }
}

/// The effect of one event. A stopped stream ignores every event.
pub open spec fn step(m: StreamModel, e: Event) -> StreamModel {
    if !m.running {
        m
    } else {
        match e {
            Event::Produce(frame, accepted) => StreamModel {
                log: m.log.push(
                    Dispatch {
                        frame,
                        consumer: m.consumer,
                        endpoint: m.endpoint,
                        resolution: m.resolution,
                        accepted,
                    },
                ),
                ..m
            },
            Event::Swap(endpoint) => StreamModel { consumer: m.consumer + 1, endpoint, ..m },
            Event::Stop => StreamModel { running: false, releases: m.releases + 1, ..m },
            Event::Fail => StreamModel {
                running: false,
                failed: true,
                releases: m.releases + 1,
                ..m
            },
            Event::Exposure(x) => if exposure_in_range(m.limits, x) {
                StreamModel { exposure: x, ..m }
            } else {
                m
            },
            Event::Resolution(r) => if resolution_in_range(m.limits, r) {
                StreamModel { resolution: r, ..m }
            } else {
                m
            },
        }
    }
}

/// The effect of a sequence of events, first to last.
pub open spec fn run(m: StreamModel, evs: Seq<Event>) -> StreamModel
    decreases evs.len(),
{
    if evs.len() == 0 {
        m
    } else {
        step(run(m, evs.drop_last()), evs.last())
    }
}

/// The frames in `log` that went to consumer `c`, in order.
pub open spec fn sent_to(log: Seq<Dispatch>, c: nat) -> Seq<Frame>
    decreases log.len(),
{
    if log.len() == 0 {
        Seq::empty()
    } else if log.last().consumer == c {
        sent_to(log.drop_last(), c).push(log.last().frame)
    } else {
        sent_to(log.drop_last(), c)
    }
}

/// All frames in `log`, in order.
pub open spec fn frames(log: Seq<Dispatch>) -> Seq<Frame> {
    log.map_values(|d: Dispatch| d.frame)
}

/// The frames produced in `evs`, in order.
pub open spec fn produced(evs: Seq<Event>) -> Seq<Frame>
    decreases evs.len(),
{
    if evs.len() == 0 {
        Seq::empty()
    } else if let Event::Produce(t, _) = evs.last() {
        produced(evs.drop_last()).push(t)
    } else {
        produced(evs.drop_last())
    }
}

/// Every event of `evs` is a produced frame.
pub open spec fn only_frames(evs: Seq<Event>) -> bool {
    forall|i: int| 0 <= i < evs.len() ==> (#[trigger] evs[i] matches Event::Produce(_, _))
}

/// Every event of `evs` produces a frame or binds a new consumer.
pub open spec fn only_frames_and_swaps(evs: Seq<Event>) -> bool {
    forall|i: int|
        0 <= i < evs.len() ==> (#[trigger] evs[i] matches Event::Produce(_, _)) || evs[i]
            is Swap
}

} // verus!
