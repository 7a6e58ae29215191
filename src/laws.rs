use vstd::prelude::*;
use std::sync::mpsc::Sender;
use crate::frame::Frame;
use crate::config::exposure_in_range;
use crate::model::{
    Event, StreamModel, only_frames, only_frames_and_swaps, produced, run, sent_to, step,
    frames,
};

verus! {

/// Running `a` and then `b` is running `a + b`.
pub proof fn lemma_run_concat(m: StreamModel, a: Seq<Event>, b: Seq<Event>)
    ensures
        run(m, a + b) == run(run(m, a), b),
    decreases b.len(),
{
    if b.len() == 0 {
        assert(a + b =~= a);
    } else {
        lemma_run_concat(m, a, b.drop_last());
        assert((a + b).drop_last() =~= a + b.drop_last());
        assert((a + b).last() == b.last());
    }
}

/// A stopped stream stays exactly as it is, whatever happens to it.
pub proof fn lemma_stopped_is_final(m: StreamModel, evs: Seq<Event>)
    requires
        !m.running,
    ensures
        run(m, evs) == m,
    decreases evs.len(),
{
    if evs.len() > 0 {
        lemma_stopped_is_final(m, evs.drop_last());
    }
}

/// Order is kept: while the consumer is never swapped, it is sent every frame
/// produced, once each, in the order of production, and no other consumer is
/// sent anything.
pub proof fn law_frames_in_order(m: StreamModel, evs: Seq<Event>)
    requires
        m.running,
        only_frames(evs),
    ensures
        run(m, evs).running,
        run(m, evs).consumer == m.consumer,
        run(m, evs).endpoint == m.endpoint,
        run(m, evs).log.len() == m.log.len() + evs.len(),
        run(m, evs).log.subrange(0, m.log.len() as int) == m.log,
        forall|i: int|
            m.log.len() <= i < run(m, evs).log.len() ==> (#[trigger] run(m, evs).log[i]).consumer
                == m.consumer && run(m, evs).log[i].endpoint == m.endpoint,
        sent_to(run(m, evs).log, m.consumer) == sent_to(m.log, m.consumer) + produced(evs),
        forall|c: nat| c != m.consumer ==> sent_to(run(m, evs).log, c) == sent_to(m.log, c),
    decreases evs.len(),
{
    if evs.len() == 0 {
        assert(sent_to(m.log, m.consumer) + produced(evs) =~= sent_to(m.log, m.consumer));
    } else {
        let init = evs.drop_last();
        assert forall|i: int| 0 <= i < init.len() implies (#[trigger] init[i] matches Event::Produce(
            _,
            _,
        )) by {
            assert(init[i] == evs[i]);
        }
        law_frames_in_order(m, init);
        let prev = run(m, init);
        assert(evs.last() == evs[evs.len() - 1]);
        if let Event::Produce(t, ok) = evs.last() {
            let now = run(m, evs);
            assert(now.log.drop_last() =~= prev.log);
            assert(now.log.subrange(0, m.log.len() as int) =~= prev.log.subrange(
                0,
                m.log.len() as int,
            ));
            assert forall|i: int| m.log.len() <= i < now.log.len() implies (#[trigger] now.log[
                i]).consumer == m.consumer && now.log[i].endpoint == m.endpoint by {
                if i < prev.log.len() {
                    assert(now.log[i] == prev.log[i]);
                }
            }
            assert(sent_to(now.log, m.consumer) =~= sent_to(m.log, m.consumer) + produced(evs));
            assert forall|c: nat| c != m.consumer implies sent_to(now.log, c) == sent_to(
                m.log,
                c,
            ) by {
                assert(sent_to(now.log, c) == sent_to(prev.log, c));
            }
        }
    }
}

/// Exactly once across swaps: while consumers are swapped at any points
/// between frames, every frame produced is sent to one consumer, once, in the
/// order of production.
pub proof fn law_each_frame_sent_once(m: StreamModel, evs: Seq<Event>)
    requires
        m.running,
        only_frames_and_swaps(evs),
    ensures
        run(m, evs).running,
        frames(run(m, evs).log) == frames(m.log) + produced(evs),
    decreases evs.len(),
{
    if evs.len() == 0 {
        assert(frames(m.log) + produced(evs) =~= frames(m.log));
    } else {
        let init = evs.drop_last();
        assert forall|i: int|
            0 <= i < init.len() implies (#[trigger] init[i] matches Event::Produce(_, _))
            || init[i] is Swap by {
            assert(init[i] == evs[i]);
        }
        law_each_frame_sent_once(m, init);
        assert(evs.last() == evs[evs.len() - 1]);
        let prev = run(m, init);
        let now = run(m, evs);
        if let Event::Produce(t, ok) = evs.last() {
            assert(now.log == prev.log.push(now.log.last()));
            assert(frames(now.log) =~= frames(prev.log).push(t));
            assert(frames(now.log) =~= frames(m.log) + produced(evs));
        } else {
            assert(now.log == prev.log);
            assert(produced(evs) == produced(init));
        }
    }
}

/// The cut at a swap: the frames produced before `change_consumer` go to the
/// old channel alone, those produced after it to the new channel alone, and
/// together they are every frame produced, once each.
pub proof fn law_swap_cut(
    m: StreamModel,
    before: Seq<Event>,
    endpoint: Sender<Frame>,
    after: Seq<Event>,
)
    requires
        m.running,
        only_frames(before),
        only_frames(after),
    ensures
        ({
            let r = run(m, before.push(Event::Swap(endpoint)) + after);
            let cut = m.log.len() + before.len();
            &&& r.running
            &&& r.consumer == m.consumer + 1
            &&& r.endpoint == endpoint
            &&& r.log.len() == cut + after.len()
            &&& r.log.subrange(0, m.log.len() as int) == m.log
            &&& forall|i: int|
                m.log.len() <= i < cut ==> (#[trigger] r.log[i]).consumer == m.consumer
                    && r.log[i].endpoint == m.endpoint
            &&& forall|i: int|
                cut <= i < r.log.len() ==> (#[trigger] r.log[i]).consumer == m.consumer + 1
                    && r.log[i].endpoint == endpoint
            &&& sent_to(r.log, m.consumer) == sent_to(m.log, m.consumer) + produced(before)
            &&& sent_to(r.log, m.consumer + 1) == sent_to(m.log, m.consumer + 1) + produced(
                after,
            )
        }),
{
    let swap = before.push(Event::Swap(endpoint));
    law_frames_in_order(m, before);
    let pre = run(m, before);
    let mid = step(pre, Event::Swap(endpoint));
    assert(swap.drop_last() =~= before);
    assert(run(m, swap) == mid);
    law_frames_in_order(mid, after);
    lemma_run_concat(m, swap, after);
    let r = run(m, swap + after);
    assert forall|i: int| 0 <= i < mid.log.len() implies r.log[i] == mid.log[i] by {
        assert(r.log.subrange(0, mid.log.len() as int)[i] == r.log[i]);
    }
    assert forall|i: int| m.log.len() <= i < m.log.len() + before.len() implies (
    #[trigger] r.log[i]).consumer == m.consumer && r.log[i].endpoint == m.endpoint by {
        assert(r.log[i] == pre.log[i]);
    }
    assert(r.log.subrange(0, m.log.len() as int) =~= m.log) by {
        assert forall|i: int| 0 <= i < m.log.len() implies r.log[i] == m.log[i] by {
            assert(r.log[i] == pre.log[i]);
            assert(pre.log.subrange(0, m.log.len() as int)[i] == pre.log[i]);
        }
    }
}

/// Stop ends production: once the stream is told to stop, nothing that
/// happens afterwards sends a frame or changes anything else.
pub proof fn law_stop_ends_production(m: StreamModel, before: Seq<Event>, after: Seq<Event>)
    ensures
        !run(m, before.push(Event::Stop)).running,
        run(m, before.push(Event::Stop) + after) == run(m, before.push(Event::Stop)),
{
    let stopped = before.push(Event::Stop);
    assert(stopped.drop_last() =~= before);
    lemma_run_concat(m, stopped, after);
    lemma_stopped_is_final(run(m, stopped), after);
}

/// The backend is released once: a stream that has not released it while
/// running, and has released it once when stopped, keeps that so whatever
/// happens; and after a stop it is stopped, with one release.
pub proof fn law_release_once(m: StreamModel, evs: Seq<Event>)
    requires
        m.releases == (if m.running { 0nat } else { 1nat }),
    ensures
        run(m, evs).releases == (if run(m, evs).running { 0nat } else { 1nat }),
        evs.contains(Event::Stop) ==> !run(m, evs).running && run(m, evs).releases == 1,
    decreases evs.len(),
{
    if evs.len() > 0 {
        let init = evs.drop_last();
        law_release_once(m, init);
        if evs.contains(Event::Stop) {
            let i = choose|i: int| 0 <= i < evs.len() && evs[i] == Event::Stop;
            if i < init.len() {
                assert(init[i] == Event::Stop);
                assert(init.contains(Event::Stop));
            } else {
                assert(evs.last() == Event::Stop);
            }
        }
    }
}

/// Setting the exposure is idempotent: a second request for the same value
/// changes nothing, and a value within the limits is the one in effect.
pub proof fn law_exposure_idempotent(m: StreamModel, exposure_ns: u64)
    ensures
        step(step(m, Event::Exposure(exposure_ns)), Event::Exposure(exposure_ns)) == step(
            m,
            Event::Exposure(exposure_ns),
        ),
        m.running && exposure_in_range(m.limits, exposure_ns) ==> step(
            m,
            Event::Exposure(exposure_ns),
        ).exposure == exposure_ns,
{
}

} // verus!
