//! A whole exchange with the transport: the events it delivers, in order, and
//! what it leaves to install.

use vstd::prelude::*;

use crate::download::{
    content_length_of,
    DownloadEvent,
    DownloadView,
    Phase,
    Signal,
    SignalView,
};
use crate::error::{NetworkFailureView, UpdateError, UpdateErrorView};
use crate::status::success_status;
use crate::updater::Update;

verus! {

/// What a sequence of signals came to.
pub struct Trace {
    /// The download after the last signal.
    pub end: DownloadView,
    /// The events delivered, in the order of their signals.
    pub events: Seq<DownloadEvent>,
    /// The first error, if a signal gave one.
    pub error: Option<UpdateErrorView>,
}

impl Trace {
    /// What the exchange leaves to install: the first error where there was
    /// one, else the artifact of the download.
    pub open spec fn outcome(self) -> Result<Seq<u8>, UpdateErrorView> {
        match self.error {
            Some(e) => Err(e),
            None => self.end.artifact(),
        }
    }
}

impl DownloadView {
    /// Takes the signals one after the other.
    pub open spec fn run(self, signals: Seq<SignalView>) -> Trace
        decreases signals.len(),
    {
        if signals.len() == 0 {
            Trace { end: self, events: Seq::empty(), error: None }
        } else {
            let before = self.run(signals.drop_last());
            let (end, outcome) = before.end.step(signals.last());
            match outcome {
                Ok(event) => Trace { end, events: before.events.push(event), error: before.error },
                Err(e) => Trace {
                    end,
                    events: before.events,
                    error: if before.error is Some {
                        before.error
                    } else {
                        Some(e)
                    },
                },
            }
        }
    }
}

/// What a list of signals holds.
pub open spec fn signal_views(signals: Seq<Signal>) -> Seq<SignalView> {
    Seq::new(signals.len(), |i: int| signals[i]@)
}

/// The signals of a body that arrives in these chunks.
pub open spec fn chunk_signals(chunks: Seq<Seq<u8>>) -> Seq<SignalView> {
    Seq::new(chunks.len(), |i: int| SignalView::Chunk(chunks[i]))
}

/// The progress events of a body that arrives in these chunks.
pub open spec fn progress_events(chunks: Seq<Seq<u8>>) -> Seq<DownloadEvent> {
    Seq::new(chunks.len(), |i: int| DownloadEvent::Progress { chunk_length: chunks[i].len() as usize })
}

/// The body that arrives in these chunks.
pub open spec fn body_of(chunks: Seq<Seq<u8>>) -> Seq<u8>
    decreases chunks.len(),
{
    if chunks.len() == 0 {
        Seq::empty()
    } else {
        body_of(chunks.drop_last()) + chunks.last()
    }
}

/// The sum of the chunk lengths that the progress events among `events` carry.
pub open spec fn progress_total(events: Seq<DownloadEvent>) -> nat
    decreases events.len(),
{
    if events.len() == 0 {
        0
    } else {
        progress_total(events.drop_last()) + match events.last() {
            DownloadEvent::Progress { chunk_length } => chunk_length as nat,
            _ => 0,
        }
    }
}

/// The event that announces the body of an accepted response.
pub open spec fn started(content_length: Option<Seq<u8>>) -> DownloadEvent {
    DownloadEvent::Started {
        content_length: match content_length {
            Some(value) => content_length_of(value),
            None => None,
        },
    }
}

/// The events are in order: the first, and no other, is `Started`; `Finished`
/// comes last if it comes; all between are `Progress`.
pub open spec fn in_order(events: Seq<DownloadEvent>) -> bool {
    forall|i: int|
        0 <= i < events.len() ==> match #[trigger] events[i] {
            DownloadEvent::Started { .. } => i == 0,
            DownloadEvent::Progress { .. } => i > 0,
            DownloadEvent::Finished => i > 0 && i == events.len() - 1,
        }
}

/// What holds of the events at each phase of a download that began at the start.
spec fn consistent(trace: Trace) -> bool {
    let events = trace.events;
    &&& in_order(events)
    &&& match trace.end.phase {
        Phase::AwaitingResponse => events.len() == 0 && trace.error is None,
        Phase::Streaming => events.len() > 0 && !(events.last() is Finished) && trace.error is None,
        Phase::Finished => events.len() > 0 && events.last() is Finished,
        Phase::Failed => trace.error is Some && (events.len() > 0 ==> !(events.last() is Finished)),
    }
    &&& trace.error is Some ==> trace.end.phase == Phase::Finished || trace.end.phase
        == Phase::Failed
}

proof fn lemma_consistent(url: Seq<char>, signals: Seq<SignalView>)
    ensures
        consistent(DownloadView::start(url).run(signals)),
    decreases signals.len(),
{
    if signals.len() > 0 {
        lemma_consistent(url, signals.drop_last());
    }
}

/// Whatever the transport reports, and in whatever order, the events of a
/// download are in order, nothing is delivered after `Finished`, and bytes
/// are left to install only by an exchange that delivered `Finished` and met
/// no error.
pub proof fn lemma_events_in_order(url: Seq<char>, signals: Seq<SignalView>)
    ensures
        in_order(DownloadView::start(url).run(signals).events),
        DownloadView::start(url).run(signals).outcome() is Ok ==> {
            let trace = DownloadView::start(url).run(signals);
            &&& trace.events.len() > 0
            &&& trace.events.last() is Finished
            &&& trace.outcome() == Ok::<Seq<u8>, UpdateErrorView>(trace.end.buffer)
        },
{
    lemma_consistent(url, signals);
}

proof fn lemma_body_arriving(
    url: Seq<char>,
    status: u16,
    content_length: Option<Seq<u8>>,
    chunks: Seq<Seq<u8>>,
)
    requires
        success_status(status),
    ensures
        DownloadView::start(url).run(
            seq![SignalView::Response { status, content_length }] + chunk_signals(chunks),
        ) == (Trace {
            end: DownloadView { url, phase: Phase::Streaming, buffer: body_of(chunks) },
            events: seq![started(content_length)] + progress_events(chunks),
            error: None,
        }),
    decreases chunks.len(),
{
    let head = seq![SignalView::Response { status, content_length }];
    let signals = head + chunk_signals(chunks);
    if chunks.len() == 0 {
        reveal_with_fuel(DownloadView::run, 2);
        assert(signals.drop_last() =~= Seq::empty());
        assert(seq![started(content_length)] + progress_events(chunks) =~= Seq::empty().push(
            started(content_length),
        ));
    } else {
        let earlier = chunks.drop_last();
        lemma_body_arriving(url, status, content_length, earlier);
        assert(signals.drop_last() =~= head + chunk_signals(earlier));
        assert(signals.last() == SignalView::Chunk(chunks.last()));
        assert(seq![started(content_length)] + progress_events(chunks) =~= (seq![
            started(content_length),
        ] + progress_events(earlier)).push(
            DownloadEvent::Progress { chunk_length: chunks.last().len() as usize },
        ));
    }
}

proof fn lemma_progress_total(first: DownloadEvent, chunks: Seq<Seq<u8>>)
    requires
        !(first is Progress),
        forall|i: int| 0 <= i < chunks.len() ==> (#[trigger] chunks[i]).len() <= usize::MAX,
    ensures
        progress_total(seq![first] + progress_events(chunks)) == body_of(chunks).len(),
    decreases chunks.len(),
{
    let events = seq![first] + progress_events(chunks);
    if chunks.len() == 0 {
        reveal_with_fuel(progress_total, 2);
        assert(events.drop_last() =~= Seq::empty());
    } else {
        let earlier = chunks.drop_last();
        assert forall|i: int| 0 <= i < earlier.len() implies (#[trigger] earlier[i]).len()
            <= usize::MAX by {
            assert(earlier[i] == chunks[i]);
        }
        lemma_progress_total(first, earlier);
        assert(events.drop_last() =~= seq![first] + progress_events(earlier));
        assert(events.last() == DownloadEvent::Progress {
            chunk_length: chunks.last().len() as usize,
        });
        assert(chunks[chunks.len() - 1].len() <= usize::MAX);
    }
}

/// A download whose response is accepted and whose body arrives whole, in any
/// number of chunks, delivers exactly `Started`, one `Progress` for each chunk
/// in the order of arrival, and `Finished`. It leaves the whole body to
/// install, and the chunk lengths of its events add up to the length of the
/// body. Without chunks the events are `Started` and `Finished` alone.
pub proof fn lemma_complete_download(
    url: Seq<char>,
    status: u16,
    content_length: Option<Seq<u8>>,
    chunks: Seq<Seq<u8>>,
)
    requires
        success_status(status),
        forall|i: int| 0 <= i < chunks.len() ==> (#[trigger] chunks[i]).len() <= usize::MAX,
    ensures
        ({
            let trace = DownloadView::start(url).run(
                seq![SignalView::Response { status, content_length }] + chunk_signals(chunks)
                    + seq![SignalView::End],
            );
            &&& trace.events == seq![started(content_length)] + progress_events(chunks)
                + seq![DownloadEvent::Finished]
            &&& trace.events.len() == chunks.len() + 2
            &&& trace.outcome() == Ok::<Seq<u8>, UpdateErrorView>(body_of(chunks))
            &&& progress_total(trace.events) == body_of(chunks).len()
            &&& chunks.len() == 0 ==> trace.events == seq![
                started(content_length),
                DownloadEvent::Finished,
            ]
        }),
{
    let arriving = seq![SignalView::Response { status, content_length }] + chunk_signals(chunks);
    let signals = arriving + seq![SignalView::End];
    lemma_body_arriving(url, status, content_length, chunks);
    assert(signals.drop_last() =~= arriving);
    let trace = DownloadView::start(url).run(signals);
    let delivered = seq![started(content_length)] + progress_events(chunks);
    assert(trace.events =~= delivered + seq![DownloadEvent::Finished]);
    lemma_progress_total(started(content_length), chunks);
    assert(trace.events.drop_last() =~= delivered);
    if chunks.len() == 0 {
        assert(trace.events =~= seq![started(content_length), DownloadEvent::Finished]);
    }
}

/// A download whose transport fails after some chunks of the body has
/// delivered `Started` and one `Progress` for each chunk that arrived, and
/// nothing else: no `Finished`. It ends in the transport's error and leaves
/// nothing to install.
pub proof fn lemma_interrupted_download(
    url: Seq<char>,
    status: u16,
    content_length: Option<Seq<u8>>,
    chunks: Seq<Seq<u8>>,
    message: Seq<char>,
)
    requires
        success_status(status),
    ensures
        ({
            let trace = DownloadView::start(url).run(
                seq![SignalView::Response { status, content_length }] + chunk_signals(chunks)
                    + seq![SignalView::Failure(message)],
            );
            &&& trace.events == seq![started(content_length)] + progress_events(chunks)
            &&& forall|i: int| 0 <= i < trace.events.len() ==> !(trace.events[i] is Finished)
            &&& trace.outcome() == Err::<Seq<u8>, UpdateErrorView>(
                UpdateErrorView::Network(NetworkFailureView::Transport(message)),
            )
            &&& trace.end.buffer.len() == 0
            &&& trace.end.artifact() is Err
        }),
{
    let arriving = seq![SignalView::Response { status, content_length }] + chunk_signals(chunks);
    let signals = arriving + seq![SignalView::Failure(message)];
    lemma_body_arriving(url, status, content_length, chunks);
    assert(signals.drop_last() =~= arriving);
}

/// A response with a status outside the success class ends the download in
/// that status, before any event.
pub proof fn lemma_refused_response(url: Seq<char>, status: u16, content_length: Option<Seq<u8>>)
    requires
        !success_status(status),
    ensures
        ({
            let trace = DownloadView::start(url).run(
                seq![SignalView::Response { status, content_length }],
            );
            &&& trace.events.len() == 0
            &&& trace.outcome() == Err::<Seq<u8>, UpdateErrorView>(
                UpdateErrorView::Network(NetworkFailureView::Status(status)),
            )
        }),
{
    let signals = seq![SignalView::Response { status, content_length }];
    reveal_with_fuel(DownloadView::run, 2);
    assert(signals.drop_last() =~= Seq::empty());
}

/// Once a signal has given an error, the signals after it change nothing.
proof fn lemma_error_is_final(url: Seq<char>, signals: Seq<SignalView>, upto: int)
    requires
        0 <= upto <= signals.len(),
        DownloadView::start(url).run(signals.take(upto)).error is Some,
    ensures
        DownloadView::start(url).run(signals) == DownloadView::start(url).run(signals.take(upto)),
    decreases signals.len() - upto,
{
    if upto == signals.len() {
        assert(signals.take(upto) =~= signals);
    } else {
        lemma_consistent(url, signals.take(upto));
        assert(signals.take(upto + 1).drop_last() =~= signals.take(upto));
        lemma_error_is_final(url, signals, upto + 1);
    }
}

impl Update {
    /// Takes a whole exchange at once: the signals of one request for this
    /// update's artifact, in the order in which the transport gave them.
    /// Returns the events to deliver, in order, and what is left to install:
    /// the body of a download that completed, or the first error. Signals
    /// after an error are not looked at.
    pub fn download_and_install(&self, signals: &Vec<Signal>) -> (report: (
        Vec<DownloadEvent>,
        Result<Vec<u8>, UpdateError>,
    ))
        ensures
            ({
                let trace = DownloadView::start(self@.download_url).run(signal_views(signals@));
                &&& report.0@ == trace.events
                &&& match report.1 {
                    Ok(bytes) => trace.outcome() == Ok::<Seq<u8>, UpdateErrorView>(bytes@),
                    Err(e) => trace.outcome() == Err::<Seq<u8>, UpdateErrorView>(e@),
                }
            }),
    {
        let ghost url = self@.download_url;
        let ghost views = signal_views(signals@);
        let mut download = self.download();
        let mut events: Vec<DownloadEvent> = Vec::new();
        let mut taken: usize = 0;
        assert(views.take(0) =~= Seq::empty());
        while taken < signals.len()
            invariant
                taken <= signals@.len(),
                url == self@.download_url,
                views == signal_views(signals@),
                download@ == DownloadView::start(url).run(views.take(taken as int)).end,
                events@ == DownloadView::start(url).run(views.take(taken as int)).events,
                DownloadView::start(url).run(views.take(taken as int)).error is None,
            decreases signals@.len() - taken,
        {
            proof {
                assert(views.take(taken + 1).drop_last() =~= views.take(taken as int));
                assert(views.take(taken + 1).last() == signals@[taken as int]@);
            }
            match download.step(&signals[taken]) {
                Ok(event) => {
                    events.push(event);
                },
                Err(e) => {
                    proof {
                        lemma_error_is_final(url, views, taken + 1);
                    }
                    return (events, Err(e));
                },
            }
            taken += 1;
        }
        assert(views.take(taken as int) =~= views);
        (events, download.into_bytes())
    }
}

} // verus!
