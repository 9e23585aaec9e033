//! A running translation session: what it does about each thing that happens.
use vstd::prelude::*;

use crate::codec::read_base64;
use crate::pcm::{bytes_to_samples, peak};
use crate::protocol::{append_audio, append_samples, read_event, EventView, ServerEvent};
use crate::ring::SampleRing;
use crate::status::{Direction, StatusUpdate, StatusView, TranscriptUpdate, TranscriptView};
use crate::text::join2;

verus! {

/// What a session has carried so far. The counts wrap around.
#[derive(Clone, Copy, Debug, PartialEq, Eq, Structural)]
pub struct SessionStats {
    /// Captured bytes.
    pub bytes_in: u64,
    /// Received bytes of translated audio.
    pub bytes_out: u64,
    /// The loudest captured sample since the last summary.
    pub peak_in: u32,
    /// The loudest received sample since the last summary.
    pub peak_out: u32,
    /// When the first audio was captured, in nanoseconds.
    pub first_in_ns: Option<u64>,
    /// When the first translated audio came, in nanoseconds.
    pub first_out_ns: Option<u64>,
}

/// A session of one direction that translates to a language.
#[derive(Debug)]
pub struct Session {
    pub direction: Direction,
    pub target: String,
    pub stats: SessionStats,
}

/// What happens to a session.
#[derive(Debug)]
pub enum Signal {
    /// The user ends the session.
    Cancelled,
    /// The microphone gave samples.
    Spoken(Vec<i16>),
    /// The capture program gave bytes; none means that it has ended.
    Captured(Vec<u8>),
    /// The capture program could not be read.
    CaptureFailed,
    /// The service sent a text.
    Message(String),
    /// The service sent something that is no text.
    Ignored,
    /// The service closed the connection.
    Closed,
    /// The connection failed, in reading or in sending.
    Broken,
    /// Nothing can happen any more.
    Exhausted,
}

/// What a session does about it.
#[derive(Debug)]
pub enum Action {
    /// Waits for what comes next.
    Wait,
    /// Sends a text to the service.
    Send(String),
    /// Says goodbye to the service and ends.
    CloseAndStop,
    /// Ends.
    Stop,
    /// Publishes a piece of a transcript.
    Transcript(TranscriptUpdate),
    /// Publishes its status, for an error that the service gave in detail.
    Status { update: StatusUpdate, detail: String },
    /// Has queued audio: how many samples found no room and, for the first audio, how long it
    /// took to come.
    Played { dropped: usize, latency_ms: Option<u64> },
    /// Leaves a message of the service unanswered.
    Notice(ServerEvent),
}

/// The meaning of a [`Signal`].
pub enum SignalView {
    Cancelled,
    Spoken(Seq<i16>),
    Captured(Seq<u8>),
    CaptureFailed,
    Message(Seq<char>),
    Ignored,
    Closed,
    Broken,
    Exhausted,
}

/// The meaning of an [`Action`].
pub enum ActionView {
    Wait,
    Send(Seq<char>),
    CloseAndStop,
    Stop,
    Transcript(TranscriptView),
    Status { update: StatusView, detail: Seq<char> },
    Played { dropped: int, latency_ms: Option<u64> },
    Notice(EventView),
}

impl View for Signal {
    type V = SignalView;

    open spec fn view(&self) -> SignalView {
        match self {
            Signal::Cancelled => SignalView::Cancelled,
            Signal::Spoken(samples) => SignalView::Spoken(samples@),
            Signal::Captured(bytes) => SignalView::Captured(bytes@),
            Signal::CaptureFailed => SignalView::CaptureFailed,
            Signal::Message(text) => SignalView::Message(text@),
            Signal::Ignored => SignalView::Ignored,
            Signal::Closed => SignalView::Closed,
            Signal::Broken => SignalView::Broken,
            Signal::Exhausted => SignalView::Exhausted,
        }
    }
}

impl View for Action {
    type V = ActionView;

    open spec fn view(&self) -> ActionView {
        match self {
            Action::Wait => ActionView::Wait,
            Action::Send(text) => ActionView::Send(text@),
            Action::CloseAndStop => ActionView::CloseAndStop,
            Action::Stop => ActionView::Stop,
            Action::Transcript(update) => ActionView::Transcript(update@),
            Action::Status { update, detail } => ActionView::Status {
                update: update@,
                detail: detail@,
            },
            Action::Played { dropped, latency_ms } => ActionView::Played {
                dropped: *dropped as int,
                latency_ms: *latency_ms,
            },
            Action::Notice(event) => ActionView::Notice(event@),
        }
    }
}

/// A session, what waits for playback and what to do.
pub struct Step {
    pub stats: SessionStats,
    pub queue: Seq<i16>,
    pub action: ActionView,
}

/// A session and its queue as they are, before anything happens to them.
pub struct Scene {
    pub direction: Direction,
    pub target: Seq<char>,
    pub stats: SessionStats,
    pub queue: Seq<i16>,
    pub capacity: nat,
    pub now_ns: u64,
}

/// The nanoseconds of a millisecond.
pub const NANOS_PER_MILLI: u64 = 1_000_000;

/// The whole milliseconds between two moments given in nanoseconds, none where they are the
/// wrong way round.
pub open spec fn elapsed_ms(since: u64, now: u64) -> u64 {
    if now >= since {
        ((now - since) / NANOS_PER_MILLI as int) as u64
    } else {
        0
    }
}

/// What is said of an error of the service.
pub open spec fn server_error(detail: Seq<char>) -> Seq<char> {
    "Server error: "@ + detail
}

/// The statistics once audio was captured.
pub open spec fn heard(stats: SessionStats, now_ns: u64) -> SessionStats {
    SessionStats {
        first_in_ns: match stats.first_in_ns {
            Some(moment) => Some(moment),
            None => Some(now_ns),
        },
        ..stats
    }
}

impl Scene {
    /// Nothing changes but the action.
    pub open spec fn unchanged(self, action: ActionView) -> Step {
        Step { stats: self.stats, queue: self.queue, action }
    }

    /// The statistics once the capture program gave bytes.
    pub open spec fn captured(self, bytes: Seq<u8>) -> SessionStats {
        SessionStats {
            bytes_in: self.stats.bytes_in.wrapping_add(bytes.len() as u64),
            peak_in: crate::pcm::peak_over(
                self.stats.peak_in as int,
                crate::pcm::samples_in(bytes),
            ) as u32,
            ..heard(self.stats, self.now_ns)
        }
    }

    /// The statistics once translated audio came. Only the incoming direction counts it.
    pub open spec fn received(self, bytes: Seq<u8>) -> SessionStats {
        let spoken = SessionStats {
            first_out_ns: match self.stats.first_out_ns {
                Some(moment) => Some(moment),
                None => Some(self.now_ns),
            },
            ..self.stats
        };
        match self.direction {
            Direction::Outgoing => spoken,
            Direction::Incoming => SessionStats {
                bytes_out: self.stats.bytes_out.wrapping_add(bytes.len() as u64),
                peak_out: crate::pcm::peak_over(
                    self.stats.peak_out as int,
                    crate::pcm::samples_in(bytes),
                ) as u32,
                ..spoken
            },
        }
    }

    /// How long the first translated audio took to come; nothing for any later one.
    pub open spec fn latency(self) -> Option<u64> {
        match self.stats.first_out_ns {
            Some(_) => None,
            None => match self.stats.first_in_ns {
                Some(moment) => Some(elapsed_ms(moment, self.now_ns)),
                None => Some(0),
            },
        }
    }

    /// Translated audio came: its samples are queued as far as there is room.
    pub open spec fn after_audio(self, bytes: Seq<u8>) -> Step {
        let samples = crate::pcm::samples_in(bytes);
        Step {
            stats: self.received(bytes),
            queue: crate::ring::enqueued(self.queue, self.capacity, samples),
            action: ActionView::Played {
                dropped: samples.len() - crate::ring::accepted(
                    self.queue,
                    self.capacity,
                    samples.len(),
                ),
                latency_ms: self.latency(),
            },
        }
    }

    /// A message of the service came.
    pub open spec fn after_event(self, event: EventView) -> Step {
        match event {
            EventView::Audio { delta: Some(delta) } => match crate::codec::base64_decoded(delta) {
                Some(bytes) => self.after_audio(bytes),
                None => self.unchanged(ActionView::Wait),
            },
            EventView::Audio { delta: None } => self.unchanged(ActionView::Wait),
            EventView::Transcript { speech, delta: Some(delta) } => self.unchanged(
                ActionView::Transcript(
                    crate::status::transcript_piece(self.direction, speech, delta),
                ),
            ),
            EventView::Transcript { speech, delta: None } => self.unchanged(ActionView::Wait),
            EventView::TranscriptDone { speech, .. } => self.unchanged(
                ActionView::Transcript(crate::status::transcript_end(self.direction, speech)),
            ),
            EventView::Error { detail } => match self.direction {
                Direction::Outgoing => self.unchanged(
                    ActionView::Status {
                        update: StatusView {
                            direction: crate::status::direction_name(self.direction),
                            running: true,
                            target: Some(self.target),
                            message: Some(server_error(detail)),
                        },
                        detail,
                    },
                ),
                Direction::Incoming => self.unchanged(ActionView::Notice(event)),
            },
            EventView::Session { .. } => self.unchanged(ActionView::Notice(event)),
            EventView::Other { .. } => self.unchanged(ActionView::Notice(event)),
        }
    }

    /// Anything happens.
    pub open spec fn after(self, signal: SignalView) -> Step {
        match signal {
            SignalView::Cancelled => self.unchanged(ActionView::CloseAndStop),
            SignalView::Spoken(samples) => Step {
                stats: heard(self.stats, self.now_ns),
                action: ActionView::Send(append_text(crate::pcm::bytes_of(samples))),
                ..self.unchanged(ActionView::Wait)
            },
            SignalView::Captured(bytes) => if bytes.len() == 0 {
                self.unchanged(ActionView::Stop)
            } else {
                Step {
                    stats: self.captured(bytes),
                    action: ActionView::Send(append_text(bytes)),
                    ..self.unchanged(ActionView::Wait)
                }
            },
            SignalView::Message(text) => match crate::json::json_parsed(text) {
                Some(json) => self.after_event(crate::protocol::event_of(json)),
                None => self.unchanged(ActionView::Wait),
            },
            SignalView::Ignored => self.unchanged(ActionView::Wait),
            SignalView::CaptureFailed => self.unchanged(ActionView::Stop),
            SignalView::Closed => self.unchanged(ActionView::Stop),
            SignalView::Broken => self.unchanged(ActionView::Stop),
            SignalView::Exhausted => self.unchanged(ActionView::Stop),
        }
    }
}

/// The text that hands on captured bytes.
pub open spec fn append_text(bytes: Seq<u8>) -> Seq<char> {
    crate::json::json_text(crate::protocol::append_json(crate::codec::base64_encoded(bytes)))
}

/// Whether an action answers a signal: audio that was given is sent, so that it can be read back
/// from the text, and nothing is sent otherwise.
pub open spec fn answered(signal: SignalView, action: ActionView) -> bool {
    match signal {
        SignalView::Spoken(samples) => {
            &&& action is Send
            &&& crate::protocol::audio_in(action->Send_0) == Some(crate::pcm::bytes_of(samples))
            &&& crate::pcm::samples_in(crate::protocol::audio_in(action->Send_0)->0) == samples
        },
        SignalView::Captured(bytes) => if bytes.len() > 0 {
            &&& action is Send
            &&& crate::protocol::audio_in(action->Send_0) == Some(bytes)
        } else {
            !(action is Send)
        },
        _ => !(action is Send),
    }
}

/// Whether captured audio can be handed on in one message.
pub open spec fn fits(signal: SignalView) -> bool {
    match signal {
        SignalView::Spoken(samples) => crate::codec::base64_fits((2 * samples.len()) as int),
        SignalView::Captured(bytes) => crate::codec::base64_fits(bytes.len() as int),
        _ => true,
    }
}

/// The figures of a summary.
#[derive(Clone, Copy, Debug, PartialEq, Eq, Structural)]
pub struct Summary {
    pub in_kb: u64,
    pub out_kb: u64,
    pub peak_in: u32,
    pub peak_out: u32,
}

/// How many seconds pass between two summaries.
pub const SUMMARY_SECONDS: u64 = 5;

impl SessionStats {
    /// The figures of a summary.
    pub open spec fn figures(self) -> Summary {
        Summary {
            in_kb: self.bytes_in / 1024,
            out_kb: self.bytes_out / 1024,
            peak_in: self.peak_in,
            peak_out: self.peak_out,
        }
    }

    /// The summary after so many seconds, and what is kept: the peaks start anew with each.
    pub open spec fn summarised(self, seconds: u64) -> (Option<Summary>, SessionStats) {
        if seconds < SUMMARY_SECONDS {
            (None, self)
        } else {
            (Some(self.figures()), SessionStats { peak_in: 0, peak_out: 0, ..self })
        }
    }
}

impl Session {
    /// A session, its queue and the time.
    pub open spec fn scene(self, ring: SampleRing, now_ns: u64) -> Scene {
        Scene {
            direction: self.direction,
            target: self.target@,
            stats: self.stats,
            queue: ring@,
            capacity: ring.capacity(),
            now_ns,
        }
    }

    /// A session that has carried nothing.
    pub fn new(direction: Direction, target: String) -> (r: Session)
        ensures
            r.direction == direction,
            r.target == target,
            r.stats == (SessionStats {
                bytes_in: 0,
                bytes_out: 0,
                peak_in: 0,
                peak_out: 0,
                first_in_ns: None,
                first_out_ns: None,
            }),
    {
        Session {
            direction,
            target,
            stats: SessionStats {
                bytes_in: 0,
                bytes_out: 0,
                peak_in: 0,
                peak_out: 0,
                first_in_ns: None,
                first_out_ns: None,
            },
        }
    }

    /// Takes note of the moment that the first audio was captured.
    fn hear(&mut self, now_ns: u64)
        ensures
            final(self).direction == old(self).direction,
            final(self).target == old(self).target,
            final(self).stats == heard(old(self).stats, now_ns),
    {
        if self.stats.first_in_ns.is_none() {
            self.stats.first_in_ns = Some(now_ns);
        }
    }

    /// Queues translated audio.
    pub fn on_audio(&mut self, bytes: &[u8], ring: &mut SampleRing, now_ns: u64) -> (r: Action)
        ensures
            final(self).direction == old(self).direction,
            final(self).target == old(self).target,
            final(ring).capacity() == old(ring).capacity(),
            (Step { stats: final(self).stats, queue: final(ring)@, action: r@ }) == old(
                self,
            ).scene(*old(ring), now_ns).after_audio(bytes@),
    {
        let samples: Vec<i16> = bytes_to_samples(bytes);
        let latency_ms: Option<u64> = match self.stats.first_out_ns {
            Some(_) => None,
            None => match self.stats.first_in_ns {
                Some(moment) => Some(
                    if now_ns >= moment {
                        (now_ns - moment) / NANOS_PER_MILLI
                    } else {
                        0
                    },
                ),
                None => Some(0),
            },
        };
        if self.stats.first_out_ns.is_none() {
            self.stats.first_out_ns = Some(now_ns);
        }
        if let Direction::Incoming = self.direction {
            self.stats.bytes_out = self.stats.bytes_out.wrapping_add(bytes.len() as u64);
            self.stats.peak_out = peak(self.stats.peak_out, samples.as_slice());
        }
        let dropped: usize = ring.enqueue(samples.as_slice());
        Action::Played { dropped, latency_ms }
    }

    /// Answers a message of the service.
    pub fn on_event(&mut self, event: ServerEvent, ring: &mut SampleRing, now_ns: u64) -> (r:
        Action)
        ensures
            final(self).direction == old(self).direction,
            final(self).target == old(self).target,
            final(ring).capacity() == old(ring).capacity(),
            (Step { stats: final(self).stats, queue: final(ring)@, action: r@ }) == old(
                self,
            ).scene(*old(ring), now_ns).after_event(event@),
    {
        match event {
            ServerEvent::Audio { delta } => match delta {
                Some(text) => match read_base64(text.as_str()) {
                    Some(bytes) => self.on_audio(bytes.as_slice(), ring, now_ns),
                    None => Action::Wait,
                },
                None => Action::Wait,
            },
            ServerEvent::Transcript { speech, delta } => match delta {
                Some(text) => Action::Transcript(
                    TranscriptUpdate::piece(self.direction, speech, text),
                ),
                None => Action::Wait,
            },
            ServerEvent::TranscriptDone { speech, spoken } => Action::Transcript(
                TranscriptUpdate::end(self.direction, speech),
            ),
            ServerEvent::Error { detail } => match self.direction {
                Direction::Outgoing => Action::Status {
                    update: StatusUpdate {
                        direction: self.direction.name(),
                        running: true,
                        target: Some(self.target.clone()),
                        message: Some(join2("Server error: ", detail.as_str())),
                    },
                    detail,
                },
                Direction::Incoming => Action::Notice(ServerEvent::Error { detail }),
            },
            ServerEvent::Session { name, language, model } => Action::Notice(
                ServerEvent::Session { name, language, model },
            ),
            ServerEvent::Other { name } => Action::Notice(ServerEvent::Other { name }),
        }
    }

    /// Decides what to do about anything that happens.
    pub fn step(&mut self, signal: Signal, ring: &mut SampleRing, now_ns: u64) -> (r: Action)
        requires
            fits(signal@),
        ensures
            final(self).direction == old(self).direction,
            final(self).target == old(self).target,
            final(ring).capacity() == old(ring).capacity(),
            (Step { stats: final(self).stats, queue: final(ring)@, action: r@ }) == old(
                self,
            ).scene(*old(ring), now_ns).after(signal@),
            answered(signal@, r@),
    {
        match signal {
            Signal::Cancelled => Action::CloseAndStop,
            Signal::Spoken(samples) => {
                self.hear(now_ns);
                Action::Send(append_samples(samples.as_slice()))
            },
            Signal::Captured(bytes) => {
                if bytes.len() == 0 {
                    Action::Stop
                } else {
                    self.hear(now_ns);
                    self.stats.bytes_in = self.stats.bytes_in.wrapping_add(bytes.len() as u64);
                    let samples: Vec<i16> = bytes_to_samples(bytes.as_slice());
                    self.stats.peak_in = peak(self.stats.peak_in, samples.as_slice());
                    Action::Send(append_audio(bytes.as_slice()))
                }
            },
            Signal::Message(text) => match read_event(text.as_str()) {
                Some(event) => self.on_event(event, ring, now_ns),
                None => Action::Wait,
            },
            Signal::Ignored => Action::Wait,
            Signal::CaptureFailed => Action::Stop,
            Signal::Closed => Action::Stop,
            Signal::Broken => Action::Stop,
            Signal::Exhausted => Action::Stop,
        }
    }

    /// The figures of a summary, where one is due; the peaks then start anew.
    pub fn summary(&mut self, seconds: u64) -> (r: Option<Summary>)
        ensures
            final(self).direction == old(self).direction,
            final(self).target == old(self).target,
            (r, final(self).stats) == old(self).stats.summarised(seconds),
            seconds < SUMMARY_SECONDS ==> r is None && final(self).stats == old(self).stats,
            seconds >= SUMMARY_SECONDS ==> {
                &&& r == Some(old(self).stats.figures())
                &&& final(self).stats == (SessionStats {
                    peak_in: 0,
                    peak_out: 0,
                    ..old(self).stats
                })
            },
    {
        if seconds < SUMMARY_SECONDS {
            return None;
        }
        let figures: Summary = self.totals();
        self.stats.peak_in = 0;
        self.stats.peak_out = 0;
        Some(figures)
    }

    /// The figures of the session so far.
    pub fn totals(&self) -> (r: Summary)
        ensures
            r == self.stats.figures(),
    {
        Summary {
            in_kb: self.stats.bytes_in / 1024,
            out_kb: self.stats.bytes_out / 1024,
            peak_in: self.stats.peak_in,
            peak_out: self.stats.peak_out,
        }
    }
}

/// A session ends exactly when the user ends it, when the capture program or the connection
/// does, or when nothing can happen any more; no message of the service ends it. Only the
/// user's end says goodbye.
pub proof fn law_what_ends_a_session(scene: Scene, signal: SignalView)
    ensures
        scene.after(signal).action is CloseAndStop <==> signal is Cancelled,
        scene.after(signal).action is Stop <==> (signal is CaptureFailed || signal is Closed
            || signal is Broken || signal is Exhausted || signal == SignalView::Captured(
            Seq::empty(),
        )),
{
    if let SignalView::Captured(bytes) = signal {
        assert(bytes.len() == 0 ==> bytes =~= Seq::empty());
    }
}

/// A text that is no JSON changes nothing and is not answered.
pub proof fn law_unreadable_text_is_passed_over(scene: Scene, text: Seq<char>)
    requires
        crate::json::json_parsed(text) is None,
    ensures
        scene.after(SignalView::Message(text)) == scene.unchanged(ActionView::Wait),
{
}

/// Only received audio reaches the queue, and what waits there already stays in front.
pub proof fn law_only_received_audio_is_queued(scene: Scene, signal: SignalView)
    requires
        scene.queue.len() <= scene.capacity,
    ensures
        !(scene.after(signal).action is Played) ==> scene.after(signal).queue == scene.queue,
        scene.after(signal).queue.len() >= scene.queue.len(),
        scene.after(signal).queue.len() <= scene.capacity,
        scene.after(signal).queue.take(scene.queue.len() as int) == scene.queue,
{
    assert(scene.queue.take(scene.queue.len() as int) =~= scene.queue);
    if scene.after(signal).action is Played {
        if let SignalView::Message(text) = signal {
            let json = crate::json::json_parsed(text)->0;
            if let EventView::Audio { delta: Some(delta) } = crate::protocol::event_of(json) {
                let bytes = crate::codec::base64_decoded(delta)->0;
                crate::ring::law_queue_keeps_its_bound(
                    scene.queue,
                    scene.capacity,
                    crate::pcm::samples_in(bytes),
                );
            }
        }
    }
}

/// Samples that the service sends in base64 are queued as they were sent, where there is room.
pub proof fn law_sent_samples_are_queued(scene: Scene, samples: Seq<i16>)
    requires
        scene.queue.len() + samples.len() <= scene.capacity,
    ensures
        ({
            let delta = crate::codec::base64_encoded(crate::pcm::bytes_of(samples));
            let step = scene.after_event(EventView::Audio { delta: Some(delta) });
            &&& step.queue == scene.queue + samples
            &&& step.action == (ActionView::Played { dropped: 0, latency_ms: scene.latency() })
        }),
{
    crate::codec::law_base64_comes_back(crate::pcm::bytes_of(samples));
    crate::pcm::law_samples_survive_bytes(samples);
    crate::ring::law_queue_with_room_takes_all(scene.queue, scene.capacity, samples);
}

/// What a session publishes bears its own direction.
pub proof fn law_sessions_publish_their_direction(scene: Scene, event: EventView)
    ensures
        match scene.after_event(event).action {
            ActionView::Transcript(update) => update.direction == crate::status::direction_name(
                scene.direction,
            ),
            ActionView::Status { update, .. } => update.direction == crate::status::direction_name(
                scene.direction,
            ) && update.running && update.target == Some(scene.target),
            _ => true,
        },
{
}

/// A session and its queue once a run of things has happened, each at its moment.
pub open spec fn after_all(scene: Scene, run: Seq<(SignalView, u64)>) -> Scene
    decreases run.len(),
{
    if run.len() == 0 {
        scene
    } else {
        let before = Scene { now_ns: run.last().1, ..after_all(scene, run.drop_last()) };
        let step = before.after(run.last().0);
        Scene { stats: step.stats, queue: step.queue, ..before }
    }
}

/// How many bytes a run of things has captured.
pub open spec fn captured_total(run: Seq<(SignalView, u64)>) -> nat
    decreases run.len(),
{
    if run.len() == 0 {
        0
    } else {
        captured_total(run.drop_last()) + match run.last().0 {
            SignalView::Captured(bytes) => bytes.len(),
            _ => 0,
        }
    }
}

/// Whatever happens to a session, every captured byte is counted once, and nothing else is;
/// the moment of the first audio is kept; direction, language and room stay as they are.
pub proof fn law_captured_bytes_are_counted(scene: Scene, run: Seq<(SignalView, u64)>)
    requires
        scene.stats.bytes_in + captured_total(run) <= u64::MAX,
    ensures
        after_all(scene, run).stats.bytes_in == scene.stats.bytes_in + captured_total(run),
        scene.stats.first_in_ns is Some ==> after_all(scene, run).stats.first_in_ns
            == scene.stats.first_in_ns,
        after_all(scene, run).direction == scene.direction,
        after_all(scene, run).target == scene.target,
        after_all(scene, run).capacity == scene.capacity,
    decreases run.len(),
{
    if run.len() > 0 {
        law_captured_bytes_are_counted(scene, run.drop_last());
    }
}

/// The time to the first translated audio is told once: audio that comes sets its moment, that
/// moment is kept whatever happens next, and no audio after it tells the time again.
pub proof fn law_latency_is_told_once(
    scene: Scene,
    bytes: Seq<u8>,
    run: Seq<(SignalView, u64)>,
    signal: SignalView,
)
    ensures
        scene.after_audio(bytes).stats.first_out_ns is Some,
        scene.stats.first_out_ns is Some ==> {
            &&& after_all(scene, run).stats.first_out_ns == scene.stats.first_out_ns
            &&& after_all(scene, run).latency() is None
            &&& match after_all(scene, run).after(signal).action {
                ActionView::Played { latency_ms, .. } => latency_ms is None,
                _ => true,
            }
        },
    decreases run.len(),
{
    if run.len() > 0 {
        law_latency_is_told_once(scene, bytes, run.drop_last(), signal);
    }
}

/// The name that updates give a direction.
pub open spec fn name_in_updates(direction: Direction) -> Seq<char> {
    if direction == Direction::Outgoing {
        "outgoing"@
    } else {
        "incoming"@
    }
}

/// The message that hands bytes on: of its type, with the bytes in base64.
pub open spec fn append_request(bytes: Seq<u8>) -> crate::json::JsonView {
    crate::json::JsonView::Object(
        map![
            "type"@ => crate::json::JsonView::Text("session.input_audio_buffer.append"@),
            "audio"@ => crate::json::JsonView::Text(crate::codec::base64_encoded(bytes)),
        ],
    )
}

/// Whatever happened to a session before, what the microphone gives is sent at once and whole.
/// The moment is noted where it is the first audio, and nothing else changes.
pub proof fn law_speech_is_always_sent(scene: Scene, samples: Seq<i16>)
    ensures
        ({
            let step = scene.after(SignalView::Spoken(samples));
            &&& step.action == ActionView::Send(
                crate::json::json_text(append_request(crate::pcm::bytes_of(samples))),
            )
            &&& step.queue == scene.queue
            &&& scene.stats.first_in_ns is None ==> step.stats.first_in_ns == Some(scene.now_ns)
            &&& scene.stats.first_in_ns is Some ==> step.stats.first_in_ns
                == scene.stats.first_in_ns
            &&& step.stats.first_out_ns == scene.stats.first_out_ns
            &&& step.stats.bytes_in == scene.stats.bytes_in
            &&& step.stats.bytes_out == scene.stats.bytes_out
            &&& step.stats.peak_in == scene.stats.peak_in
            &&& step.stats.peak_out == scene.stats.peak_out
        }),
{
}

/// Whatever happened to a session before, bytes that the capture program gives are sent at once
/// and whole. They are counted, the loudest of their samples is noted, and so is the moment where
/// it is the first audio; nothing else changes.
pub proof fn law_captured_audio_is_always_sent(scene: Scene, bytes: Seq<u8>)
    requires
        bytes.len() > 0,
    ensures
        ({
            let step = scene.after(SignalView::Captured(bytes));
            let samples = crate::pcm::samples_in(bytes);
            &&& step.action == ActionView::Send(crate::json::json_text(append_request(bytes)))
            &&& step.queue == scene.queue
            &&& scene.stats.first_in_ns is None ==> step.stats.first_in_ns == Some(scene.now_ns)
            &&& scene.stats.first_in_ns is Some ==> step.stats.first_in_ns
                == scene.stats.first_in_ns
            &&& step.stats.first_out_ns == scene.stats.first_out_ns
            &&& scene.stats.bytes_in + bytes.len() <= u64::MAX ==> step.stats.bytes_in
                == scene.stats.bytes_in + bytes.len()
            &&& step.stats.bytes_out == scene.stats.bytes_out
            &&& is_new_peak(scene.stats.peak_in, samples, step.stats.peak_in)
            &&& step.stats.peak_out == scene.stats.peak_out
        }),
{
    lemma_new_peak(scene.stats.peak_in, crate::pcm::samples_in(bytes));
}

/// Whether a peak is the loudest of what was loudest before and of samples.
pub open spec fn is_new_peak(before: u32, samples: Seq<i16>, peak: u32) -> bool {
    &&& peak >= before
    &&& forall|i: int| 0 <= i < samples.len() ==> -peak <= #[trigger] samples[i] <= peak
    &&& peak == before || exists|i: int|
        0 <= i < samples.len() && (#[trigger] samples[i] == peak || samples[i] == -peak)
}

/// The peak that is kept is the loudest.
proof fn lemma_new_peak(before: u32, samples: Seq<i16>)
    ensures
        is_new_peak(before, samples, crate::pcm::peak_over(before as int, samples) as u32),
{
    crate::pcm::law_peak_bounds_both_sides(before as int, samples);
    let peak = crate::pcm::peak_over(before as int, samples);
    if peak != before {
        let i = choose|i: int|
            0 <= i < samples.len() && (#[trigger] samples[i] == peak || samples[i] == -peak);
        assert(-32768 <= samples[i] <= 32767);
    }
}

/// The audio that a run of signals gave, in order.
pub open spec fn audio_given(run: Seq<SignalView>) -> Seq<u8>
    decreases run.len(),
{
    if run.len() == 0 {
        Seq::empty()
    } else {
        audio_given(run.drop_last()) + match run.last() {
            SignalView::Spoken(samples) => crate::pcm::bytes_of(samples),
            SignalView::Captured(bytes) => bytes,
            _ => Seq::empty(),
        }
    }
}

/// The samples that the microphone gave in a run of signals, in order.
pub open spec fn samples_given(run: Seq<SignalView>) -> Seq<i16>
    decreases run.len(),
{
    if run.len() == 0 {
        Seq::empty()
    } else {
        samples_given(run.drop_last()) + match run.last() {
            SignalView::Spoken(samples) => samples,
            _ => Seq::empty(),
        }
    }
}

/// The audio that can be read back from what a run of actions sent, in order.
pub open spec fn audio_sent(actions: Seq<ActionView>) -> Seq<u8>
    decreases actions.len(),
{
    if actions.len() == 0 {
        Seq::empty()
    } else {
        audio_sent(actions.drop_last()) + match actions.last() {
            ActionView::Send(text) => match crate::protocol::audio_in(text) {
                Some(bytes) => bytes,
                None => Seq::empty(),
            },
            _ => Seq::empty(),
        }
    }
}

/// Over any run of steps the audio that is sent is all the audio that was given, in order: no
/// block is left out, sent twice or changed. Of a microphone alone, the samples read back are the
/// samples that were spoken.
pub proof fn law_all_audio_is_sent(run: Seq<SignalView>, actions: Seq<ActionView>)
    requires
        actions.len() == run.len(),
        forall|i: int| 0 <= i < run.len() ==> answered(#[trigger] run[i], actions[i]),
    ensures
        audio_sent(actions) == audio_given(run),
        (forall|i: int| 0 <= i < run.len() ==> !(#[trigger] run[i] is Captured))
            ==> crate::pcm::samples_in(audio_sent(actions)) == samples_given(run),
        forall|i: int|
            0 <= i < run.len() && (#[trigger] run[i] is Spoken || (run[i] is Captured && run[i]
                != SignalView::Captured(Seq::empty()))) ==> actions[i] is Send,
{
    lemma_all_audio_is_sent(run, actions);
    if forall|i: int| 0 <= i < run.len() ==> !(#[trigger] run[i] is Captured) {
        lemma_spoken_bytes(run);
        crate::pcm::law_samples_survive_bytes(samples_given(run));
    }
    assert forall|i: int|
        0 <= i < run.len() && (#[trigger] run[i] is Spoken || (run[i] is Captured && run[i]
            != SignalView::Captured(Seq::empty()))) implies actions[i] is Send by {
        assert(answered(run[i], actions[i]));
        if let SignalView::Captured(bytes) = run[i] {
            assert(bytes.len() == 0 ==> bytes =~= Seq::empty());
        }
    }
}

/// Over any run of steps the audio that is sent is all the audio that was given.
proof fn lemma_all_audio_is_sent(run: Seq<SignalView>, actions: Seq<ActionView>)
    requires
        actions.len() == run.len(),
        forall|i: int| 0 <= i < run.len() ==> answered(#[trigger] run[i], actions[i]),
    ensures
        audio_sent(actions) == audio_given(run),
    decreases run.len(),
{
    if run.len() > 0 {
        let (init, done) = (run.drop_last(), actions.drop_last());
        assert forall|i: int| 0 <= i < init.len() implies answered(#[trigger] init[i], done[i]) by {
            assert(init[i] == run[i]);
        }
        lemma_all_audio_is_sent(init, done);
        assert(answered(run[run.len() - 1], actions[run.len() - 1]));
        if let SignalView::Captured(bytes) = run.last() {
            assert(bytes.len() == 0 ==> bytes =~= Seq::empty());
        }
    }
}

/// The audio that a microphone gave are the bytes of its samples.
proof fn lemma_spoken_bytes(run: Seq<SignalView>)
    requires
        forall|i: int| 0 <= i < run.len() ==> !(#[trigger] run[i] is Captured),
    ensures
        audio_given(run) == crate::pcm::bytes_of(samples_given(run)),
    decreases run.len(),
{
    if run.len() > 0 {
        let init = run.drop_last();
        assert forall|i: int| 0 <= i < init.len() implies !(#[trigger] init[i] is Captured) by {
            assert(init[i] == run[i]);
        }
        lemma_spoken_bytes(init);
        assert(!(run[run.len() - 1] is Captured));
        let before = samples_given(init);
        let after = match run.last() {
            SignalView::Spoken(samples) => samples,
            _ => Seq::empty(),
        };
        crate::pcm::law_bytes_join(before, after);
        assert(crate::pcm::bytes_of(Seq::empty()) =~= Seq::empty());
    } else {
        assert(crate::pcm::bytes_of(samples_given(run)) =~= Seq::empty());
    }
}

/// What is no audio and no message changes nothing: the user's end says goodbye, a failure or an
/// end on either side ends the session, and anything else is waited through.
pub proof fn law_other_signals_change_nothing(scene: Scene, signal: SignalView)
    requires
        !(signal is Spoken),
        !(signal is Message),
        signal is Captured ==> signal == SignalView::Captured(Seq::empty()),
    ensures
        scene.after(signal).stats == scene.stats,
        scene.after(signal).queue == scene.queue,
        scene.after(signal).action == (if signal is Cancelled {
            ActionView::CloseAndStop
        } else if signal is Ignored {
            ActionView::Wait
        } else {
            ActionView::Stop
        }),
{
}

/// A piece of a transcript is published as it is, with its own side and the session's direction,
/// and so is its end; where a piece is missing nothing is published. The session stays as it is.
pub proof fn law_transcripts_are_published(
    scene: Scene,
    delta: Seq<char>,
    spoken: Option<Seq<char>>,
)
    ensures
        ({
            let direction = name_in_updates(scene.direction);
            let source = scene.after_event(
                EventView::Transcript { speech: crate::status::Speech::Source, delta: Some(delta) },
            );
            let translated = scene.after_event(
                EventView::Transcript {
                    speech: crate::status::Speech::Translated,
                    delta: Some(delta),
                },
            );
            let source_end = scene.after_event(
                EventView::TranscriptDone { speech: crate::status::Speech::Source, spoken },
            );
            let translated_end = scene.after_event(
                EventView::TranscriptDone { speech: crate::status::Speech::Translated, spoken },
            );
            &&& source == scene.unchanged(
                ActionView::Transcript(
                    TranscriptView { direction, kind: "source"@, delta, done: false },
                ),
            )
            &&& translated == scene.unchanged(
                ActionView::Transcript(
                    TranscriptView { direction, kind: "translated"@, delta, done: false },
                ),
            )
            &&& source_end == scene.unchanged(
                ActionView::Transcript(
                    TranscriptView { direction, kind: "source"@, delta: Seq::empty(), done: true },
                ),
            )
            &&& translated_end == scene.unchanged(
                ActionView::Transcript(
                    TranscriptView {
                        direction,
                        kind: "translated"@,
                        delta: Seq::empty(),
                        done: true,
                    },
                ),
            )
        }),
        forall|speech: crate::status::Speech|
            #[trigger] scene.after_event(EventView::Transcript { speech, delta: None })
                == scene.unchanged(ActionView::Wait),
{
}

/// What stays as it is stays as it is: the statistics and the queue.
pub proof fn law_unchanged_changes_nothing(scene: Scene, action: ActionView)
    ensures
        scene.unchanged(action).stats == scene.stats,
        scene.unchanged(action).queue == scene.queue,
        scene.unchanged(action).action == action,
{
}

/// An error of the service reaches the user from the outgoing direction, which goes on running,
/// with its language and the error in full; the incoming direction only takes notice, as every
/// session does of a session message and of one of an unknown type.
pub proof fn law_errors_are_told(
    scene: Scene,
    detail: Seq<char>,
    name: Seq<char>,
    language: Seq<char>,
    model: Seq<char>,
)
    ensures
        scene.direction == Direction::Outgoing ==> scene.after_event(EventView::Error { detail })
            == scene.unchanged(
            ActionView::Status {
                update: StatusView {
                    direction: "outgoing"@,
                    running: true,
                    target: Some(scene.target),
                    message: Some("Server error: "@ + detail),
                },
                detail,
            },
        ),
        scene.direction == Direction::Incoming ==> scene.after_event(EventView::Error { detail })
            == scene.unchanged(ActionView::Notice(EventView::Error { detail })),
        scene.after_event(EventView::Session { name, language, model }) == scene.unchanged(
            ActionView::Notice(EventView::Session { name, language, model }),
        ),
        scene.after_event(EventView::Other { name }) == scene.unchanged(
            ActionView::Notice(EventView::Other { name }),
        ),
{
}

/// Audio that comes is queued behind what waits, the first samples first and all that have room;
/// how many had none is told, and with the first audio how many whole milliseconds it took since
/// audio was first given. The incoming direction counts the bytes and notes the loudest sample.
/// What is no base64 text, and no text at all, changes nothing.
pub proof fn law_received_audio_is_queued(scene: Scene, bytes: Seq<u8>, delta: Seq<char>)
    requires
        scene.queue.len() <= scene.capacity,
    ensures
        ({
            let step = scene.after_event(
                EventView::Audio { delta: Some(crate::codec::base64_encoded(bytes)) },
            );
            let samples = crate::pcm::samples_in(bytes);
            let kept = step.queue.len() - scene.queue.len();
            &&& 0 <= kept <= samples.len()
            &&& step.queue == scene.queue + samples.take(kept)
            &&& kept < samples.len() ==> step.queue.len() == scene.capacity
            &&& step.queue.len() <= scene.capacity
            &&& step.action is Played
            &&& step.action->dropped == samples.len() - kept
            &&& is_latency(
                scene.stats.first_in_ns,
                scene.stats.first_out_ns,
                scene.now_ns,
                step.action->latency_ms,
            )
            &&& step.stats.first_in_ns == scene.stats.first_in_ns
            &&& scene.stats.first_out_ns is None ==> step.stats.first_out_ns == Some(scene.now_ns)
            &&& scene.stats.first_out_ns is Some ==> step.stats.first_out_ns
                == scene.stats.first_out_ns
            &&& step.stats.bytes_in == scene.stats.bytes_in
            &&& step.stats.peak_in == scene.stats.peak_in
            &&& scene.direction == Direction::Outgoing ==> step.stats.bytes_out
                == scene.stats.bytes_out && step.stats.peak_out == scene.stats.peak_out
            &&& scene.direction == Direction::Incoming && scene.stats.bytes_out + bytes.len()
                <= u64::MAX ==> step.stats.bytes_out == scene.stats.bytes_out + bytes.len()
            &&& scene.direction == Direction::Incoming ==> is_new_peak(
                scene.stats.peak_out,
                samples,
                step.stats.peak_out,
            )
        }),
        (forall|b: Seq<u8>| #[trigger] crate::codec::base64_encoded(b) != delta)
            ==> scene.after_event(EventView::Audio { delta: Some(delta) }) == scene.unchanged(
            ActionView::Wait,
        ),
        scene.after_event(EventView::Audio { delta: None }) == scene.unchanged(ActionView::Wait),
{
    crate::codec::law_base64_comes_back(bytes);
    let samples = crate::pcm::samples_in(bytes);
    crate::ring::law_queue_takes_the_first(scene.queue, scene.capacity, samples);
    lemma_new_peak(scene.stats.peak_out, samples);
}

/// Whether a time is the one to tell with audio that comes now: none where audio came before,
/// nothing where none was given, and else the whole milliseconds since audio was first given.
pub open spec fn is_latency(
    first_in_ns: Option<u64>,
    first_out_ns: Option<u64>,
    now_ns: u64,
    latency_ms: Option<u64>,
) -> bool {
    if first_out_ns is Some {
        latency_ms is None
    } else {
        &&& latency_ms is Some
        &&& first_in_ns is None || now_ns < first_in_ns->0 ==> latency_ms->0 == 0
        &&& first_in_ns is Some && now_ns >= first_in_ns->0 ==> 1000000 * latency_ms->0 <= now_ns
            - first_in_ns->0 < 1000000 * latency_ms->0 + 1000000
    }
}

/// What a session does about a text of the service follows from the type that the text gives
/// itself: pieces and ends of what was said are published as the source, those of the translation
/// as translated, each with the text that the message carries; audio is queued; errors and other
/// messages are answered as such.
pub proof fn law_messages_are_answered_by_type(
    scene: Scene,
    text: Seq<char>,
    members: Map<Seq<char>, crate::json::JsonView>,
    name: Seq<char>,
)
    requires
        crate::json::json_parsed(text) == Some(crate::json::JsonView::Object(members)),
        crate::protocol::text_under(members, "type"@) == Some(name),
    ensures
        ({
            let step = scene.after(SignalView::Message(text));
            let direction = name_in_updates(scene.direction);
            let delta = crate::protocol::text_under(members, "delta"@);
            let published = |kind: Seq<char>, words: Seq<char>, done: bool|
                scene.unchanged(
                    ActionView::Transcript(
                        TranscriptView { direction, kind, delta: words, done },
                    ),
                );
            &&& crate::protocol::is_source_piece(name) && delta is Some ==> step == published(
                "source"@,
                delta->0,
                false,
            )
            &&& crate::protocol::is_translated_piece(name) && delta is Some ==> step == published(
                "translated"@,
                delta->0,
                false,
            )
            &&& crate::protocol::is_source_end(name) ==> step == published(
                "source"@,
                Seq::empty(),
                true,
            )
            &&& crate::protocol::is_translated_end(name) ==> step == published(
                "translated"@,
                Seq::empty(),
                true,
            )
            &&& (crate::protocol::is_source_piece(name) || crate::protocol::is_translated_piece(
                name,
            ) || crate::protocol::is_audio_type(name)) && delta is None ==> step
                == scene.unchanged(ActionView::Wait)
            &&& crate::protocol::is_audio_type(name) && delta is Some ==> step
                == scene.after_event(EventView::Audio { delta })
            &&& name == "error"@ && members.contains_key("error"@) ==> step == scene.after_event(
                EventView::Error { detail: crate::json::json_text(members["error"@]) },
            )
        }),
{
    crate::protocol::law_messages_say_what_their_type_tells(members);
    crate::protocol::law_types_are_told_apart(name);
}

/// A summary is due from five seconds on. It tells whole kilobytes and the peaks as they stand,
/// and the peaks then start anew; before that nothing is told and nothing changes.
pub proof fn law_summaries_come_every_five_seconds(stats: SessionStats, seconds: u64)
    ensures
        ({
            let (summary, kept) = stats.summarised(seconds);
            &&& seconds < 5 ==> summary is None && kept == stats
            &&& seconds >= 5 ==> summary == Some(stats.figures())
            &&& seconds >= 5 ==> kept.peak_in == 0 && kept.peak_out == 0
            &&& kept.bytes_in == stats.bytes_in && kept.bytes_out == stats.bytes_out
            &&& kept.first_in_ns == stats.first_in_ns && kept.first_out_ns == stats.first_out_ns
        }),
        1024 * stats.figures().in_kb <= stats.bytes_in < 1024 * stats.figures().in_kb + 1024,
        1024 * stats.figures().out_kb <= stats.bytes_out < 1024 * stats.figures().out_kb + 1024,
        stats.figures().peak_in == stats.peak_in,
        stats.figures().peak_out == stats.peak_out,
{
}

/// A text that is JSON is taken as the message that it is, whatever it says.
pub proof fn law_texts_are_taken_as_messages(
    scene: Scene,
    text: Seq<char>,
    json: crate::json::JsonView,
)
    requires
        crate::json::json_parsed(text) == Some(json),
    ensures
        scene.after(SignalView::Message(text)) == scene.after_event(
            crate::protocol::event_of(json),
        ),
{
}

} // verus!
