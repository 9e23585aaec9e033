//! What the command-line program prints about a session.
use vstd::prelude::*;
use vstd::string::StringExecFns;

use crate::protocol::{EventView, ServerEvent};
use crate::ring::SampleRing;
use crate::session::{Action, Session};
use crate::status::Speech;
use crate::text::{decimal_text, join2, join3};

verus! {

/// Something to print.
#[derive(Debug)]
pub enum Print {
    Nothing,
    /// To the standard output, with the end of the line.
    Line(String),
    /// To the standard output as it stands, at once.
    Piece(String),
    /// To the standard error, with the end of the line.
    Complaint(String),
}

/// The meaning of a [`Print`].
pub enum PrintView {
    Nothing,
    Line(Seq<char>),
    Piece(Seq<char>),
    Complaint(Seq<char>),
}

impl View for Print {
    type V = PrintView;

    open spec fn view(&self) -> PrintView {
        match self {
            Print::Nothing => PrintView::Nothing,
            Print::Line(text) => PrintView::Line(text@),
            Print::Piece(text) => PrintView::Piece(text@),
            Print::Complaint(text) => PrintView::Complaint(text@),
        }
    }
}

/// The seconds since the session started, in brackets.
pub open spec fn stamped(stamp: Seq<char>) -> Seq<char> {
    "["@ + stamp + "s] "@
}

/// The line about a session that was set up.
pub open spec fn session_line(
    stamp: Seq<char>,
    name: Seq<char>,
    language: Seq<char>,
    model: Seq<char>,
) -> Seq<char> {
    stamped(stamp) + name + " | server target lang="@ + language + " | model="@ + model
}

/// The line about the first translated audio.
pub open spec fn first_audio_line(stamp: Seq<char>, latency_ms: u64) -> Seq<char> {
    stamped(stamp) + "First translated audio out ("@ + crate::text::decimal(latency_ms as nat)
        + "ms after first audio in)"@
}

/// What is printed about a message of the service that is no audio. What was said comes in
/// grey.
pub open spec fn printed(stamp: Seq<char>, event: EventView, debug: bool) -> PrintView {
    match event {
        EventView::Session { name, language, model } => PrintView::Line(
            session_line(stamp, name, language, model),
        ),
        EventView::Transcript { speech, delta: Some(delta) } => match speech {
            Speech::Translated => PrintView::Piece(delta),
            Speech::Source => PrintView::Piece("\x1b[90m"@ + delta + "\x1b[0m"@),
        },
        EventView::TranscriptDone { speech: Speech::Translated, .. } => PrintView::Line(
            Seq::empty(),
        ),
        EventView::TranscriptDone { speech: Speech::Source, spoken: Some(language) } =>
            PrintView::Line("\n"@ + stamped(stamp) + "Source language detected: "@ + language),
        EventView::Error { detail } => PrintView::Complaint(
            "\n"@ + stamped(stamp) + "ERROR: "@ + detail,
        ),
        EventView::Other { name } => if debug {
            PrintView::Line("[ws] "@ + name)
        } else {
            PrintView::Nothing
        },
        _ => PrintView::Nothing,
    }
}

/// Prints the seconds since the session started, in brackets.
fn stamp_text(stamp: &str) -> (r: String)
    ensures
        r@ == stamped(stamp@),
{
    join3("[", stamp, "s] ")
}

/// What to print about a message of the service that is no audio.
pub fn print_event(stamp: &str, event: &ServerEvent, debug: bool) -> (r: Print)
    ensures
        r@ == printed(stamp@, event@, debug),
{
    match event {
        ServerEvent::Session { name, language, model } => {
            let mut line: String = stamp_text(stamp);
            line.append(name.as_str());
            line.append(" | server target lang=");
            line.append(language.as_str());
            line.append(" | model=");
            line.append(model.as_str());
            Print::Line(line)
        },
        ServerEvent::Transcript { speech, delta } => match delta {
            Some(text) => match speech {
                Speech::Translated => Print::Piece(text.clone()),
                Speech::Source => Print::Piece(join3("\x1b[90m", text.as_str(), "\x1b[0m")),
            },
            None => Print::Nothing,
        },
        ServerEvent::TranscriptDone { speech, spoken } => match speech {
            Speech::Translated => Print::Line(String::new()),
            Speech::Source => match spoken {
                Some(language) => {
                    let mut line: String = join2("\n", stamp_text(stamp).as_str());
                    line.append("Source language detected: ");
                    line.append(language.as_str());
                    Print::Line(line)
                },
                None => Print::Nothing,
            },
        },
        ServerEvent::Error { detail } => {
            let mut line: String = join2("\n", stamp_text(stamp).as_str());
            line.append("ERROR: ");
            line.append(detail.as_str());
            Print::Complaint(line)
        },
        ServerEvent::Other { name } => if debug {
            Print::Line(join2("[ws] ", name.as_str()))
        } else {
            Print::Nothing
        },
        ServerEvent::Audio { .. } => Print::Nothing,
    }
}

/// What is printed about a message of the service, the session's latency being told with the
/// first audio that can be decoded.
pub open spec fn heard_and_printed(
    stamp: Seq<char>,
    scene: crate::session::Scene,
    event: EventView,
    debug: bool,
) -> PrintView {
    match event {
        EventView::Audio { .. } => match scene.after_event(event).action {
            crate::session::ActionView::Played { latency_ms: Some(latency_ms), .. } =>
                PrintView::Line(first_audio_line(stamp, latency_ms)),
            _ => PrintView::Nothing,
        },
        _ => printed(stamp, event, debug),
    }
}

/// The session's statistics and its queue once the command-line program took a message: only
/// audio changes them.
pub open spec fn taken(scene: crate::session::Scene, event: EventView) -> (
    crate::session::SessionStats,
    Seq<i16>,
) {
    if event is Audio {
        (scene.after_event(event).stats, scene.after_event(event).queue)
    } else {
        (scene.stats, scene.queue)
    }
}

/// Takes a message of the service for the command-line program: audio is queued for playback,
/// anything else is printed.
pub fn take_event(
    session: &mut Session,
    event: ServerEvent,
    ring: &mut SampleRing,
    now_ns: u64,
    stamp: &str,
    debug: bool,
) -> (r: Print)
    ensures
        r@ == heard_and_printed(stamp@, old(session).scene(*old(ring), now_ns), event@, debug),
        (final(session).stats, final(ring)@) == taken(
            old(session).scene(*old(ring), now_ns),
            event@,
        ),
        event@ is Audio ==> {
            let step = old(session).scene(*old(ring), now_ns).after_event(event@);
            final(session).stats == step.stats && final(ring)@ == step.queue
        },
        !(event@ is Audio) ==> final(session).stats == old(session).stats && final(ring)@ == old(
            ring,
        )@,
        final(session).direction == old(session).direction,
        final(session).target == old(session).target,
        final(ring).capacity() == old(ring).capacity(),
{
    match event {
        ServerEvent::Audio { delta } => match session.on_event(
            ServerEvent::Audio { delta },
            ring,
            now_ns,
        ) {
            Action::Played { dropped, latency_ms } => match latency_ms {
                Some(latency) => {
                    let mut line: String = stamp_text(stamp);
                    line.append("First translated audio out (");
                    line.append(decimal_text(latency).as_str());
                    line.append("ms after first audio in)");
                    Print::Line(line)
                },
                None => Print::Nothing,
            },
            _ => Print::Nothing,
        },
        other => print_event(stamp, &other, debug),
    }
}

/// Whatever happened before, a piece of the translation is printed as it stands and a piece of
/// what was said in grey; a message without a piece prints nothing.
pub proof fn law_pieces_are_printed(
    stamp: Seq<char>,
    scene: crate::session::Scene,
    delta: Seq<char>,
    debug: bool,
)
    ensures
        heard_and_printed(
            stamp,
            scene,
            EventView::Transcript { speech: Speech::Translated, delta: Some(delta) },
            debug,
        ) == PrintView::Piece(delta),
        heard_and_printed(
            stamp,
            scene,
            EventView::Transcript { speech: Speech::Source, delta: Some(delta) },
            debug,
        ) == PrintView::Piece("\x1b[90m"@ + delta + "\x1b[0m"@),
        forall|speech: Speech|
            #[trigger] heard_and_printed(
                stamp,
                scene,
                EventView::Transcript { speech, delta: None },
                debug,
            ) == PrintView::Nothing,
{
}

/// A message that the command-line program takes: the seconds, the session and its queue, what
/// the message says, and whether unknown types are printed.
pub struct Taken {
    pub stamp: Seq<char>,
    pub scene: crate::session::Scene,
    pub event: EventView,
    pub debug: bool,
}

/// The pieces that a run of messages prints, one behind the other.
pub open spec fn pieces_printed(run: Seq<Taken>) -> Seq<char>
    decreases run.len(),
{
    if run.len() == 0 {
        Seq::empty()
    } else {
        let last = run.last();
        pieces_printed(run.drop_last()) + match heard_and_printed(
            last.stamp,
            last.scene,
            last.event,
            last.debug,
        ) {
            PrintView::Piece(text) => text,
            _ => Seq::empty(),
        }
    }
}

/// The transcript that a run of messages carries, what was said in grey.
pub open spec fn transcript_carried(run: Seq<Taken>) -> Seq<char>
    decreases run.len(),
{
    if run.len() == 0 {
        Seq::empty()
    } else {
        transcript_carried(run.drop_last()) + match run.last().event {
            EventView::Transcript { speech: Speech::Translated, delta: Some(delta) } => delta,
            EventView::Transcript { speech: Speech::Source, delta: Some(delta) } => "\x1b[90m"@
                + delta + "\x1b[0m"@,
            _ => Seq::empty(),
        }
    }
}

/// Over any run of messages the pieces that are printed are the transcript that the messages
/// carry: nothing of it is left out, and no other message prints a piece.
pub proof fn law_pieces_make_the_transcript(run: Seq<Taken>)
    ensures
        pieces_printed(run) == transcript_carried(run),
    decreases run.len(),
{
    if run.len() > 0 {
        law_pieces_make_the_transcript(run.drop_last());
    }
}

/// Every other message that is no audio is printed as a line: the session with its language and
/// model, the end of the translation as the end of its line, the end of what was said with its
/// language where it is known, an error to the standard error, and any other type only on demand.
pub proof fn law_lines_are_printed(
    stamp: Seq<char>,
    scene: crate::session::Scene,
    name: Seq<char>,
    language: Seq<char>,
    model: Seq<char>,
    debug: bool,
)
    ensures
        ({
            let seconds = "["@ + stamp + "s] "@;
            let print = |event: EventView| heard_and_printed(stamp, scene, event, debug);
            &&& print(EventView::Session { name, language, model }) == PrintView::Line(
                seconds + name + " | server target lang="@ + language + " | model="@ + model,
            )
            &&& print(
                EventView::TranscriptDone { speech: Speech::Source, spoken: Some(language) },
            ) == PrintView::Line("\n"@ + seconds + "Source language detected: "@ + language)
            &&& print(EventView::TranscriptDone { speech: Speech::Source, spoken: None })
                == PrintView::Nothing
            &&& forall|spoken: Option<Seq<char>>|
                heard_and_printed(
                    stamp,
                    scene,
                    #[trigger] translation_end(spoken),
                    debug,
                ) == PrintView::Line(Seq::empty())
            &&& print(EventView::Error { detail: name }) == PrintView::Complaint(
                "\n"@ + seconds + "ERROR: "@ + name,
            )
            &&& debug ==> print(EventView::Other { name }) == PrintView::Line("[ws] "@ + name)
            &&& !debug ==> print(EventView::Other { name }) == PrintView::Nothing
        }),
{
}

/// The end of a translation.
pub open spec fn translation_end(spoken: Option<Seq<char>>) -> EventView {
    EventView::TranscriptDone { speech: Speech::Translated, spoken }
}

/// The first audio that comes is announced with the whole milliseconds since audio was first
/// given; no later audio, and none that cannot be decoded, is announced.
pub proof fn law_first_audio_is_announced(
    stamp: Seq<char>,
    scene: crate::session::Scene,
    bytes: Seq<u8>,
    delta: Seq<char>,
    debug: bool,
)
    requires
        scene.queue.len() <= scene.capacity,
    ensures
        ({
            let audio = EventView::Audio { delta: Some(crate::codec::base64_encoded(bytes)) };
            let print = heard_and_printed(stamp, scene, audio, debug);
            &&& scene.stats.first_out_ns is Some ==> print == PrintView::Nothing
            &&& scene.stats.first_out_ns is None ==> exists|latency: u64|
                {
                    &&& #[trigger] crate::session::is_latency(
                        scene.stats.first_in_ns,
                        None,
                        scene.now_ns,
                        Some(latency),
                    )
                    &&& print == PrintView::Line(
                        "["@ + stamp + "s] "@ + "First translated audio out ("@
                            + crate::text::decimal(latency as nat) + "ms after first audio in)"@,
                    )
                }
        }),
        (forall|b: Seq<u8>| #[trigger] crate::codec::base64_encoded(b) != delta)
            ==> heard_and_printed(stamp, scene, EventView::Audio { delta: Some(delta) }, debug)
            == PrintView::Nothing,
        heard_and_printed(stamp, scene, EventView::Audio { delta: None }, debug)
            == PrintView::Nothing,
{
    crate::session::law_received_audio_is_queued(scene, bytes, delta);
    let audio = EventView::Audio { delta: Some(crate::codec::base64_encoded(bytes)) };
    let latency_ms = scene.after_event(audio).action->latency_ms;
    if scene.stats.first_out_ns is None {
        assert(crate::session::is_latency(
            scene.stats.first_in_ns,
            None,
            scene.now_ns,
            Some(latency_ms->0),
        ));
    }
}

/// On the command line audio is queued and counted as in any session, and no other message
/// touches the session or its queue.
pub proof fn law_only_audio_is_taken(scene: crate::session::Scene, event: EventView)
    ensures
        event is Audio ==> taken(scene, event) == (
            scene.after_event(event).stats,
            scene.after_event(event).queue,
        ),
        !(event is Audio) ==> taken(scene, event) == (scene.stats, scene.queue),
{
}

/// What is printed about a message by itself is what is printed when it is taken, audio left
/// aside, which says nothing by itself.
pub proof fn law_messages_print_alike(
    stamp: Seq<char>,
    scene: crate::session::Scene,
    event: EventView,
    debug: bool,
)
    ensures
        event is Audio ==> printed(stamp, event, debug) == PrintView::Nothing,
        !(event is Audio) ==> printed(stamp, event, debug) == heard_and_printed(
            stamp,
            scene,
            event,
            debug,
        ),
{
}

} // verus!
