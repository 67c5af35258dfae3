//! The overlay's life from connection to exit, as a machine that is told what
//! happened and answers with what to request next.

use vstd::prelude::*;
use crate::animations::{lemma_playback_time, script, Animation};
use crate::command::{draw_count, lemma_totals_additive, sleep_nanos, Command};
use crate::config::{ConfigError, IndicatorConfig};
use crate::frame::sequence_spec;
use crate::placement::{origin_spec, window_origin, PointerPosition};
use crate::timing::{
    interval_nanos, interval_spec, Interval, NANOS_PER_MILLI, TRAILING_HOLD_MILLIS,
};

verus! {

/// Bits per pixel of a visual that carries an alpha channel.
pub const ALPHA_DEPTH: u8 = 32;

/// Which of an alpha-capable depth's visuals the overlay uses.
pub const ALPHA_VISUAL_INDEX: usize = 1;

/// Response type of the event that says a window has been exposed.
pub const EXPOSE: u8 = 12;

/// Bits of a response type that carry the event's kind; the remaining bit
/// marks an event that another client sent.
pub const RESPONSE_TYPE_MASK: u8 = 0x7F;

/// One of the depths that a screen allows, and how many visuals it offers.
#[derive(Clone, Copy, Debug, PartialEq, Eq, Structural)]
pub struct DepthInfo {
    pub depth: u8,
    pub visuals: usize,
}

/// Why no display could be used.
#[derive(Clone, Copy, Debug, PartialEq, Eq, Structural)]
pub enum ConnectionFault {
    /// The display server could not be reached.
    Unreachable,
    /// The connection names a screen that the server does not have.
    NoScreen,
}

/// Why the overlay was not shown at the pointer.
#[derive(Clone, Copy, Debug, PartialEq, Eq, Structural)]
pub enum TimingFault {
    /// The connection closed before any event arrived.
    NoNotification,
    /// The first event was of another kind than an exposure; its kind is kept.
    UnexpectedNotification(u8),
    /// Something was reported that the session was not waiting for.
    OutOfOrder,
}

/// Why a session ended without playing to the end.
#[derive(Clone, Copy, Debug, PartialEq, Eq, Structural)]
pub enum OverlayError {
    Connection(ConnectionFault),
    /// The screen offers no usable visual with an alpha channel.
    Capability,
    Config(ConfigError),
    ProtocolTiming(TimingFault),
}

/// Where a session stands.
#[derive(Clone, Copy, Debug, PartialEq, Eq, Structural)]
pub enum Stage {
    /// Nothing has been requested; the connection's outcome is awaited.
    Connecting,
    /// The window has been mapped; the first event is awaited.
    AwaitingVisibility,
    /// The window is visible; the pointer's position is awaited.
    AwaitingPointer,
    /// Everything has been requested, the trailing hold included.
    Finished,
    /// The session failed; nothing more will be requested.
    Aborted,
}

/// What the client reports to the session.
#[derive(Debug)]
pub enum Event {
    /// The connection stands; these are the depths its screen allows, in the
    /// server's order.
    Connected(Vec<DepthInfo>),
    /// The connection could not be made.
    ConnectFailed,
    /// The connection stands, but its screen does not exist.
    ScreenMissing,
    /// The wait for an event is over: the event's response type, or nothing
    /// where the connection closed.
    Notified(Option<u8>),
    /// The pointer's position on the root window.
    Pointer(PointerPosition),
}

/// Kind of the event with the given response type.
pub open spec fn event_kind(response_type: u8) -> u8 {
    response_type & RESPONSE_TYPE_MASK
}

/// Index of the first depth from `start` on that carries an alpha channel.
pub open spec fn first_alpha_from(depths: Seq<DepthInfo>, start: int) -> Option<int>
    decreases depths.len() - start,
{
    if start < 0 || start >= depths.len() {
        None
    } else if depths[start].depth == ALPHA_DEPTH {
        Some(start)
    } else {
        first_alpha_from(depths, start + 1)
    }
}

/// The depth and visual that the overlay uses: the first alpha-capable depth
/// and its visual at `ALPHA_VISUAL_INDEX`, where the depth has that many.
/// Later alpha-capable depths are not looked at.
pub open spec fn alpha_visual(depths: Seq<DepthInfo>) -> Option<(int, int)> {
    match first_alpha_from(depths, 0) {
        Some(d) => if depths[d].visuals > ALPHA_VISUAL_INDEX {
            Some((d, ALPHA_VISUAL_INDEX as int))
        } else {
            None
        },
        None => None,
    }
}

/// `first_alpha_from` finds an alpha-capable depth with none before it, and
/// finds nothing only where there is none.
pub proof fn lemma_first_alpha(depths: Seq<DepthInfo>, start: int)
    requires
        0 <= start,
    ensures
        match first_alpha_from(depths, start) {
            Some(d) => start <= d < depths.len() && depths[d].depth == ALPHA_DEPTH && forall|j: int|
                start <= j < d ==> depths[j].depth != ALPHA_DEPTH,
            None => forall|j: int| start <= j < depths.len() ==> depths[j].depth != ALPHA_DEPTH,
        },
    decreases depths.len() - start,
{
    if start < depths.len() && depths[start].depth != ALPHA_DEPTH {
        lemma_first_alpha(depths, start + 1);
    }
}

/// Picks the depth and the visual for the overlay's window: the first depth
/// of 32 bits and its second visual. Fails where no depth has 32 bits, or the
/// first that has offers fewer than two visuals.
pub fn select_visual(depths: &Vec<DepthInfo>) -> (r: Result<(usize, usize), OverlayError>)
    ensures
        match r {
            Ok((d, v)) => {
                &&& alpha_visual(depths@) == Some((d as int, v as int))
                &&& d < depths@.len()
                &&& depths@[d as int].depth == ALPHA_DEPTH
                &&& forall|j: int| 0 <= j < d ==> depths@[j].depth != ALPHA_DEPTH
                &&& v == ALPHA_VISUAL_INDEX
                &&& v < depths@[d as int].visuals
            },
            Err(e) => {
                &&& alpha_visual(depths@).is_none()
                &&& e == OverlayError::Capability
                &&& forall|j: int|
                    0 <= j < depths@.len() && depths@[j].depth == ALPHA_DEPTH ==> exists|i: int|
                        0 <= i <= j && depths@[i].depth == ALPHA_DEPTH && depths@[i].visuals
                            <= ALPHA_VISUAL_INDEX
            },
        },
{
    let mut k: usize = 0;
    while k < depths.len()
        invariant
            k <= depths@.len(),
            first_alpha_from(depths@, 0) == first_alpha_from(depths@, k as int),
        decreases depths@.len() - k,
    {
        if depths[k].depth == ALPHA_DEPTH {
            proof {
                lemma_first_alpha(depths@, 0);
            }
            if depths[k].visuals > ALPHA_VISUAL_INDEX {
                return Ok((k, ALPHA_VISUAL_INDEX));
            } else {
                return Err(OverlayError::Capability);
            }
        }
        k = k + 1;
    }
    proof {
        lemma_first_alpha(depths@, 0);
    }
    Err(OverlayError::Capability)
}

/// Tells whether an event with this response type says that a window has
/// been exposed, whoever sent it.
pub fn is_expose(response_type: u8) -> (b: bool)
    ensures
        b == (event_kind(response_type) == EXPOSE),
{
    response_type & RESPONSE_TYPE_MASK == EXPOSE
}

/// The requests that create the overlay's window and show it, ending in the
/// wait for the first event.
pub open spec fn setup_script(config: IndicatorConfig, depth: int, visual: int) -> Seq<Command> {
    seq![
        Command::CreateColormap { depth_index: depth as usize, visual_index: visual as usize },
        Command::CreateWindow { size: config.padded_size().unwrap() },
        Command::CreateGraphicsContext { color: config.color, line_width: config.thickness },
        Command::FreeColormap,
        Command::SetWindowType,
        Command::SetStayOnTop,
        Command::MapWindow,
        Command::Flush,
        Command::WaitForEvent,
    ]
}

/// The requests that centre the window on the pointer, play the animation and
/// leave its last frame on screen for the trailing hold.
pub open spec fn show_script(config: IndicatorConfig, pointer: PointerPosition) -> Seq<Command> {
    let size = config.padded_size().unwrap();
    seq![
        Command::MoveWindow {
            x: origin_spec(pointer.x, size) as u32,
            y: origin_spec(pointer.y, size) as u32,
        },
        Command::Flush,
    ] + script(
        sequence_spec(config.max_size, config.frame_count, config.animation_kind),
        config.animation_kind.clears(),
        interval_spec(config.duration, config.frame_count),
    ) + seq![Command::Sleep(Interval { millis: TRAILING_HOLD_MILLIS, nanos: 0 })]
}

/// What a session of `config` at `stage` answers to `event`: the stage it
/// moves to, and the requests to carry out in order or the reason for which
/// it gives up.
///
/// A session waits for one thing at a time. What it waits for moves it on;
/// anything else ends it, and once it has ended it stays as it is.
pub open spec fn respond(config: IndicatorConfig, stage: Stage, event: Event) -> (
    Stage,
    Result<Seq<Command>, OverlayError>,
) {
    match (stage, event) {
        (Stage::Connecting, Event::Connected(depths)) => match alpha_visual(depths@) {
            Some((d, v)) => (Stage::AwaitingVisibility, Ok(setup_script(config, d, v))),
            None => (Stage::Aborted, Err(OverlayError::Capability)),
        },
        (Stage::Connecting, Event::ConnectFailed) => (
            Stage::Aborted,
            Err(OverlayError::Connection(ConnectionFault::Unreachable)),
        ),
        (Stage::Connecting, Event::ScreenMissing) => (
            Stage::Aborted,
            Err(OverlayError::Connection(ConnectionFault::NoScreen)),
        ),
        (Stage::AwaitingVisibility, Event::Notified(None)) => (
            Stage::Aborted,
            Err(OverlayError::ProtocolTiming(TimingFault::NoNotification)),
        ),
        (Stage::AwaitingVisibility, Event::Notified(Some(response_type))) => if event_kind(
            response_type,
        ) == EXPOSE {
            (Stage::AwaitingPointer, Ok(seq![Command::QueryPointer]))
        } else {
            (
                Stage::Aborted,
                Err(
                    OverlayError::ProtocolTiming(
                        TimingFault::UnexpectedNotification(event_kind(response_type)),
                    ),
                ),
            )
        },
        (Stage::AwaitingPointer, Event::Pointer(pointer)) => (
            Stage::Finished,
            Ok(show_script(config, pointer)),
        ),
        (Stage::Finished, _) => (
            Stage::Finished,
            Err(OverlayError::ProtocolTiming(TimingFault::OutOfOrder)),
        ),
        _ => (Stage::Aborted, Err(OverlayError::ProtocolTiming(TimingFault::OutOfOrder))),
    }
}

/// One run of the overlay.
#[derive(Debug)]
pub struct OverlaySession {
    config: IndicatorConfig,
    animation: Animation,
    surface_size: u16,
    stage: Stage,
}

/// What a session is, for its callers: the configuration it runs and where it
/// stands.
pub struct SessionView {
    pub config: IndicatorConfig,
    pub stage: Stage,
}

impl View for OverlaySession {
    type V = SessionView;

    closed spec fn view(&self) -> SessionView {
        SessionView { config: self.config, stage: self.stage }
    }
}

impl OverlaySession {
    #[verifier::type_invariant]
    spec fn inv(self) -> bool {
        &&& self.config.fault().is_none()
        &&& self.config.padded_size() == Some(self.surface_size)
        &&& self.animation.frames@ == sequence_spec(
            self.config.max_size,
            self.config.frame_count,
            self.config.animation_kind,
        )
        &&& self.animation.clear == self.config.animation_kind.clears()
        &&& self.animation.duration_per_frame == interval_spec(
            self.config.duration,
            self.config.frame_count,
        )
    }

    /// Starts a session for a valid configuration, before anything is
    /// requested of the display; any other configuration is rejected with its
    /// first fault.
    pub fn new(config: IndicatorConfig) -> (r: Result<OverlaySession, OverlayError>)
        ensures
            match r {
                Ok(s) => config.fault().is_none() && s@ == (SessionView {
                    config,
                    stage: Stage::Connecting,
                }),
                Err(e) => config.fault().is_some() && e == OverlayError::Config(
                    config.fault().unwrap(),
                ),
            },
    {
        match Animation::from_config(config) {
            Err(e) => Err(OverlayError::Config(e)),
            Ok(animation) => match config.surface_size() {
                None => Err(OverlayError::Config(ConfigError::SurfaceTooLarge)),
                Some(surface_size) => Ok(
                    OverlaySession { config, animation, surface_size, stage: Stage::Connecting },
                ),
            },
        }
    }

    /// Where the session stands.
    pub fn stage(&self) -> (s: Stage)
        ensures
            s == self@.stage,
    {
        self.stage
    }

    /// The configuration that the session runs.
    pub fn config(&self) -> (c: IndicatorConfig)
        ensures
            c == self@.config,
            c.fault().is_none(),
    {
        proof {
            use_type_invariant(self);
        }
        self.config
    }

    /// Side of the overlay's window.
    pub fn surface_size(&self) -> (s: u16)
        ensures
            self@.config.padded_size() == Some(s),
    {
        proof {
            use_type_invariant(self);
        }
        self.surface_size
    }

    /// Tells the session what happened, and returns what to request next, in
    /// order, or why the session gives up.
    pub fn advance(&mut self, event: Event) -> (r: Result<Vec<Command>, OverlayError>)
        ensures
            final(self)@.config == old(self)@.config,
            final(self)@.stage == respond(old(self)@.config, old(self)@.stage, event).0,
            match respond(old(self)@.config, old(self)@.stage, event).1 {
                Ok(commands) => r.is_ok() && r.unwrap()@ == commands,
                Err(e) => r == Err::<Vec<Command>, OverlayError>(e),
            },
    {
        proof {
            use_type_invariant(&*self);
        }
        match (self.stage, event) {
            (Stage::Connecting, Event::Connected(depths)) => match select_visual(&depths) {
                Ok((d, v)) => {
                    self.stage = Stage::AwaitingVisibility;
                    let mut commands: Vec<Command> = Vec::new();
                    commands.push(Command::CreateColormap { depth_index: d, visual_index: v });
                    commands.push(Command::CreateWindow { size: self.surface_size });
                    commands.push(
                        Command::CreateGraphicsContext {
                            color: self.config.color,
                            line_width: self.config.thickness,
                        },
                    );
                    commands.push(Command::FreeColormap);
                    commands.push(Command::SetWindowType);
                    commands.push(Command::SetStayOnTop);
                    commands.push(Command::MapWindow);
                    commands.push(Command::Flush);
                    commands.push(Command::WaitForEvent);
                    assert(commands@ =~= setup_script(self.config, d as int, v as int));
                    Ok(commands)
                },
                Err(e) => {
                    self.stage = Stage::Aborted;
                    Err(e)
                },
            },
            (Stage::Connecting, Event::ConnectFailed) => {
                self.stage = Stage::Aborted;
                Err(OverlayError::Connection(ConnectionFault::Unreachable))
            },
            (Stage::Connecting, Event::ScreenMissing) => {
                self.stage = Stage::Aborted;
                Err(OverlayError::Connection(ConnectionFault::NoScreen))
            },
            (Stage::AwaitingVisibility, Event::Notified(None)) => {
                self.stage = Stage::Aborted;
                Err(OverlayError::ProtocolTiming(TimingFault::NoNotification))
            },
            (Stage::AwaitingVisibility, Event::Notified(Some(response_type))) => {
                if is_expose(response_type) {
                    self.stage = Stage::AwaitingPointer;
                    let mut commands: Vec<Command> = Vec::new();
                    commands.push(Command::QueryPointer);
                    assert(commands@ =~= seq![Command::QueryPointer]);
                    Ok(commands)
                } else {
                    self.stage = Stage::Aborted;
                    Err(
                        OverlayError::ProtocolTiming(
                            TimingFault::UnexpectedNotification(
                                response_type & RESPONSE_TYPE_MASK,
                            ),
                        ),
                    )
                }
            },
            (Stage::AwaitingPointer, Event::Pointer(pointer)) => {
                self.stage = Stage::Finished;
                let origin: (u32, u32) = window_origin(self.surface_size, pointer);
                let mut commands: Vec<Command> = Vec::new();
                commands.push(Command::MoveWindow { x: origin.0, y: origin.1 });
                commands.push(Command::Flush);
                let mut played: Vec<Command> = self.animation.play();
                commands.append(&mut played);
                commands.push(Command::Sleep(Interval::from_millis(TRAILING_HOLD_MILLIS)));
                assert(commands@ =~= show_script(self.config, pointer));
                Ok(commands)
            },
            (Stage::Finished, _) => Err(OverlayError::ProtocolTiming(TimingFault::OutOfOrder)),
            _ => {
                self.stage = Stage::Aborted;
                Err(OverlayError::ProtocolTiming(TimingFault::OutOfOrder))
            },
        }
    }
}

/// Showing the overlay strokes every frame once, and blocks for the frames'
/// paces and the trailing hold, no more.
pub proof fn lemma_show_totals(config: IndicatorConfig, pointer: PointerPosition)
    requires
        config.fault().is_none(),
    ensures
        draw_count(show_script(config, pointer)) == config.frame_count,
        sleep_nanos(show_script(config, pointer)) == config.frame_count * interval_nanos(
            config.duration,
            config.frame_count,
        ) + TRAILING_HOLD_MILLIS * NANOS_PER_MILLI,
{
    let size = config.padded_size().unwrap();
    let placing = seq![
        Command::MoveWindow {
            x: origin_spec(pointer.x, size) as u32,
            y: origin_spec(pointer.y, size) as u32,
        },
        Command::Flush,
    ];
    let playing = script(
        sequence_spec(config.max_size, config.frame_count, config.animation_kind),
        config.animation_kind.clears(),
        interval_spec(config.duration, config.frame_count),
    );
    let holding = seq![Command::Sleep(Interval { millis: TRAILING_HOLD_MILLIS, nanos: 0 })];
    lemma_playback_time(config);
    lemma_totals_additive(placing, playing);
    lemma_totals_additive(placing + playing, holding);
    assert(draw_count(placing) == 0 && sleep_nanos(placing) == 0) by {
        assert(placing.drop_last().drop_last().len() == 0);
        reveal_with_fuel(draw_count, 3);
        reveal_with_fuel(sleep_nanos, 3);
    }
    assert(draw_count(holding) == 0 && sleep_nanos(holding) == TRAILING_HOLD_MILLIS
        * NANOS_PER_MILLI) by {
        assert(holding.drop_last().len() == 0);
        reveal_with_fuel(draw_count, 2);
        reveal_with_fuel(sleep_nanos, 2);
    }
}

/// Nothing is stroked before the window is visible and the pointer known: a
/// session answers with a stroke only to the pointer's position, while it
/// waits for it.
pub proof fn lemma_draws_need_pointer(config: IndicatorConfig, stage: Stage, event: Event)
    requires
        respond(config, stage, event).1.is_ok(),
        draw_count(respond(config, stage, event).1.unwrap()) > 0,
    ensures
        stage == Stage::AwaitingPointer,
        event is Pointer,
        respond(config, stage, event).0 == Stage::Finished,
{
    let commands = respond(config, stage, event).1.unwrap();
    if stage == Stage::Connecting {
        let tail8 = commands.drop_last();
        let tail7 = tail8.drop_last();
        let tail6 = tail7.drop_last();
        let tail5 = tail6.drop_last();
        let tail4 = tail5.drop_last();
        let tail3 = tail4.drop_last();
        let tail2 = tail3.drop_last();
        let tail1 = tail2.drop_last();
        assert(tail1.drop_last().len() == 0);
        reveal_with_fuel(draw_count, 10);
        assert(draw_count(commands) == 0);
    } else if stage == Stage::AwaitingVisibility {
        assert(commands.drop_last().len() == 0);
        reveal_with_fuel(draw_count, 2);
        assert(draw_count(commands) == 0);
    }
}

/// A session that has ended stays as it is and asks for nothing more.
pub proof fn lemma_ended_is_final(config: IndicatorConfig, stage: Stage, event: Event)
    requires
        stage == Stage::Finished || stage == Stage::Aborted,
    ensures
        respond(config, stage, event).0 == stage,
        respond(config, stage, event).1 == Err::<Seq<Command>, OverlayError>(
            OverlayError::ProtocolTiming(TimingFault::OutOfOrder),
        ),
{
}

/// A first event that is no exposure ends the session without a request.
pub proof fn lemma_unexpected_notification_aborts(config: IndicatorConfig, response_type: u8)
    requires
        event_kind(response_type) != EXPOSE,
    ensures
        respond(config, Stage::AwaitingVisibility, Event::Notified(Some(response_type))) == (
            Stage::Aborted,
            Err::<Seq<Command>, OverlayError>(
                OverlayError::ProtocolTiming(
                    TimingFault::UnexpectedNotification(event_kind(response_type)),
                ),
            ),
        ),
{
}

} // verus!
