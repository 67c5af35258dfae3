//! An animation: its frames, their pace, and the script that plays them.

use vstd::prelude::*;
use vstd::arithmetic::div_mod::lemma_fundamental_div_mod;
use crate::command::{
    clear_region, clear_region_spec, draw_count, lemma_totals_additive, sleep_nanos, Command,
};
use crate::config::{ConfigError, IndicatorConfig};
use crate::frame::{frame_at, frame_sequence, frame_spec, frames_of, sequence_spec, Frame};
use crate::timing::{
    frame_interval, interval_nanos, interval_spec, lemma_interval_parts,
    lemma_playback_fits_duration, Interval, NANOS_PER_MILLI,
};

verus! {

/// Frames in playback order, the time each is shown, and whether each is
/// erased after it has been shown.
#[derive(Debug)]
pub struct Animation {
    pub duration_per_frame: Interval,
    pub frames: Vec<Frame>,
    pub clear: bool,
}

/// The requests for one frame: stroke it, send, erase it where asked, wait.
pub open spec fn frame_steps(frame: Frame, clear: bool, pace: Interval) -> Seq<Command> {
    if clear {
        seq![
            Command::Draw(frame),
            Command::Flush,
            Command::Clear(clear_region_spec(frame)),
            Command::Sleep(pace),
        ]
    } else {
        seq![Command::Draw(frame), Command::Flush, Command::Sleep(pace)]
    }
}

/// The requests for a run of frames: those of each frame, in the frames' order.
pub open spec fn script(frames: Seq<Frame>, clear: bool, pace: Interval) -> Seq<Command>
    decreases frames.len(),
{
    if frames.len() == 0 {
        Seq::empty()
    } else {
        script(frames.drop_last(), clear, pace) + frame_steps(frames.last(), clear, pace)
    }
}

/// Number of requests per frame.
pub open spec fn stride(clear: bool) -> int {
    if clear {
        4
    } else {
        3
    }
}

impl Animation {
    /// Builds the animation whose frames are the circles with the given
    /// indices, in that order. A configuration without frames is rejected.
    pub fn circles(config: IndicatorConfig, indices: &[u16], clear: bool) -> (r: Result<
        Animation,
        ConfigError,
    >)
        ensures
            match r {
                Ok(a) => config.frame_count > 0 && a.frames@ == frames_of(
                    config.max_size,
                    config.frame_count,
                    indices@,
                ) && a.clear == clear && a.duration_per_frame == interval_spec(
                    config.duration,
                    config.frame_count,
                ),
                Err(e) => config.frame_count == 0 && e == ConfigError::InvalidFrameCount,
            },
    {
        if config.frame_count == 0 {
            return Err(ConfigError::InvalidFrameCount);
        }
        let pace: Interval = frame_interval(config.duration, config.frame_count);
        let mut frames: Vec<Frame> = Vec::new();
        let mut k: usize = 0;
        while k < indices.len()
            invariant
                config.frame_count > 0,
                k <= indices@.len(),
                frames@.len() == k,
                forall|j: int|
                    0 <= j < k ==> frames@[j] == frame_spec(
                        config.max_size,
                        config.frame_count,
                        #[trigger] indices@[j],
                    ),
            decreases indices@.len() - k,
        {
            frames.push(frame_at(config.max_size, config.frame_count, indices[k]));
            k = k + 1;
        }
        assert(frames@ =~= frames_of(config.max_size, config.frame_count, indices@));
        Ok(Animation { duration_per_frame: pace, frames, clear })
    }

    /// Builds the animation that a configuration describes: the frames of its
    /// kind, erased after showing for the outline kinds. A configuration that
    /// is not valid is rejected with its first fault.
    pub fn from_config(config: IndicatorConfig) -> (r: Result<Animation, ConfigError>)
        ensures
            match r {
                Ok(a) => config.fault().is_none() && a.frames@ == sequence_spec(
                    config.max_size,
                    config.frame_count,
                    config.animation_kind,
                ) && a.clear == config.animation_kind.clears() && a.duration_per_frame
                    == interval_spec(config.duration, config.frame_count),
                Err(e) => config.fault() == Some(e),
            },
    {
        match config.validate() {
            Err(e) => Err(e),
            Ok(()) => {
                match frame_sequence(config.max_size, config.frame_count, config.animation_kind) {
                    Err(e) => Err(e),
                    Ok(frames) => Ok(
                        Animation {
                            duration_per_frame: frame_interval(config.duration, config.frame_count),
                            frames,
                            clear: config.animation_kind.is_clearing(),
                        },
                    ),
                }
            },
        }
    }

    /// The requests that play the animation once, in order: for each frame,
    /// stroke it, send, erase it if the animation clears, then wait one pace.
    pub fn play(&self) -> (commands: Vec<Command>)
        ensures
            commands@ == script(self.frames@, self.clear, self.duration_per_frame),
            commands@.len() == stride(self.clear) * self.frames@.len(),
    {
        proof {
            lemma_script_layout(self.frames@, self.clear, self.duration_per_frame);
        }
        let mut commands: Vec<Command> = Vec::new();
        let mut k: usize = 0;
        while k < self.frames.len()
            invariant
                k <= self.frames@.len(),
                commands@ == script(self.frames@.take(k as int), self.clear, self.duration_per_frame),
            decreases self.frames@.len() - k,
        {
            let frame: Frame = self.frames[k];
            let ghost before = commands@;
            commands.push(Command::Draw(frame));
            commands.push(Command::Flush);
            if self.clear {
                commands.push(Command::Clear(clear_region(frame)));
            }
            commands.push(Command::Sleep(self.duration_per_frame));
            proof {
                let next = self.frames@.take(k + 1);
                assert(next.drop_last() =~= self.frames@.take(k as int));
                assert(next.last() == frame);
                assert(commands@ =~= before + frame_steps(
                    frame,
                    self.clear,
                    self.duration_per_frame,
                ));
            }
            k = k + 1;
        }
        assert(self.frames@.take(k as int) =~= self.frames@);
        commands
    }
}

/// The requests of one frame: one stroke, one wait of a pace.
pub proof fn lemma_frame_steps_totals(frame: Frame, clear: bool, pace: Interval)
    ensures
        frame_steps(frame, clear, pace).len() == stride(clear),
        draw_count(frame_steps(frame, clear, pace)) == 1,
        sleep_nanos(frame_steps(frame, clear, pace)) == pace.total_nanos(),
{
    let s = frame_steps(frame, clear, pace);
    if clear {
        let s3 = s.drop_last();
        let s2 = s3.drop_last();
        let s1 = s2.drop_last();
        assert(s1.drop_last().len() == 0);
        reveal_with_fuel(draw_count, 5);
        reveal_with_fuel(sleep_nanos, 5);
        assert(draw_count(s) == 1);
        assert(sleep_nanos(s) == pace.total_nanos());
    } else {
        let s2 = s.drop_last();
        let s1 = s2.drop_last();
        assert(s1.drop_last().len() == 0);
        reveal_with_fuel(draw_count, 4);
        reveal_with_fuel(sleep_nanos, 4);
        assert(draw_count(s) == 1);
        assert(sleep_nanos(s) == pace.total_nanos());
    }
}

/// A script holds the requests of frame `k` at `stride * k`, and nothing else.
pub proof fn lemma_script_layout(frames: Seq<Frame>, clear: bool, pace: Interval)
    ensures
        script(frames, clear, pace).len() == stride(clear) * frames.len(),
        forall|k: int|
            0 <= k < frames.len() ==> script(frames, clear, pace).subrange(
                stride(clear) * k,
                stride(clear) * k + stride(clear),
            ) == #[trigger] frame_steps(frames[k], clear, pace),
    decreases frames.len(),
{
    if frames.len() > 0 {
        let head = frames.drop_last();
        let before = script(head, clear, pace);
        let last = frame_steps(frames.last(), clear, pace);
        let whole = script(frames, clear, pace);
        let st = stride(clear);
        lemma_script_layout(head, clear, pace);
        assert(whole == before + last);
        assert(last.len() == st);
        assert(st * frames.len() == st * head.len() + st) by (nonlinear_arith)
            requires
                frames.len() == head.len() + 1,
        ;
        assert forall|k: int| 0 <= k < frames.len() implies whole.subrange(st * k, st * k + st)
            == #[trigger] frame_steps(frames[k], clear, pace) by {
            let lo = st * k;
            if k < head.len() {
                assert(0 <= lo && lo + st <= st * head.len()) by (nonlinear_arith)
                    requires
                        lo == st * k,
                        0 <= k,
                        k + 1 <= head.len(),
                        0 <= st,
                ;
                assert(head[k] == frames[k]);
                assert(whole.subrange(lo, lo + st) =~= before.subrange(lo, lo + st));
            } else {
                assert(lo == before.len());
                assert(whole.subrange(lo, lo + st) =~= last);
            }
        }
    }
}

/// Playing strokes each frame once and waits one pace per frame.
pub proof fn lemma_script_totals(frames: Seq<Frame>, clear: bool, pace: Interval)
    ensures
        draw_count(script(frames, clear, pace)) == frames.len(),
        sleep_nanos(script(frames, clear, pace)) == frames.len() * pace.total_nanos(),
    decreases frames.len(),
{
    if frames.len() > 0 {
        let head = frames.drop_last();
        lemma_script_totals(head, clear, pace);
        lemma_frame_steps_totals(frames.last(), clear, pace);
        lemma_totals_additive(
            script(head, clear, pace),
            frame_steps(frames.last(), clear, pace),
        );
        assert(frames.len() * pace.total_nanos() == head.len() * pace.total_nanos()
            + pace.total_nanos()) by (nonlinear_arith)
            requires
                frames.len() == head.len() + 1,
        ;
    }
}

/// The animation of a valid configuration strokes `frame_count` circles and
/// waits `frame_count` times the pace in all: never longer than `duration`,
/// and short of it by less than a nanosecond per frame.
pub proof fn lemma_playback_time(config: IndicatorConfig)
    requires
        config.fault().is_none(),
    ensures
        ({
            let played = script(
                sequence_spec(config.max_size, config.frame_count, config.animation_kind),
                config.animation_kind.clears(),
                interval_spec(config.duration, config.frame_count),
            );
            let total = config.duration * NANOS_PER_MILLI;
            &&& draw_count(played) == config.frame_count
            &&& sleep_nanos(played) == config.frame_count * interval_nanos(
                config.duration,
                config.frame_count,
            )
            &&& total - config.frame_count < sleep_nanos(played) <= total
            &&& config.duration % (config.frame_count as u64) == 0 ==> sleep_nanos(played)
                == total
        }),
{
    let frames = sequence_spec(config.max_size, config.frame_count, config.animation_kind);
    let pace = interval_spec(config.duration, config.frame_count);
    lemma_script_totals(frames, config.animation_kind.clears(), pace);
    lemma_playback_fits_duration(config.duration, config.frame_count);
    lemma_fundamental_div_mod(
        interval_nanos(config.duration, config.frame_count),
        NANOS_PER_MILLI as int,
    );
    lemma_interval_parts(config.duration, config.frame_count);
}

} // verus!
