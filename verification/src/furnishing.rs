//! A furnishing (a fireplace, a stereo): a two-state machine that toggles
//! between `Off` and `Running` on receipt of an interaction event addressed
//! to its id, animates while running, keeps a looping spatial audio sink
//! playing exactly while running, and pulses a highlight before its first
//! use while an interactor is in range.

use vstd::prelude::*;

use crate::animation::{cyclic_advance, cyclic_next, random_advance, AnimationConfig};
use crate::interaction::{Highlight, Interactable, InteractionEvent, Vec2};
use crate::MICROS_PER_SECOND;

verus! {

/// Behavior state of a furnishing: a single static frame and silence, or a
/// looping animation with its audio playing.
#[derive(Clone, Copy, Debug, PartialEq, Eq, Structural)]
pub enum State {
    Off,
    Running,
}

/// How the furnishing's frames advance while running: in order with a wrap,
/// or randomly without repeating the frame just shown.
#[derive(Clone, Copy, Debug, PartialEq, Eq, Structural)]
pub enum AdvanceMode {
    Cyclic,
    RandomNonRepeat,
}

/// A looping spatial audio sink, reduced to what the scene decides about
/// it: whether it is playing, and how far into its loop it is. Pausing
/// keeps the position, so playback resumes where it stopped.
#[derive(Clone, Copy, Debug, PartialEq, Eq, Structural)]
pub struct AudioSink {
    pub playing: bool,
    /// Playback position in microseconds since the sink was created.
    pub position: u64,
}

impl AudioSink {
    /// A paused sink at the start of its loop.
    pub fn new() -> (s: AudioSink)
        ensures
            !s.playing,
            s.position == 0,
    {
        AudioSink { playing: false, position: 0 }
    }

    /// Playback advances only while playing; pausing freezes the position.
    pub fn advance(&mut self, delta: u64)
        requires
            old(self).position + delta <= u64::MAX,
        ensures
            final(self).playing == old(self).playing,
            old(self).playing ==> final(self).position == old(self).position + delta,
            !old(self).playing ==> final(self).position == old(self).position,
    {
        if self.playing {
            self.position = self.position + delta;
        }
    }
}

/// One interactable furnishing of the scene.
#[derive(Clone, Debug)]
pub struct Furnishing {
    /// Center of the furnishing, in micro-units.
    pub pos: Vec2,
    pub state: State,
    pub mode: AdvanceMode,
    pub config: AnimationConfig,
    /// Current frame of the running sheet; `None` while the static off
    /// sprite is shown.
    pub atlas: Option<usize>,
    pub interactable: Interactable,
    pub highlight: Option<Highlight>,
    pub sink: AudioSink,
}

impl Furnishing {
    /// The animation settings are sane and any bound frame lies in range.
    pub open spec fn wf(self) -> bool {
        &&& self.config.wf()
        &&& match self.atlas {
            Some(i) => self.config.first_index <= i <= self.config.last_index,
            None => true,
        }
    }

    /// A furnishing starts off: static sprite, highlight not yet earned,
    /// audio paused at the start of its loop, first use still ahead.
    pub fn new(id: String, pos: Vec2, width: u64, height: u64, config: AnimationConfig, mode: AdvanceMode) -> (f:
        Furnishing)
        requires
            config.wf(),
        ensures
            f.pos == pos,
            f.state is Off,
            f.mode == mode,
            f.config == config,
            f.atlas is None,
            f.interactable.id@ == id@,
            f.interactable.width == width,
            f.interactable.height == height,
            f.interactable.first,
            f.highlight is None,
            !f.sink.playing,
            f.sink.position == 0,
            f.wf(),
    {
        Furnishing {
            pos,
            state: State::Off,
            mode,
            config,
            atlas: None,
            interactable: Interactable { id, height, width, first: true },
            highlight: None,
            sink: AudioSink::new(),
        }
    }

    /// Toggles the state on an event addressed to this furnishing and
    /// rebinds the sprite: entering `Running` binds the animated sheet at
    /// its first frame, entering `Off` drops back to the static sprite.
    /// Returns whether the event matched. An event addressed elsewhere
    /// changes nothing.
    pub fn handle_interaction(&mut self, event: &InteractionEvent) -> (matched: bool)
        ensures
            matched == (event.id@ == old(self).interactable.id@),
            !matched ==> *final(self) == *old(self),
            matched && old(self).state is Off ==> *final(self) == (Furnishing {
                state: State::Running,
                atlas: Some(old(self).config.first_index),
                ..*old(self)
            }),
            matched && old(self).state is Running ==> *final(self) == (Furnishing {
                state: State::Off,
                atlas: None,
                ..*old(self)
            }),
    {
        let matched = event.id == self.interactable.id;
        if matched {
            match self.state {
                State::Off => {
                    self.state = State::Running;
                    self.atlas = Some(self.config.first_index);
                }
                State::Running => {
                    self.state = State::Off;
                    self.atlas = None;
                }
            }
        }
        matched
    }

    /// A furnishing that is running has been used: its first interaction
    /// is spent, so the highlight pulse is suppressed from now on.
    pub fn disable_highlight_on_running(&mut self)
        ensures
            *final(self) == (Furnishing {
                interactable: Interactable {
                    first: old(self).interactable.first && !(old(self).state is Running),
                    ..old(self).interactable
                },
                ..*old(self)
            }),
    {
        if matches!(self.state, State::Running) {
            self.interactable.first = false;
        }
    }

    /// Reacts to one interaction event: an event addressed to this
    /// furnishing toggles it and couples the side effects — entering
    /// `Running` spends the first interaction and starts the audio,
    /// entering `Off` pauses the audio where it is. An event addressed
    /// elsewhere leaves the furnishing entirely untouched.
    pub fn deliver_event(&mut self, event: &InteractionEvent)
        ensures
            event.id@ != old(self).interactable.id@ ==> *final(self) == *old(self),
            event.id@ == old(self).interactable.id@ && old(self).state is Off ==> *final(self)
                == (Furnishing {
                state: State::Running,
                atlas: Some(old(self).config.first_index),
                interactable: Interactable { first: false, ..old(self).interactable },
                sink: AudioSink { playing: true, position: old(self).sink.position },
                ..*old(self)
            }),
            event.id@ == old(self).interactable.id@ && old(self).state is Running ==> *final(self)
                == (Furnishing {
                state: State::Off,
                atlas: None,
                sink: AudioSink { playing: false, position: old(self).sink.position },
                ..*old(self)
            }),
    {
        let matched = self.handle_interaction(event);
        if matched {
            self.disable_highlight_on_running();
            self.handle_sound();
        }
    }

    /// Advances the running animation by one tick. An off furnishing shows
    /// a single static frame and is exempt. While running, the frame timer
    /// accumulates `delta`; when it fires and a frame is bound, the frame
    /// advances by this furnishing's mode — cyclically, or randomly without
    /// repeating — and the timer starts a fresh `1/fps` period.
    pub fn tick_animation(&mut self, delta: u64)
        requires
            old(self).wf(),
        ensures
            final(self).wf(),
            final(self).pos == old(self).pos,
            final(self).state == old(self).state,
            final(self).mode == old(self).mode,
            final(self).interactable == old(self).interactable,
            final(self).highlight == old(self).highlight,
            final(self).sink == old(self).sink,
            final(self).config.first_index == old(self).config.first_index,
            final(self).config.last_index == old(self).config.last_index,
            final(self).config.fps == old(self).config.fps,
            old(self).state is Off ==> *final(self) == *old(self),
            old(self).state is Running ==> {
                let fired = old(self).config.frame_timer.elapsed + delta
                    >= old(self).config.frame_timer.duration;
                &&& !fired ==> {
                    &&& final(self).atlas == old(self).atlas
                    &&& final(self).config.frame_timer.duration == old(self).config.frame_timer.duration
                    &&& final(self).config.frame_timer.elapsed == old(self).config.frame_timer.elapsed + delta
                }
                &&& fired ==> final(self).config.frame_timer.elapsed == 0
                &&& fired && old(self).atlas is None ==> {
                    &&& final(self).atlas is None
                    &&& final(self).config.frame_timer.duration == old(self).config.frame_timer.duration
                }
                &&& fired && old(self).atlas is Some ==> {
                    let i = old(self).atlas->Some_0;
                    let first = old(self).config.first_index;
                    let last = old(self).config.last_index;
                    &&& final(self).config.frame_timer.duration == MICROS_PER_SECOND / old(self).config.fps as u64
                    &&& old(self).mode is Cyclic ==> final(self).atlas == Some(
                        cyclic_next(first as int, last as int, i as int) as usize,
                    )
                    &&& final(self).atlas matches Some(v) && first <= v <= last && (first < last
                        ==> v != i)
                }
            },
    {
        if matches!(self.state, State::Off) {
            return ;
        }
        let fired = self.config.frame_timer.tick(delta);
        if fired {
            if let Some(i) = self.atlas {
                let next = match self.mode {
                    AdvanceMode::Cyclic => cyclic_advance(
                        self.config.first_index,
                        self.config.last_index,
                        i,
                    ),
                    AdvanceMode::RandomNonRepeat => random_advance(
                        self.config.first_index,
                        self.config.last_index,
                        i,
                    ),
                };
                self.atlas = Some(next);
                self.config.frame_timer = AnimationConfig::timer_from_fps(self.config.fps);
            }
        }
    }

    /// Whether the highlight pulse shows, and where in the pulse it is:
    /// only while the furnishing is off, has never been used, and an
    /// interactor is in range does the pulse show, with a phase of the
    /// time elapsed since highlighting began. The sinusoid the renderer
    /// applies to color and scale is its own affair; the scene decides
    /// only whether the pulse shows and its phase.
    pub fn pulse_phase(&self, now: u64) -> (r: Option<u64>)
        requires
            self.highlight matches Some(h) ==> h.elapsed_offset <= now,
        ensures
            r is Some <==> (self.state is Off && self.interactable.first
                && self.highlight is Some),
            r matches Some(p) ==> p == now - self.highlight->Some_0.elapsed_offset,
    {
        if matches!(self.state, State::Off) && self.interactable.first {
            if let Some(h) = self.highlight {
                Some(now - h.elapsed_offset)
            } else {
                None
            }
        } else {
            None
        }
    }

    /// The sink plays exactly while the furnishing runs; the playback
    /// position is untouched, so pausing resumes later from the same spot.
    pub fn handle_sound(&mut self)
        ensures
            *final(self) == (Furnishing {
                sink: AudioSink {
                    playing: old(self).state is Running,
                    position: old(self).sink.position,
                },
                ..*old(self)
            }),
    {
        match self.state {
            State::Running => {
                self.sink.playing = true;
            }
            State::Off => {
                self.sink.playing = false;
            }
        }
    }
}

} // verus!
