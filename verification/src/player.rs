//! The player actor: a behavior state machine (idle, walking left or right,
//! acting) driven by keyboard edge-events, movement integration, sprite and
//! animation reconfiguration on state changes, an idle fidget that flips the
//! sprite, and alternating footstep sounds while walking.

use vstd::prelude::*;

use crate::animation::{cyclic_advance, cyclic_next, AnimationConfig};
use crate::interaction::{InRange, InteractionEvent, Interactor, Vec2};
use crate::rng::random_in_range;
use crate::timer::Timer;
use crate::MICROS_PER_SECOND;

verus! {

/// Behavior state of the player. Exactly one at a time; the walking
/// direction lives beside it so that it can persist across idle spells.
#[derive(Clone, Copy, Debug, PartialEq, Eq, Structural)]
pub enum State {
    Idle,
    Action,
    Walking,
}

/// Which way the player faces; persists when walking stops and decides the
/// horizontal mirroring of the sprite.
#[derive(Clone, Copy, Debug, PartialEq, Eq, Structural)]
pub enum Direction {
    Left,
    Right,
}

/// Which foot steps next while walking.
#[derive(Clone, Copy, Debug, PartialEq, Eq, Structural)]
pub enum FootStep {
    Left,
    Right,
}

/// A state-change request derived from one key edge.
#[derive(Clone, Copy, Debug, PartialEq, Eq, Structural)]
pub struct Trigger {
    pub state: State,
    pub direction: Direction,
}

/// Which sprite sheet is bound to the player.
#[derive(Clone, Copy, Debug, PartialEq, Eq, Structural)]
pub enum Sheet {
    Standing,
    Walking,
}

/// The engine-facing sprite state the player drives: the bound sheet, the
/// current frame of its grid when one is bound, and horizontal mirroring.
#[derive(Clone, Copy, Debug, PartialEq, Eq, Structural)]
pub struct Sprite {
    pub sheet: Sheet,
    pub atlas: Option<usize>,
    pub flip_x: bool,
}

/// One tick's worth of keyboard edges for the fixed key set: fresh presses,
/// fresh releases, and whether each direction key is still held.
#[derive(Clone, Copy, Debug, PartialEq, Eq, Structural)]
pub struct KeyInput {
    pub just_pressed_left: bool,
    pub just_pressed_right: bool,
    pub just_pressed_up: bool,
    pub just_released_left: bool,
    pub just_released_right: bool,
    pub pressed_left: bool,
    pub pressed_right: bool,
}

/// A one-shot footstep sound: which foot stepped and which sample of that
/// foot's pool to play.
#[derive(Clone, Copy, Debug, PartialEq, Eq, Structural)]
pub struct FootstepSound {
    pub foot: FootStep,
    pub sample: usize,
}

/// Walking speed, in scene units per second (micro-units per microsecond
/// times one million; with deltas in microseconds the displacement per tick
/// is exactly `WALKING_SPEED * delta` micro-units).
pub const WALKING_SPEED: u32 = 90;

/// Step period while walking, in microseconds.
pub const WALKING_TIMER: u64 = 450_000;

/// Shortened step period armed while not walking, so the first step after
/// walking resumes comes quickly, in microseconds.
pub const WALKING_TIMER_DELAY: u64 = 225_000;

/// Period of the idle fidget that flips the sprite, in microseconds.
pub const IDLE_TIMER: u64 = 5_000_000;

/// The player actor's whole simulation state.
#[derive(Clone, Debug)]
pub struct Player {
    /// Center of the player, in micro-units.
    pub pos: Vec2,
    pub state: State,
    pub direction: Direction,
    pub config: AnimationConfig,
    pub sprite: Sprite,
    /// Fires the idle fidget.
    pub idle_timer: Timer,
    /// Paces footsteps while walking.
    pub step_timer: Timer,
    pub foot: FootStep,
    pub interactor: Interactor,
    /// The at-most-one interactable the player is currently in range of.
    pub in_range: Option<InRange>,
    /// Walking speed in scene units per second.
    pub speed: u32,
}

impl Player {
    /// The animation settings are sane and any bound frame lies in range.
    pub open spec fn wf(self) -> bool {
        &&& self.config.wf()
        &&& match self.sprite.atlas {
            Some(i) => self.config.first_index <= i <= self.config.last_index,
            None => true,
        }
    }

    /// The player starts idle, facing right, standing sprite bound at its
    /// first frame, in range of nothing, with the left foot up next. The
    /// step timer starts with a zero duration so the first step of the
    /// first walk comes at once.
    pub fn new(pos: Vec2, config: AnimationConfig, interactor: Interactor) -> (p: Player)
        requires
            config.wf(),
        ensures
            p == (Player {
                pos,
                state: State::Idle,
                direction: Direction::Right,
                config,
                sprite: Sprite {
                    sheet: Sheet::Standing,
                    atlas: Some(config.first_index),
                    flip_x: false,
                },
                idle_timer: Timer { elapsed: 0, duration: IDLE_TIMER },
                step_timer: Timer { elapsed: 0, duration: 0 },
                foot: FootStep::Left,
                interactor,
                in_range: None::<InRange>,
                speed: WALKING_SPEED,
            }),
            p.wf(),
    {
        Player {
            pos,
            state: State::Idle,
            direction: Direction::Right,
            sprite: Sprite { sheet: Sheet::Standing, atlas: Some(config.first_index), flip_x: false },
            config,
            idle_timer: Timer::new(IDLE_TIMER),
            step_timer: Timer::new(0),
            foot: FootStep::Left,
            interactor,
            in_range: None,
            speed: WALKING_SPEED,
        }
    }
}

/// The state-change request that fresh key presses yield: walking triggers
/// for the direction keys, an acting trigger for the action key, with the
/// press checks ordered left, right, up and only the first hit taken.
pub open spec fn press_trigger(k: KeyInput) -> Option<Trigger> {
    if k.just_pressed_left {
        Some(Trigger { state: State::Walking, direction: Direction::Left })
    } else if k.just_pressed_right {
        Some(Trigger { state: State::Walking, direction: Direction::Right })
    } else if k.just_pressed_up {
        Some(Trigger { state: State::Action, direction: Direction::Right })
    } else {
        None
    }
}

/// Releasing the left key with the right key no longer held asks for idle,
/// still facing left.
pub open spec fn release_left_trigger(k: KeyInput) -> Option<Trigger> {
    if k.just_released_left && !k.pressed_right {
        Some(Trigger { state: State::Idle, direction: Direction::Left })
    } else {
        None
    }
}

/// Releasing the right key with the left key no longer held asks for idle,
/// still facing right.
pub open spec fn release_right_trigger(k: KeyInput) -> Option<Trigger> {
    if k.just_released_right && !k.pressed_left {
        Some(Trigger { state: State::Idle, direction: Direction::Right })
    } else {
        None
    }
}

pub open spec fn opt_trigger_seq(t: Option<Trigger>) -> Seq<Trigger> {
    match t {
        Some(x) => seq![x],
        None => Seq::empty(),
    }
}

/// All triggers one tick of key edges yields, in delivery order: the press
/// trigger, then the release triggers.
pub open spec fn key_triggers(k: KeyInput) -> Seq<Trigger> {
    opt_trigger_seq(press_trigger(k)) + opt_trigger_seq(release_left_trigger(k)) + opt_trigger_seq(
        release_right_trigger(k),
    )
}

/// Turns one tick of key edges into state-change triggers, and — exactly
/// when the action key was freshly pressed (and no direction key was, which
/// takes precedence) while the player is in range of an interactable — into
/// one interaction event addressed to that interactable.
pub fn handle_keys(keys: &KeyInput, in_range: &Option<InRange>) -> (r: (
    Vec<Trigger>,
    Option<InteractionEvent>,
))
    ensures
        r.0@ == key_triggers(*keys),
        r.1 is Some <==> (press_trigger(*keys) matches Some(t) && t.state is Action
            && *in_range is Some),
        r.1 matches Some(e) ==> e.id@ == in_range->Some_0.id@,
{
    let mut triggers: Vec<Trigger> = Vec::new();
    let mut event: Option<InteractionEvent> = None;

    if keys.just_pressed_left {
        triggers.push(Trigger { state: State::Walking, direction: Direction::Left });
    } else if keys.just_pressed_right {
        triggers.push(Trigger { state: State::Walking, direction: Direction::Right });
    } else if keys.just_pressed_up {
        triggers.push(Trigger { state: State::Action, direction: Direction::Right });
        if let Some(in_range_edge) = in_range {
            event = Some(InteractionEvent { id: in_range_edge.id.clone() });
        }
    }

    if keys.just_released_left && !keys.pressed_right {
        triggers.push(Trigger { state: State::Idle, direction: Direction::Left });
    }
    if keys.just_released_right && !keys.pressed_left {
        triggers.push(Trigger { state: State::Idle, direction: Direction::Right });
    }

    proof {
        assert(triggers@ =~= key_triggers(*keys));
    }
    (triggers, event)
}

/// What one trigger does to the player. A trigger that asks for the state
/// and direction the player already has changes nothing. Otherwise: idling
/// binds the standing sheet at its first frame, mirrored by the direction
/// faced so far; acting binds the standing sheet with no frame grid;
/// walking binds the walking sheet at its first frame, mirrored when
/// heading left, and restarts the frame countdown at once so the animation
/// does not wait out a stale period.
pub open spec fn apply_trigger(p: Player, ev: Trigger) -> Player {
    if p.state == ev.state && p.direction == ev.direction {
        p
    } else {
        let sprite = match ev.state {
            State::Idle => Sprite {
                sheet: Sheet::Standing,
                atlas: Some(p.config.first_index),
                flip_x: p.direction is Left,
            },
            State::Action => Sprite { sheet: Sheet::Standing, atlas: None, ..p.sprite },
            State::Walking => Sprite {
                sheet: Sheet::Walking,
                atlas: Some(p.config.first_index),
                flip_x: ev.direction is Left,
            },
        };
        let config = if ev.state is Walking {
            AnimationConfig {
                frame_timer: Timer {
                    elapsed: 0,
                    duration: MICROS_PER_SECOND / p.config.fps as u64,
                },
                ..p.config
            }
        } else {
            p.config
        };
        Player { state: ev.state, direction: ev.direction, sprite, config, ..p }
    }
}

/// The player after a sequence of triggers, applied in order.
pub open spec fn apply_triggers(p: Player, evs: Seq<Trigger>) -> Player
    decreases evs.len(),
{
    if evs.len() == 0 {
        p
    } else {
        apply_triggers(apply_trigger(p, evs.first()), evs.drop_first())
    }
}

/// Triggers rebind state, direction, sprite and the frame timer and touch
/// nothing else: position, the in-range edge, the feet, the fidget and step
/// timers, the frame range and rate, and the speed all persist.
pub proof fn lemma_apply_triggers_stable(p: Player, evs: Seq<Trigger>)
    ensures
        ({
            let q = apply_triggers(p, evs);
            &&& q.pos == p.pos
            &&& q.in_range == p.in_range
            &&& q.foot == p.foot
            &&& q.idle_timer == p.idle_timer
            &&& q.step_timer == p.step_timer
            &&& q.interactor == p.interactor
            &&& q.speed == p.speed
            &&& q.config.first_index == p.config.first_index
            &&& q.config.last_index == p.config.last_index
            &&& q.config.fps == p.config.fps
        }),
    decreases evs.len(),
{
    if evs.len() > 0 {
        lemma_apply_triggers_stable(apply_trigger(p, evs.first()), evs.drop_first());
    }
}

impl Player {
    /// Applies the tick's state-change triggers in order; each is
    /// `apply_trigger`, so a trigger for the state and direction already
    /// held is ignored and any other rebinds sprite and animation.
    pub fn trigger_animation(&mut self, triggers: &Vec<Trigger>)
        requires
            old(self).wf(),
        ensures
            *final(self) == apply_triggers(*old(self), triggers@),
            final(self).wf(),
    {
        let ghost orig: Player = *self;
        let ghost all: Seq<Trigger> = triggers@;
        proof {
            assert(all.subrange(0, all.len() as int) =~= all);
        }
        let mut i: usize = 0;
        while i < triggers.len()
            invariant
                triggers@ == all,
                i <= all.len(),
                self.wf(),
                apply_triggers(orig, all) == apply_triggers(*self, all.subrange(i as int, all.len() as int)),
            decreases all.len() - i,
        {
            let ev = triggers[i];
            proof {
                let rest = all.subrange(i as int, all.len() as int);
                assert(rest.first() == all[i as int]);
                assert(rest.drop_first() =~= all.subrange(i + 1 as int, all.len() as int));
            }
            if self.state != ev.state || self.direction != ev.direction {
                match ev.state {
                    State::Idle => {
                        self.sprite = Sprite {
                            sheet: Sheet::Standing,
                            atlas: Some(self.config.first_index),
                            flip_x: matches!(self.direction, Direction::Left),
                        };
                    }
                    State::Action => {
                        self.sprite = Sprite { sheet: Sheet::Standing, atlas: None, ..self.sprite };
                    }
                    State::Walking => {
                        self.sprite = Sprite {
                            sheet: Sheet::Walking,
                            atlas: Some(self.config.first_index),
                            flip_x: matches!(ev.direction, Direction::Left),
                        };
                        self.config.frame_timer = AnimationConfig::timer_from_fps(self.config.fps);
                    }
                }
                self.state = ev.state;
                self.direction = ev.direction;
            }
            i = i + 1;
        }
        proof {
            assert(all.subrange(all.len() as int, all.len() as int) =~= Seq::<Trigger>::empty());
        }
    }

    /// Advances the player's animation by one tick. Idle shows a single
    /// static frame and is exempt. Acting ends — back to idle — once the
    /// bound frame reaches the last of the range, or at once when no frame
    /// grid is bound; the tick still runs afterwards, as the state machine
    /// hands idle over only at the next tick. When the frame timer fires
    /// and a frame is bound, the frame advances cyclically and the timer
    /// starts a fresh `1/fps` period — on every advance, wrapping or not,
    /// one uniform reset policy.
    pub fn handle_animations(&mut self, delta: u64)
        requires
            old(self).wf(),
        ensures
            final(self).wf(),
            final(self).pos == old(self).pos,
            final(self).direction == old(self).direction,
            final(self).idle_timer == old(self).idle_timer,
            final(self).step_timer == old(self).step_timer,
            final(self).foot == old(self).foot,
            final(self).interactor == old(self).interactor,
            final(self).in_range == old(self).in_range,
            final(self).speed == old(self).speed,
            final(self).sprite.sheet == old(self).sprite.sheet,
            final(self).sprite.flip_x == old(self).sprite.flip_x,
            final(self).config.first_index == old(self).config.first_index,
            final(self).config.last_index == old(self).config.last_index,
            final(self).config.fps == old(self).config.fps,
            old(self).state is Idle ==> *final(self) == *old(self),
            !(old(self).state is Idle) ==> {
                &&& final(self).state == (if old(self).state is Action && (old(self).sprite.atlas is None || old(self).sprite.atlas->Some_0 == old(self).config.last_index) {
                    State::Idle
                } else {
                    old(self).state
                })
                &&& {
                    let fired = old(self).config.frame_timer.elapsed + delta >= old(self).config.frame_timer.duration;
                    &&& !fired ==> {
                        &&& final(self).sprite.atlas == old(self).sprite.atlas
                        &&& final(self).config.frame_timer.duration == old(self).config.frame_timer.duration
                        &&& final(self).config.frame_timer.elapsed == old(self).config.frame_timer.elapsed + delta
                    }
                    &&& fired ==> final(self).config.frame_timer.elapsed == 0
                    &&& fired && old(self).sprite.atlas is None ==> {
                        &&& final(self).sprite.atlas is None
                        &&& final(self).config.frame_timer.duration == old(self).config.frame_timer.duration
                    }
                    &&& fired && old(self).sprite.atlas is Some ==> {
                        &&& final(self).sprite.atlas == Some(
                            cyclic_next(
                                old(self).config.first_index as int,
                                old(self).config.last_index as int,
                                old(self).sprite.atlas->Some_0 as int,
                            ) as usize,
                        )
                        &&& final(self).config.frame_timer.duration == MICROS_PER_SECOND / old(self).config.fps as u64
                    }
                }
            },
    {
        if matches!(self.state, State::Idle) {
            return ;
        }
        if matches!(self.state, State::Action) {
            match self.sprite.atlas {
                Some(i) => {
                    if i == self.config.last_index {
                        self.state = State::Idle;
                    }
                },
                None => {
                    self.state = State::Idle;
                },
            }
        }
        let fired = self.config.frame_timer.tick(delta);
        if fired {
            if let Some(i) = self.sprite.atlas {
                let next = cyclic_advance(self.config.first_index, self.config.last_index, i);
                self.sprite.atlas = Some(next);
                self.config.frame_timer = AnimationConfig::timer_from_fps(self.config.fps);
            }
        }
    }

    /// Integrates movement for one tick: walking displaces the position by
    /// exactly `speed * delta` micro-units along the signed direction;
    /// idling and acting displace nothing and leave the player untouched,
    /// direction included.
    pub fn handle_movement(&mut self, delta: u64)
        requires
            i64::MIN <= old(self).pos.x + step_x(
                old(self).state,
                old(self).direction,
                old(self).speed as int,
                delta as int,
            ) <= i64::MAX,
        ensures
            *final(self) == (Player {
                pos: Vec2 {
                    x: (old(self).pos.x + step_x(
                        old(self).state,
                        old(self).direction,
                        old(self).speed as int,
                        delta as int,
                    )) as i64,
                    y: old(self).pos.y,
                },
                ..*old(self)
            }),
            !(old(self).state is Walking) ==> *final(self) == *old(self),
    {
        match self.state {
            State::Idle | State::Action => (),
            State::Walking => {
                let displacement: i128 = self.speed as i128 * delta as i128;
                match self.direction {
                    Direction::Left => {
                        let next_x: i128 = self.pos.x as i128 - displacement;
                        self.pos.x = next_x as i64;
                    },
                    Direction::Right => {
                        let next_x: i128 = self.pos.x as i128 + displacement;
                        self.pos.x = next_x as i64;
                    },
                }
            },
        }
    }

    /// Runs the idle fidget for one tick: while idle, the fidget timer
    /// accumulates time and each firing mirrors the sprite; any other state
    /// empties the timer, so a fresh idle spell waits the full period.
    pub fn idle_action(&mut self, delta: u64)
        ensures
            !(old(self).state is Idle) ==> *final(self) == (Player {
                idle_timer: Timer { elapsed: 0, duration: old(self).idle_timer.duration },
                ..*old(self)
            }),
            old(self).state is Idle ==> {
                let fired = old(self).idle_timer.elapsed + delta >= old(self).idle_timer.duration;
                &&& fired ==> *final(self) == (Player {
                    idle_timer: Timer { elapsed: 0, duration: old(self).idle_timer.duration },
                    sprite: Sprite { flip_x: !old(self).sprite.flip_x, ..old(self).sprite },
                    ..*old(self)
                })
                &&& !fired ==> *final(self) == (Player {
                    idle_timer: Timer {
                        elapsed: (old(self).idle_timer.elapsed + delta) as u64,
                        duration: old(self).idle_timer.duration,
                    },
                    ..*old(self)
                })
            },
    {
        if matches!(self.state, State::Idle) {
            let fired = self.idle_timer.tick(delta);
            if fired {
                self.sprite.flip_x = !self.sprite.flip_x;
            }
        } else {
            self.idle_timer.reset();
        }
    }

    /// Paces footstep sounds for one tick. While walking, the step timer
    /// accumulates time; each firing steps with the current foot — picking
    /// one sample of that foot's pool at random — re-arms the timer with
    /// the full walking period, and hands the next step to the other foot.
    /// Any other state re-arms the timer with the shorter delay period, so
    /// the first step after walking resumes comes quickly.
    pub fn handle_audio(&mut self, delta: u64, left_samples: usize, right_samples: usize) -> (r:
        Option<FootstepSound>)
        requires
            left_samples >= 1,
            right_samples >= 1,
        ensures
            !(old(self).state is Walking) ==> r is None && *final(self) == (Player {
                step_timer: Timer {
                    elapsed: old(self).step_timer.elapsed,
                    duration: WALKING_TIMER_DELAY,
                },
                ..*old(self)
            }),
            old(self).state is Walking ==> {
                let fired = old(self).step_timer.elapsed + delta >= old(self).step_timer.duration;
                &&& !fired ==> r is None && *final(self) == (Player {
                    step_timer: Timer {
                        elapsed: (old(self).step_timer.elapsed + delta) as u64,
                        duration: old(self).step_timer.duration,
                    },
                    ..*old(self)
                })
                &&& fired ==> {
                    &&& r matches Some(sound) && sound.foot == old(self).foot && sound.sample < (
                    if old(self).foot is Left {
                        left_samples
                    } else {
                        right_samples
                    })
                    &&& *final(self) == (Player {
                        step_timer: Timer { elapsed: 0, duration: WALKING_TIMER },
                        foot: (if old(self).foot is Left {
                            FootStep::Right
                        } else {
                            FootStep::Left
                        }),
                        ..*old(self)
                    })
                }
            },
    {
        match self.state {
            State::Walking => {
                let fired = self.step_timer.tick(delta);
                if fired {
                    let sound = match self.foot {
                        FootStep::Left => {
                            self.foot = FootStep::Right;
                            FootstepSound {
                                foot: FootStep::Left,
                                sample: random_in_range(0, left_samples - 1),
                            }
                        },
                        FootStep::Right => {
                            self.foot = FootStep::Left;
                            FootstepSound {
                                foot: FootStep::Right,
                                sample: random_in_range(0, right_samples - 1),
                            }
                        },
                    };
                    self.step_timer.set_duration(WALKING_TIMER);
                    Some(sound)
                } else {
                    None
                }
            },
            _ => {
                self.step_timer.set_duration(WALKING_TIMER_DELAY);
                None
            },
        }
    }
}

/// The signed displacement one tick contributes to the x position:
/// `speed * delta` micro-units along the direction faced while walking,
/// nothing while idling or acting.
pub open spec fn step_x(state: State, direction: Direction, speed: int, delta: int) -> int {
    if state is Walking {
        if direction is Right {
            speed * delta
        } else {
            -(speed * delta)
        }
    } else {
        0
    }
}

/// The x position after a run of ticks with the given durations, the state,
/// direction and speed held fixed throughout.
pub open spec fn walk_x_after(
    x: int,
    state: State,
    direction: Direction,
    speed: int,
    deltas: Seq<int>,
) -> int
    decreases deltas.len(),
{
    if deltas.len() == 0 {
        x
    } else {
        walk_x_after(
            x + step_x(state, direction, speed, deltas.first()),
            state,
            direction,
            speed,
            deltas.drop_first(),
        )
    }
}

pub open spec fn seq_sum(s: Seq<int>) -> int
    decreases s.len(),
{
    if s.len() == 0 {
        0
    } else {
        s.first() + seq_sum(s.drop_first())
    }
}

/// A player that is not walking does not move: over any run of ticks, of
/// any durations, the position is unchanged (and, the per-tick contract
/// being the identity, so is everything else, the direction included).
pub proof fn lemma_idle_no_motion(
    x: int,
    state: State,
    direction: Direction,
    speed: int,
    deltas: Seq<int>,
)
    requires
        !(state is Walking),
    ensures
        walk_x_after(x, state, direction, speed, deltas) == x,
    decreases deltas.len(),
{
    if deltas.len() > 0 {
        lemma_idle_no_motion(x, state, direction, speed, deltas.drop_first());
    }
}

/// Walking right at speed `s` for ticks totalling `t` gains exactly `s * t`:
/// the x position afterwards is the start plus the speed times the total
/// elapsed time.
pub proof fn lemma_walking_right_displacement(x: int, speed: int, deltas: Seq<int>)
    ensures
        walk_x_after(x, State::Walking, Direction::Right, speed, deltas) == x + speed * seq_sum(
            deltas,
        ),
    decreases deltas.len(),
{
    if deltas.len() > 0 {
        lemma_walking_right_displacement(x + speed * deltas.first(), speed, deltas.drop_first());
        assert(speed * (deltas.first() + seq_sum(deltas.drop_first())) == speed * deltas.first()
            + speed * seq_sum(deltas.drop_first())) by (nonlinear_arith);
    }
}

/// Walking left is the mirror image: the x position loses exactly `s * t`.
pub proof fn lemma_walking_left_displacement(x: int, speed: int, deltas: Seq<int>)
    ensures
        walk_x_after(x, State::Walking, Direction::Left, speed, deltas) == x - speed * seq_sum(
            deltas,
        ),
    decreases deltas.len(),
{
    if deltas.len() > 0 {
        lemma_walking_left_displacement(x - speed * deltas.first(), speed, deltas.drop_first());
        assert(speed * (deltas.first() + seq_sum(deltas.drop_first())) == speed * deltas.first()
            + speed * seq_sum(deltas.drop_first())) by (nonlinear_arith);
    }
}

} // verus!
