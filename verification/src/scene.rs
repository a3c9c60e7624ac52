//! The simulation context and the tick. The scene holds typed registries —
//! the player actor and the furnishings — plus the clock, and advances them
//! in one fixed order per tick, so every hand-off between systems is
//! explicit:
//!
//! 1. the clock advances, and every system of this tick sees the new time;
//! 2. the proximity pass reconciles the `InRange` edge and the highlights;
//! 3. key edges become state-change triggers and, while in range, an
//!    action press becomes an interaction event (the proximity pass runs
//!    first, so the event sees this tick's edge, not last tick's);
//! 4. the player applies the triggers, then animation, movement, the idle
//!    fidget and footstep pacing run;
//! 5. the furnishings consume the event, then advance their animations.
//!
//! Events live for the tick that produced them: the queue is drained here
//! and nothing is retained.

use vstd::prelude::*;

use crate::furnishing::Furnishing;
use crate::interaction::{detect_overlaps, found_target, InteractionEvent};
use crate::player::{handle_keys, press_trigger, FootstepSound, KeyInput, Player};

verus! {

/// The whole simulation state of the scene.
#[derive(Clone, Debug)]
pub struct Scene {
    pub player: Player,
    pub furnishings: Vec<Furnishing>,
    /// Elapsed time since the scene started, in microseconds.
    pub now: u64,
    /// How many one-shot samples each footstep pool holds.
    pub left_samples: usize,
    pub right_samples: usize,
}

impl Scene {
    /// Player and furnishings are well formed and each footstep pool has a
    /// sample to draw.
    pub open spec fn wf(self) -> bool {
        &&& self.player.wf()
        &&& forall|k: int|
            0 <= k < self.furnishings@.len() ==> (#[trigger] self.furnishings@[k]).wf()
        &&& self.left_samples >= 1
        &&& self.right_samples >= 1
    }

    /// A scene at time zero.
    pub fn new(player: Player, furnishings: Vec<Furnishing>, left_samples: usize, right_samples: usize) -> (s: Scene)
        requires
            player.wf(),
            forall|k: int| 0 <= k < furnishings@.len() ==> (#[trigger] furnishings@[k]).wf(),
            left_samples >= 1,
            right_samples >= 1,
        ensures
            s == (Scene { player, furnishings, now: 0, left_samples, right_samples }),
            s.wf(),
    {
        Scene { player, furnishings, now: 0, left_samples, right_samples }
    }

    /// One tick of the scene, `delta` microseconds after the last. Runs
    /// the systems in the fixed order above and returns the footstep sound
    /// this tick asks for, if any.
    ///
    /// The contract states the cross-system couplings; what each system
    /// does to its own state is that system's contract. An interaction
    /// event is emitted exactly when the action key was freshly pressed
    /// (with no direction key taking precedence) and the proximity pass
    /// left the player in range of a target; every furnishing the event is
    /// not addressed to — every furnishing, when there is no event — keeps
    /// its state, its first-use flag and its audio exactly as they were,
    /// while the addressed furnishing toggles, its audio playing exactly
    /// while it runs, its playback position retained across the toggle.
    pub fn tick(&mut self, input: KeyInput, delta: u64) -> (footstep: Option<FootstepSound>)
        requires
            old(self).wf(),
            old(self).now + delta <= u64::MAX,
            old(self).player.pos.x - old(self).player.speed * delta >= i64::MIN,
            old(self).player.pos.x + old(self).player.speed * delta <= i64::MAX,
        ensures
            final(self).wf(),
            final(self).now == old(self).now + delta,
            final(self).left_samples == old(self).left_samples,
            final(self).right_samples == old(self).right_samples,
            final(self).furnishings@.len() == old(self).furnishings@.len(),
            forall|k: int|
                0 <= k < old(self).furnishings@.len() ==> final(self).furnishings@[k].interactable.id@ == old(self).furnishings@[k].interactable.id@,
            ({
                let t_opt = found_target(
                    old(self).player.pos,
                    old(self).player.interactor,
                    old(self).furnishings@,
                );
                let acted = press_trigger(input) matches Some(t) && t.state is Action;
                let emitted = acted && t_opt is Some;
                let target_id = old(self).furnishings@[t_opt->Some_0].interactable.id@;
                &&& t_opt is None ==> final(self).player.in_range is None
                &&& t_opt is Some ==> (final(self).player.in_range matches Some(r) && r.id@
                    == target_id)
                &&& forall|k: int|
                    0 <= k < old(self).furnishings@.len() && (!emitted || old(self).furnishings@[k].interactable.id@ != target_id) ==> {
                        let before = old(self).furnishings@[k];
                        let after = final(self).furnishings@[k];
                        &&& after.state == before.state
                        &&& after.interactable.first == before.interactable.first
                        &&& after.sink == before.sink
                    }
                &&& emitted ==> forall|k: int|
                    0 <= k < old(self).furnishings@.len() && old(self).furnishings@[k].interactable.id@ == target_id ==> {
                        let before = old(self).furnishings@[k];
                        let after = final(self).furnishings@[k];
                        &&& before.state is Off ==> after.state is Running
                            && !after.interactable.first
                        &&& before.state is Running ==> after.state is Off
                            && after.interactable.first == before.interactable.first
                        &&& after.sink.playing == (after.state is Running)
                        &&& after.sink.position == before.sink.position
                    }
            }),
    {
        self.now = self.now + delta;

        detect_overlaps(
            self.player.pos,
            &self.player.interactor,
            &mut self.player.in_range,
            &mut self.furnishings,
            self.now,
        );

        let (triggers, event) = handle_keys(&input, &self.player.in_range);
        let ghost player_after_detect: Player = self.player;
        self.player.trigger_animation(&triggers);
        proof {
            crate::player::lemma_apply_triggers_stable(player_after_detect, triggers@);
        }
        self.player.handle_animations(delta);
        self.player.handle_movement(delta);
        self.player.idle_action(delta);
        let footstep = self.player.handle_audio(delta, self.left_samples, self.right_samples);

        if let Some(interaction) = &event {
            self.deliver_to_all(interaction);
        }

        self.tick_furnishing_animations(delta);

        footstep
    }

    /// Delivers one interaction event to every furnishing; the ones it is
    /// not addressed to are untouched, the addressed ones toggle with
    /// their audio coupled.
    fn deliver_to_all(&mut self, event: &InteractionEvent)
        ensures
            final(self).player == old(self).player,
            final(self).now == old(self).now,
            final(self).left_samples == old(self).left_samples,
            final(self).right_samples == old(self).right_samples,
            final(self).furnishings@.len() == old(self).furnishings@.len(),
            forall|k: int|
                0 <= k < old(self).furnishings@.len() && event.id@ != old(self).furnishings@[k].interactable.id@ ==> final(self).furnishings@[k] == old(self).furnishings@[k],
            forall|k: int|
                0 <= k < old(self).furnishings@.len() && event.id@ == old(self).furnishings@[k].interactable.id@ ==> {
                    let before = old(self).furnishings@[k];
                    let after = final(self).furnishings@[k];
                    &&& before.state is Off ==> after == (Furnishing {
                        state: crate::furnishing::State::Running,
                        atlas: Some(before.config.first_index),
                        interactable: crate::interaction::Interactable {
                            first: false,
                            ..before.interactable
                        },
                        sink: crate::furnishing::AudioSink {
                            playing: true,
                            position: before.sink.position,
                        },
                        ..before
                    })
                    &&& before.state is Running ==> after == (Furnishing {
                        state: crate::furnishing::State::Off,
                        atlas: None,
                        sink: crate::furnishing::AudioSink {
                            playing: false,
                            position: before.sink.position,
                        },
                        ..before
                    })
                },
    {
        let ghost orig: Seq<Furnishing> = self.furnishings@;
        let ghost player0: Player = self.player;
        let ghost now0: u64 = self.now;
        let ghost left0: usize = self.left_samples;
        let ghost right0: usize = self.right_samples;
        let mut k: usize = 0;
        while k < self.furnishings.len()
            invariant
                self.player == player0,
                self.now == now0,
                self.left_samples == left0,
                self.right_samples == right0,
                self.furnishings@.len() == orig.len(),
                k <= orig.len(),
                forall|j: int| k <= j < orig.len() ==> self.furnishings@[j] == orig[j],
                forall|j: int|
                    0 <= j < k && event.id@ != orig[j].interactable.id@ ==> self.furnishings@[j]
                        == orig[j],
                forall|j: int|
                    0 <= j < k && event.id@ == orig[j].interactable.id@ ==> {
                        let before = orig[j];
                        let after = self.furnishings@[j];
                        &&& before.state is Off ==> after == (Furnishing {
                            state: crate::furnishing::State::Running,
                            atlas: Some(before.config.first_index),
                            interactable: crate::interaction::Interactable {
                                first: false,
                                ..before.interactable
                            },
                            sink: crate::furnishing::AudioSink {
                                playing: true,
                                position: before.sink.position,
                            },
                            ..before
                        })
                        &&& before.state is Running ==> after == (Furnishing {
                            state: crate::furnishing::State::Off,
                            atlas: None,
                            sink: crate::furnishing::AudioSink {
                                playing: false,
                                position: before.sink.position,
                            },
                            ..before
                        })
                    },
            decreases orig.len() - k,
        {
            self.furnishings[k].deliver_event(event);
            k = k + 1;
        }
    }

    /// Advances every furnishing's animation by one tick.
    fn tick_furnishing_animations(&mut self, delta: u64)
        requires
            forall|k: int|
                0 <= k < old(self).furnishings@.len() ==> (#[trigger] old(self).furnishings@[k]).wf(),
        ensures
            final(self).player == old(self).player,
            final(self).now == old(self).now,
            final(self).left_samples == old(self).left_samples,
            final(self).right_samples == old(self).right_samples,
            final(self).furnishings@.len() == old(self).furnishings@.len(),
            forall|k: int|
                0 <= k < old(self).furnishings@.len() ==> {
                    let before = old(self).furnishings@[k];
                    let after = #[trigger] final(self).furnishings@[k];
                    &&& after.wf()
                    &&& after.pos == before.pos
                    &&& after.state == before.state
                    &&& after.mode == before.mode
                    &&& after.interactable == before.interactable
                    &&& after.highlight == before.highlight
                    &&& after.sink == before.sink
                },
    {
        let ghost orig: Seq<Furnishing> = self.furnishings@;
        let ghost player0: Player = self.player;
        let ghost now0: u64 = self.now;
        let ghost left0: usize = self.left_samples;
        let ghost right0: usize = self.right_samples;
        let mut k: usize = 0;
        while k < self.furnishings.len()
            invariant
                self.player == player0,
                self.now == now0,
                self.left_samples == left0,
                self.right_samples == right0,
                self.furnishings@.len() == orig.len(),
                k <= orig.len(),
                forall|j: int| k <= j < orig.len() ==> self.furnishings@[j] == orig[j],
                forall|j: int| 0 <= j < orig.len() ==> (#[trigger] orig[j]).wf(),
                forall|j: int|
                    0 <= j < k ==> {
                        let before = orig[j];
                        let after = #[trigger] self.furnishings@[j];
                        &&& after.wf()
                        &&& after.pos == before.pos
                        &&& after.state == before.state
                        &&& after.mode == before.mode
                        &&& after.interactable == before.interactable
                        &&& after.highlight == before.highlight
                        &&& after.sink == before.sink
                    },
            decreases orig.len() - k,
        {
            self.furnishings[k].tick_animation(delta);
            k = k + 1;
        }
    }
}

} // verus!
