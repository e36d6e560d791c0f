use vstd::prelude::*;
use crate::actor::{
    after_key_down, after_key_up, advanced_times, can_move, due_for, moved, pending_after, spawned,
    ActorState, FrameRef, Key,
};
use crate::animation::AnimationLibrary;
use crate::clock::AnimationClock;

verus! {

/// The hero, its animation library and the clock that paces its frames.
pub struct GameState<H> {
    pub hero: ActorState,
    pub library: AnimationLibrary<H>,
    pub clock: AnimationClock,
}

impl<H> GameState<H> {
    pub open spec fn wf(&self) -> bool {
        self.library.wf()
    }

    /// A freshly spawned hero over `library`, with an empty clock.
    pub fn new(library: AnimationLibrary<H>) -> (r: Self)
        requires
            library.wf(),
        ensures
            r.wf(),
            r.hero == spawned(),
            r.library == library,
            r.clock.pending() == 0,
    {
        GameState { hero: ActorState::new(), library, clock: AnimationClock::new() }
    }

    /// One update tick, `elapsed` nanoseconds after the previous one: the hero
    /// moves once, then takes every frame advance due at its cadence.
    /// Returns the number of frame advances taken.
    pub fn update(&mut self, elapsed: u64) -> (n: u64)
        requires
            old(self).wf(),
            can_move(old(self).hero),
            old(self).clock.pending() + elapsed <= u64::MAX,
        ensures
            final(self).wf(),
            final(self).library == old(self).library,
            n == due_for(moved(old(self).hero), old(self).clock.pending() as int, elapsed as int),
            final(self).clock.pending() == pending_after(
                moved(old(self).hero),
                old(self).clock.pending() as int,
                elapsed as int,
            ),
            final(self).hero == advanced_times(
                moved(old(self).hero),
                old(self).library.frames(old(self).hero.state).len(),
                n as nat,
            ),
    {
        self.hero.move_position();
        self.hero.animate(&self.library, &mut self.clock, elapsed)
    }

    pub fn key_down_event(&mut self, key: Key)
        ensures
            final(self).hero == after_key_down(old(self).hero, key),
            final(self).library == old(self).library,
            final(self).clock == old(self).clock,
    {
        self.hero.key_down(key);
    }

    pub fn key_up_event(&mut self, key: Key)
        requires
            key == Key::Up ==> old(self).hero.vertical_bias != i64::MIN,
        ensures
            final(self).hero == after_key_up(old(self).hero, key),
            final(self).library == old(self).library,
            final(self).clock == old(self).clock,
    {
        self.hero.key_up(key);
    }

    /// The frame on screen, if the library holds it.
    pub fn current_frame(&self) -> (r: Option<&H>)
        requires
            self.wf(),
        ensures
            r is Some <==> self.hero.sprite.index < self.library.frames(self.hero.sprite.state).len(),
            r matches Some(h) ==> *h == self.library.frames(self.hero.sprite.state)[self.hero.sprite.index as int],
    {
        self.library.frame(self.hero.sprite.state, self.hero.sprite.index)
    }

    /// The frame on screen, as a place in the library.
    pub fn sprite(&self) -> (r: FrameRef)
        ensures
            r == self.hero.sprite,
    {
        self.hero.sprite
    }
}

} // verus!
