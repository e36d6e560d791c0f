use vstd::prelude::*;

verus! {

/// Which frame sequence and cadence apply to an actor.
#[derive(Clone, Copy, Debug, PartialEq, Eq, Structural, Hash)]
pub enum AnimationState {
    Idle,
    Run,
    Walk,
    Jump,
    Dead,
    Fall,
}

/// Number of animation states, one slot of the library each.
pub const STATE_COUNT: usize = 6;

/// Frames per second shared by the idle and run animations.
pub const RUN_FRAME_RATE: u32 = 20;

/// Frames per second of the dead animation.
pub const DEAD_FRAME_RATE: u32 = 20;

/// Slot of a state in the library's table.
pub open spec fn slot_of(s: AnimationState) -> int {
    match s {
        AnimationState::Idle => 0,
        AnimationState::Run => 1,
        AnimationState::Walk => 2,
        AnimationState::Jump => 3,
        AnimationState::Dead => 4,
        AnimationState::Fall => 5,
    }
}

fn slot(s: AnimationState) -> (r: usize)
    ensures
        r as int == slot_of(s),
        r < STATE_COUNT,
{
    match s {
        AnimationState::Idle => 0,
        AnimationState::Run => 1,
        AnimationState::Walk => 2,
        AnimationState::Jump => 3,
        AnimationState::Dead => 4,
        AnimationState::Fall => 5,
    }
}

/// Cadence table: frames per second of each state, none for the states that
/// have no animation yet.
pub open spec fn cadence_of(s: AnimationState) -> Option<u32> {
    match s {
        AnimationState::Idle => Some(RUN_FRAME_RATE),
        AnimationState::Run => Some(RUN_FRAME_RATE),
        AnimationState::Dead => Some(DEAD_FRAME_RATE),
        _ => None,
    }
}

pub fn cadence(s: AnimationState) -> (r: Option<u32>)
    ensures
        r == cadence_of(s),
{
    match s {
        AnimationState::Idle => Some(RUN_FRAME_RATE),
        AnimationState::Run => Some(RUN_FRAME_RATE),
        AnimationState::Dead => Some(DEAD_FRAME_RATE),
        _ => None,
    }
}

/// One entry of the hero's asset manifest: the frames of `state` are the
/// images `{folder}/{stem} (1).png` up to `{folder}/{stem} ({frames}).png`.
#[derive(Clone, Copy, Debug)]
pub struct SpriteSheet {
    pub state: AnimationState,
    pub folder: &'static str,
    pub stem: &'static str,
    pub frames: usize,
}

/// The hero's asset manifest: ten idle frames, eight dead ones and eight run
/// ones. Walk, jump and fall have no frames yet.
pub fn hero_sprite_sheets() -> (r: Vec<SpriteSheet>)
    ensures
        r@.len() == 3,
        r@[0].state == AnimationState::Idle && r@[0].frames == 10,
        r@[1].state == AnimationState::Dead && r@[1].frames == 8,
        r@[2].state == AnimationState::Run && r@[2].frames == 8,
        r@[0].folder@ == "/dino/idle"@ && r@[0].stem@ == "Idle"@,
        r@[1].folder@ == "/dino/dead"@ && r@[1].stem@ == "Dead"@,
        r@[2].folder@ == "/dino/run"@ && r@[2].stem@ == "Run"@,
{
    let mut r: Vec<SpriteSheet> = Vec::new();
    r.push(SpriteSheet { state: AnimationState::Idle, folder: "/dino/idle", stem: "Idle", frames: 10 });
    r.push(SpriteSheet { state: AnimationState::Dead, folder: "/dino/dead", stem: "Dead", frames: 8 });
    r.push(SpriteSheet { state: AnimationState::Run, folder: "/dino/run", stem: "Run", frames: 8 });
    r
}

/// Why a sequence could not be registered.
#[derive(Clone, Copy, Debug, PartialEq, Eq, Structural)]
pub enum LibraryError {
    /// A sequence must hold at least one frame.
    EmptySequence,
}

/// Frame sequences per animation state. A state without a sequence holds an
/// empty one: lookups for it answer "no sequence".
pub struct AnimationLibrary<H> {
    sequences: Vec<Vec<H>>,
}

impl<H> AnimationLibrary<H> {
    pub closed spec fn wf(&self) -> bool {
        &&& self.sequences@.len() == STATE_COUNT
        &&& forall|j: int| 0 <= j < STATE_COUNT ==> #[trigger] self.sequences@[j]@.len() <= usize::MAX
    }

    /// Each sequence is held in a `Vec`, so its length fits in a `usize`.
    pub proof fn lemma_frames_fit(&self, s: AnimationState)
        requires
            self.wf(),
        ensures
            self.frames(s).len() <= usize::MAX,
    {
        assert(self.sequences@[slot_of(s)]@.len() <= usize::MAX);
    }

    /// The frames registered for `s`; empty when none are.
    pub closed spec fn frames(&self, s: AnimationState) -> Seq<H> {
        self.sequences@[slot_of(s)]@
    }

    /// A library with no sequence registered.
    pub fn new() -> (r: Self)
        ensures
            r.wf(),
            forall|s: AnimationState| #[trigger] r.frames(s).len() == 0,
    {
        let mut sequences: Vec<Vec<H>> = Vec::new();
        let mut i: usize = 0;
        while i < STATE_COUNT
            invariant
                i <= STATE_COUNT,
                sequences@.len() == i,
                forall|j: int| 0 <= j < i ==> #[trigger] sequences@[j]@.len() == 0,
            decreases STATE_COUNT - i,
        {
            sequences.push(Vec::new());
            i = i + 1;
        }
        AnimationLibrary { sequences }
    }

    /// Registers the frames of `state`, replacing any earlier sequence for it.
    /// An empty list is refused and leaves the library as it was.
    pub fn register(&mut self, state: AnimationState, frames: Vec<H>) -> (r: Result<(), LibraryError>)
        requires
            old(self).wf(),
        ensures
            final(self).wf(),
            r is Err <==> frames@.len() == 0,
            r is Err ==> r == Err::<(), LibraryError>(LibraryError::EmptySequence) && final(self).frames(state) == old(self).frames(state),
            r is Ok ==> final(self).frames(state) == frames@,
            forall|s: AnimationState| s != state ==> #[trigger] final(self).frames(s) == old(self).frames(s),
    {
        if frames.len() == 0 {
            return Err(LibraryError::EmptySequence);
        }
        let i = slot(state);
        self.sequences.set(i, frames);
        proof {
            assert forall|j: int| 0 <= j < STATE_COUNT implies #[trigger] self.sequences@[j]@.len() <= usize::MAX by {
                if j != i as int {
                    assert(self.sequences@[j] == old(self).sequences@[j]);
                }
            }
            assert forall|s: AnimationState| s != state implies #[trigger] self.frames(s) == old(self).frames(s) by {
                assert(slot_of(s) != slot_of(state));
            }
        }
        Ok(())
    }

    /// The sequence of `state`, or `None` when it has none.
    pub fn get(&self, state: AnimationState) -> (r: Option<&Vec<H>>)
        requires
            self.wf(),
        ensures
            r is None <==> self.frames(state).len() == 0,
            r matches Some(v) ==> v@ == self.frames(state),
    {
        let v = &self.sequences[slot(state)];
        if v.len() == 0 {
            None
        } else {
            Some(v)
        }
    }

    /// Number of frames of `state`, zero when it has no sequence.
    pub fn frame_count(&self, state: AnimationState) -> (r: usize)
        requires
            self.wf(),
        ensures
            r == self.frames(state).len(),
    {
        self.sequences[slot(state)].len()
    }

    /// Frame `index` of the sequence of `state`, if there is one.
    pub fn frame(&self, state: AnimationState, index: usize) -> (r: Option<&H>)
        requires
            self.wf(),
        ensures
            r is Some <==> index < self.frames(state).len(),
            r matches Some(h) ==> *h == self.frames(state)[index as int],
    {
        let v = &self.sequences[slot(state)];
        if index < v.len() {
            Some(&v[index])
        } else {
            None
        }
    }
}

} // verus!
