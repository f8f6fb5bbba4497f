//! The checkpoint race of the flying-car game.
use vstd::prelude::*;

verus! {

/// Bit pattern of `6.5_f32`, the radius of a checkpoint ring.
pub const CHECKPOINT_RADIUS: u32 = 0x40d0_0000;

/// Points scored for each checkpoint passed.
pub const CHECKPOINT_SCORE: u32 = 500;

/// A holographic ring of the race; position and radius are `f32` bit patterns.
#[derive(Clone, Copy, Debug, PartialEq, Eq)]
pub struct CyberCheckpoint {
    pub position: [u32; 3],
    pub radius: u32,
    pub passed: bool,
}

/// State of the race: checkpoints in order, the next one to pass, the race
/// time (an `f32` bit pattern), whether the lap is done and the score.
#[derive(Clone, Debug)]
pub struct CyberCitySystem {
    pub checkpoints: Vec<CyberCheckpoint>,
    pub current_checkpoint_idx: usize,
    pub race_time: u32,
    pub lap_completed: bool,
    pub score: u32,
}

/// The seven ring positions of the circuit, slaloming between the towers.
pub open spec fn circuit_positions() -> Seq<[u32; 3]> {
    seq![
        [0x0000_0000u32, 0x4190_0000u32, 0x41f0_0000u32],
        [0x4220_0000u32, 0x41e0_0000u32, 0x42b4_0000u32],
        [0x42a0_0000u32, 0x4234_0000u32, 0x4220_0000u32],
        [0x4248_0000u32, 0x420c_0000u32, 0xc220_0000u32],
        [0xc220_0000u32, 0x41b0_0000u32, 0xc2a0_0000u32],
        [0xc2a0_0000u32, 0x4218_0000u32, 0xc1a0_0000u32],
        [0xc248_0000u32, 0x41a0_0000u32, 0x41a0_0000u32],
    ]
}

impl CyberCitySystem {
    /// The race invariant: the rings before the current one, and only those,
    /// are passed; the score counts them; the lap is complete exactly when
    /// every ring is passed.
    pub open spec fn wf(&self) -> bool {
        &&& self.current_checkpoint_idx <= self.checkpoints@.len()
        &&& forall|k: int|
            0 <= k < self.checkpoints@.len() ==> (#[trigger] self.checkpoints@[k]).passed == (k
                < self.current_checkpoint_idx)
        &&& self.score == CHECKPOINT_SCORE * self.current_checkpoint_idx
        &&& self.lap_completed == (self.current_checkpoint_idx == self.checkpoints@.len())
    }

    /// The start of a race on the seven-ring circuit: no ring passed, time
    /// zero, no score.
    pub open spec fn is_start(&self) -> bool {
        &&& self.checkpoints@.len() == 7
        &&& forall|k: int|
            0 <= k < 7 ==> (#[trigger] self.checkpoints@[k]).position == circuit_positions()[k]
                && self.checkpoints@[k].radius == CHECKPOINT_RADIUS && !self.checkpoints@[k].passed
        &&& self.current_checkpoint_idx == 0
        &&& self.race_time == 0
        &&& self.score == 0
        &&& !self.lap_completed
    }

    /// The seven-ring circuit, nothing passed yet, time zero.
    pub fn new() -> (r: Self)
        ensures
            r.is_start(),
            r.wf(),
    {
        let mut checkpoints: Vec<CyberCheckpoint> = Vec::new();
        checkpoints.push(
            CyberCheckpoint { position: [0x0000_0000, 0x4190_0000, 0x41f0_0000], radius: CHECKPOINT_RADIUS, passed: false },
        );
        checkpoints.push(
            CyberCheckpoint { position: [0x4220_0000, 0x41e0_0000, 0x42b4_0000], radius: CHECKPOINT_RADIUS, passed: false },
        );
        checkpoints.push(
            CyberCheckpoint { position: [0x42a0_0000, 0x4234_0000, 0x4220_0000], radius: CHECKPOINT_RADIUS, passed: false },
        );
        checkpoints.push(
            CyberCheckpoint { position: [0x4248_0000, 0x420c_0000, 0xc220_0000], radius: CHECKPOINT_RADIUS, passed: false },
        );
        checkpoints.push(
            CyberCheckpoint { position: [0xc220_0000, 0x41b0_0000, 0xc2a0_0000], radius: CHECKPOINT_RADIUS, passed: false },
        );
        checkpoints.push(
            CyberCheckpoint { position: [0xc2a0_0000, 0x4218_0000, 0xc1a0_0000], radius: CHECKPOINT_RADIUS, passed: false },
        );
        checkpoints.push(
            CyberCheckpoint { position: [0xc248_0000, 0x41a0_0000, 0x41a0_0000], radius: CHECKPOINT_RADIUS, passed: false },
        );
        CyberCitySystem {
            checkpoints,
            current_checkpoint_idx: 0,
            race_time: 0,
            lap_completed: false,
            score: 0,
        }
    }

    /// Advances the race by one frame. `race_time` is the new race time and
    /// `reached_current` tells whether the spinner is within the radius of the
    /// current ring (both computed by the caller in `f32`). Passing the ring
    /// marks it, moves to the next one, scores 500 and completes the lap after
    /// the last ring; the index of the ring passed is returned.
    pub fn update(&mut self, race_time: u32, reached_current: bool) -> (r: Option<usize>)
        requires
            old(self).current_checkpoint_idx < old(self).checkpoints@.len() && reached_current
                ==> old(self).score + CHECKPOINT_SCORE <= u32::MAX,
        ensures
            final(self).race_time == race_time,
            final(self).checkpoints@.len() == old(self).checkpoints@.len(),
            old(self).current_checkpoint_idx < old(self).checkpoints@.len() && reached_current ==> {
                &&& r == Some(old(self).current_checkpoint_idx)
                &&& final(self).current_checkpoint_idx == old(self).current_checkpoint_idx + 1
                &&& final(self).score == old(self).score + CHECKPOINT_SCORE
                &&& final(self).checkpoints@ == old(self).checkpoints@.update(
                    old(self).current_checkpoint_idx as int,
                    CyberCheckpoint {
                        passed: true,
                        ..old(self).checkpoints@[old(self).current_checkpoint_idx as int]
                    },
                )
                &&& final(self).lap_completed == (final(self).current_checkpoint_idx
                    >= old(self).checkpoints@.len() || old(self).lap_completed)
            },
            !(old(self).current_checkpoint_idx < old(self).checkpoints@.len() && reached_current) ==> {
                &&& r is None
                &&& final(self).current_checkpoint_idx == old(self).current_checkpoint_idx
                &&& final(self).score == old(self).score
                &&& final(self).checkpoints@ == old(self).checkpoints@
                &&& final(self).lap_completed == old(self).lap_completed
            },
            old(self).wf() ==> final(self).wf(),
    {
        self.race_time = race_time;
        if self.current_checkpoint_idx < self.checkpoints.len() && reached_current {
            let passed_idx = self.current_checkpoint_idx;
            let mut cp = self.checkpoints[passed_idx];
            cp.passed = true;
            self.checkpoints.set(passed_idx, cp);
            self.current_checkpoint_idx = passed_idx + 1;
            self.score = self.score + CHECKPOINT_SCORE;
            if self.current_checkpoint_idx >= self.checkpoints.len() {
                self.lap_completed = true;
            }
            return Some(passed_idx);
        }
        None
    }
}

impl Default for CyberCitySystem {
    fn default() -> (r: Self)
        ensures
            r.is_start(),
            r.wf(),
    {
        CyberCitySystem::new()
    }
}

} // verus!
