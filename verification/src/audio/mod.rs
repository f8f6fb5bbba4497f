//! Bookkeeping of the spatial audio engine: sound sources, their ids and the
//! recent-events log. Gains and panning are computed by the caller in
//! floating point from the positions held here (`f32` bit patterns).
use vstd::prelude::*;
use vstd::string::*;
use crate::float_bits::F32_ONE;

verus! {

/// Bit pattern of `2.0_f32`, the default distance where attenuation starts.
pub const DEFAULT_MIN_DISTANCE: u32 = 0x4000_0000;

/// Bit pattern of `60.0_f32`, the default audible distance.
pub const DEFAULT_MAX_DISTANCE: u32 = 0x4270_0000;

/// Number of entries the recent-events log keeps.
pub const EVENT_LOG_CAPACITY: usize = 10;

/// Age in nanoseconds from which an entry leaves the recent-events log: the
/// smallest age whose length in `f32` seconds (`Duration::as_secs_f32`)
/// reaches `4.0`, i.e. 3.99999984 s, since `as_secs_f32` rounds every larger
/// age to at least `4.0` and every smaller one below it.
pub const EVENT_LOG_RETENTION_NS: u64 = 3_999_999_840;

/// Kind of sound effect of the engine.
#[derive(Clone, Copy, Debug, PartialEq, Eq, Structural)]
pub enum SoundEffect {
    Explosion,
    Footstep,
    Impact,
    Jump,
    Laser,
    WindBreeze,
}

/// Display name of the sources that play an effect.
pub open spec fn effect_label_spec(effect: SoundEffect) -> Seq<char> {
    match effect {
        SoundEffect::Explosion => "💥 Détonation"@,
        SoundEffect::Footstep => "👟 Pas Joueur"@,
        SoundEffect::Impact => "🔨 Choc Physique"@,
        SoundEffect::Jump => "💨 Saut"@,
        SoundEffect::Laser => "⚡ Laser"@,
        SoundEffect::WindBreeze => "🍃 Brise de Vent"@,
    }
}

/// Display name of the sources that play an effect.
pub fn effect_label(effect: SoundEffect) -> (r: &'static str)
    ensures
        r@ == effect_label_spec(effect),
{
    match effect {
        SoundEffect::Explosion => "💥 Détonation",
        SoundEffect::Footstep => "👟 Pas Joueur",
        SoundEffect::Impact => "🔨 Choc Physique",
        SoundEffect::Jump => "💨 Saut",
        SoundEffect::Laser => "⚡ Laser",
        SoundEffect::WindBreeze => "🍃 Brise de Vent",
    }
}

/// A positioned sound source; scalars are `f32` bit patterns.
#[derive(Clone, Debug)]
pub struct AudioSource3D {
    pub id: usize,
    pub name: String,
    pub position: [u32; 3],
    pub velocity: [u32; 3],
    pub effect: SoundEffect,
    pub base_volume: u32,
    /// Distance before attenuation starts.
    pub min_distance: u32,
    /// Largest audible distance.
    pub max_distance: u32,
    pub is_looping: bool,
    pub is_playing: bool,
    pub pitch: u32,
}

impl AudioSource3D {
    /// A playing, non-looping source at rest with unit volume and pitch,
    /// attenuated from 2 m and audible up to 60 m.
    pub fn new(id: usize, name: &str, pos: [u32; 3], effect: SoundEffect) -> (r: Self)
        ensures
            r.id == id,
            r.name@ == name@,
            r.position == pos,
            r.velocity == [0u32, 0u32, 0u32],
            r.effect == effect,
            r.base_volume == F32_ONE,
            r.min_distance == DEFAULT_MIN_DISTANCE,
            r.max_distance == DEFAULT_MAX_DISTANCE,
            !r.is_looping,
            r.is_playing,
            r.pitch == F32_ONE,
    {
        AudioSource3D {
            id,
            name: String::from_str(name),
            position: pos,
            velocity: [0, 0, 0],
            effect,
            base_volume: F32_ONE,
            min_distance: DEFAULT_MIN_DISTANCE,
            max_distance: DEFAULT_MAX_DISTANCE,
            is_looping: false,
            is_playing: true,
            pitch: F32_ONE,
        }
    }
}

/// Whether a source survives an update: it still plays, or it loops.
pub open spec fn source_kept(s: AudioSource3D) -> bool {
    s.is_looping || s.is_playing
}

/// Whether a log entry stamped `t` is still recent at time `now` (ns).
pub open spec fn log_entry_recent(now: u64, t: u64) -> bool {
    now - t < EVENT_LOG_RETENTION_NS
}

/// The predicate `source_kept`, as a value.
pub open spec fn kept_sources() -> spec_fn(AudioSource3D) -> bool {
    |s: AudioSource3D| source_kept(s)
}

/// The predicate `log_entry_recent` at time `now`, as a value.
pub open spec fn recent_entries(now: u64) -> spec_fn((String, u64)) -> bool {
    |e: (String, u64)| log_entry_recent(now, e.1)
}

/// The log after appending `entry`: at most the ten most recent entries.
pub open spec fn log_after_push(log: Seq<(String, u64)>, entry: (String, u64)) -> Seq<(String, u64)> {
    if log.len() + 1 > EVENT_LOG_CAPACITY {
        log.push(entry).drop_first()
    } else {
        log.push(entry)
    }
}

/// The spatial audio engine: listener frame, sources, master volume, next
/// source id and a log of recent events stamped in nanoseconds.
pub struct SpatialAudioEngine {
    pub listener_pos: [u32; 3],
    pub listener_forward: [u32; 3],
    pub listener_right: [u32; 3],
    pub sources: Vec<AudioSource3D>,
    pub master_volume: u32,
    pub next_source_id: usize,
    pub active_events_log: Vec<(String, u64)>,
}

impl SpatialAudioEngine {
    /// Sources have distinct ids, all below the next id, and the log holds at
    /// most ten entries.
    pub open spec fn wf(&self) -> bool {
        &&& forall|i: int, j: int|
            0 <= i < j < self.sources@.len() ==> (#[trigger] self.sources@[i]).id < (
            #[trigger] self.sources@[j]).id
        &&& forall|i: int| 0 <= i < self.sources@.len() ==> (#[trigger] self.sources@[i]).id < self.next_source_id
        &&& self.active_events_log@.len() <= EVENT_LOG_CAPACITY
    }

    /// A new engine: listener at the origin looking down -Z with +X on its
    /// right, no source, unit master volume, empty log.
    pub open spec fn is_fresh(&self) -> bool {
        &&& self.listener_pos == [0u32, 0u32, 0u32]
        &&& self.listener_forward == [0u32, 0u32, 0xbf80_0000u32]
        &&& self.listener_right == [F32_ONE, 0u32, 0u32]
        &&& self.sources@.len() == 0
        &&& self.master_volume == F32_ONE
        &&& self.next_source_id == 0
        &&& self.active_events_log@.len() == 0
    }

    /// Listener at the origin looking down -Z with +X on its right, no
    /// source, unit master volume.
    pub fn new() -> (r: Self)
        ensures
            r.is_fresh(),
            r.wf(),
    {
        SpatialAudioEngine {
            listener_pos: [0, 0, 0],
            listener_forward: [0, 0, 0xbf80_0000],
            listener_right: [F32_ONE, 0, 0],
            sources: Vec::new(),
            master_volume: F32_ONE,
            next_source_id: 0,
            active_events_log: Vec::new(),
        }
    }

    /// Starts a one-shot sound of `effect` at `pos` with the given base
    /// volume (the requested volume times the master volume, computed by the
    /// caller), logs `log_text` at time `now_ns`, keeping the ten most recent
    /// entries, and returns the id of the new source.
    pub fn play_spatial_sound(
        &mut self,
        effect: SoundEffect,
        pos: [u32; 3],
        base_volume: u32,
        log_text: String,
        now_ns: u64,
    ) -> (r: usize)
        requires
            old(self).next_source_id < usize::MAX,
        ensures
            r == old(self).next_source_id,
            final(self).next_source_id == old(self).next_source_id + 1,
            final(self).sources@.len() == old(self).sources@.len() + 1,
            final(self).sources@.drop_last() == old(self).sources@,
            final(self).sources@.last().id == r,
            final(self).sources@.last().name@ == effect_label_spec(effect),
            final(self).sources@.last().effect == effect,
            final(self).sources@.last().position == pos,
            final(self).sources@.last().base_volume == base_volume,
            final(self).sources@.last().is_playing,
            !final(self).sources@.last().is_looping,
            final(self).sources@.last().velocity == [0u32, 0u32, 0u32],
            final(self).sources@.last().min_distance == DEFAULT_MIN_DISTANCE,
            final(self).sources@.last().max_distance == DEFAULT_MAX_DISTANCE,
            final(self).sources@.last().pitch == F32_ONE,
            final(self).active_events_log@ == log_after_push(old(self).active_events_log@, (log_text, now_ns)),
            final(self).listener_pos == old(self).listener_pos,
            final(self).listener_forward == old(self).listener_forward,
            final(self).listener_right == old(self).listener_right,
            final(self).master_volume == old(self).master_volume,
            old(self).wf() ==> final(self).wf(),
    {
        let id = self.next_source_id;
        self.next_source_id = self.next_source_id + 1;
        let name = effect_label(effect);
        let mut source = AudioSource3D::new(id, name, pos, effect);
        source.base_volume = base_volume;
        self.sources.push(source);
        self.active_events_log.push((log_text, now_ns));
        if self.active_events_log.len() > EVENT_LOG_CAPACITY {
            self.active_events_log.remove(0);
        }
        id
    }

    /// Drops the sources that finished playing (looping ones stay) and the
    /// log entries four seconds old (in `f32` seconds) at time `now_ns`, keeping order.
    pub fn update(&mut self, now_ns: u64)
        ensures
            final(self).sources@ == old(self).sources@.filter(kept_sources()),
            final(self).active_events_log@ == old(self).active_events_log@.filter(recent_entries(now_ns)),
            final(self).next_source_id == old(self).next_source_id,
            final(self).master_volume == old(self).master_volume,
            final(self).listener_pos == old(self).listener_pos,
            final(self).listener_forward == old(self).listener_forward,
            final(self).listener_right == old(self).listener_right,
            forall|i: int|
                0 <= i < old(self).sources@.len() && (old(self).sources@[i].is_playing || old(
                    self,
                ).sources@[i].is_looping) ==> final(self).sources@.contains(
                    #[trigger] old(self).sources@[i],
                ),
            forall|j: int|
                0 <= j < final(self).sources@.len() ==> (#[trigger] final(self).sources@[j]).is_playing
                    || final(self).sources@[j].is_looping,
            forall|j: int|
                0 <= j < final(self).sources@.len() ==> old(self).sources@.contains(
                    #[trigger] final(self).sources@[j],
                ),
            forall|i: int|
                0 <= i < old(self).active_events_log@.len() && now_ns - old(self).active_events_log@[i].1
                    < EVENT_LOG_RETENTION_NS ==> final(self).active_events_log@.contains(
                    #[trigger] old(self).active_events_log@[i],
                ),
            forall|j: int|
                0 <= j < final(self).active_events_log@.len() ==> now_ns - (
                #[trigger] final(self).active_events_log@[j]).1 < EVENT_LOG_RETENTION_NS,
            old(self).wf() ==> final(self).wf(),
    {
        let ghost keep = kept_sources();
        let ghost orig = self.sources@;
        let mut rest: Vec<AudioSource3D> = Vec::new();
        std::mem::swap(&mut rest, &mut self.sources);
        let n = rest.len();
        let mut i: usize = 0;
        while i < n
            invariant
                n == orig.len(),
                0 <= i <= n,
                keep == kept_sources(),
                orig == old(self).sources@,
                self.next_source_id == old(self).next_source_id,
                self.master_volume == old(self).master_volume,
                self.listener_pos == old(self).listener_pos,
                self.listener_forward == old(self).listener_forward,
                self.listener_right == old(self).listener_right,
                self.active_events_log@ == old(self).active_events_log@,
                rest@ == orig.skip(i as int),
                self.sources@ == orig.take(i as int).filter(keep),
            decreases n - i,
        {
            let s = rest.remove(0);
            proof {
                assert(s == orig[i as int]);
                assert(orig.take(i + 1).drop_last() =~= orig.take(i as int));
                assert(orig.take(i + 1).last() == orig[i as int]);
                reveal_with_fuel(Seq::<_>::filter, 1);
                assert(orig.take(i + 1).filter(keep) == if keep(s) {
                    orig.take(i as int).filter(keep).push(s)
                } else {
                    orig.take(i as int).filter(keep)
                });
                assert(orig.skip(i as int).remove(0) =~= orig.skip(i + 1));
            }
            if s.is_looping || s.is_playing {
                self.sources.push(s);
            }
            i = i + 1;
        }
        assert(orig.take(n as int) =~= orig);

        let ghost recent = recent_entries(now_ns);
        let ghost orig_log = self.active_events_log@;
        let mut rest_log: Vec<(String, u64)> = Vec::new();
        std::mem::swap(&mut rest_log, &mut self.active_events_log);
        let m = rest_log.len();
        let mut j: usize = 0;
        while j < m
            invariant
                m == orig_log.len(),
                0 <= j <= m,
                recent == recent_entries(now_ns),
                orig_log == old(self).active_events_log@,
                self.sources@ == old(self).sources@.filter(kept_sources()),
                self.next_source_id == old(self).next_source_id,
                self.master_volume == old(self).master_volume,
                self.listener_pos == old(self).listener_pos,
                self.listener_forward == old(self).listener_forward,
                self.listener_right == old(self).listener_right,
                rest_log@ == orig_log.skip(j as int),
                self.active_events_log@ == orig_log.take(j as int).filter(recent),
            decreases m - j,
        {
            let e = rest_log.remove(0);
            proof {
                assert(e == orig_log[j as int]);
                assert(orig_log.take(j + 1).drop_last() =~= orig_log.take(j as int));
                assert(orig_log.take(j + 1).last() == orig_log[j as int]);
                reveal_with_fuel(Seq::<_>::filter, 1);
                assert(orig_log.take(j + 1).filter(recent) == if recent(e) {
                    orig_log.take(j as int).filter(recent).push(e)
                } else {
                    orig_log.take(j as int).filter(recent)
                });
                assert(orig_log.skip(j as int).remove(0) =~= orig_log.skip(j + 1));
            }
            let age_ok = if now_ns >= e.1 { now_ns - e.1 < EVENT_LOG_RETENTION_NS } else { true };
            if age_ok {
                self.active_events_log.push(e);
            }
            j = j + 1;
        }
        assert(orig_log.take(m as int) =~= orig_log);
        proof {
            lemma_filter_keeps_order(orig, keep);
            orig_log.lemma_filter_len(recent);
            lemma_update_keeps_live_sources(orig);
            lemma_update_keeps_recent_entries(orig_log, now_ns);
        }
    }
}

impl Default for SpatialAudioEngine {
    fn default() -> (r: Self)
        ensures
            r.is_fresh(),
    {
        SpatialAudioEngine::new()
    }
}

/// An update keeps every source that is still playing and every source that
/// loops, and only those: a source leaves exactly when it neither plays nor
/// loops, so setting either flag never makes a source leave.
pub proof fn lemma_update_keeps_live_sources(sources: Seq<AudioSource3D>)
    ensures
        forall|i: int|
            0 <= i < sources.len() && (sources[i].is_playing || sources[i].is_looping)
                ==> sources.filter(kept_sources()).contains(#[trigger] sources[i]),
        forall|j: int|
            0 <= j < sources.filter(kept_sources()).len() ==> (#[trigger] sources.filter(
                kept_sources(),
            )[j]).is_playing || sources.filter(kept_sources())[j].is_looping,
        forall|j: int|
            0 <= j < sources.filter(kept_sources()).len() ==> sources.contains(
                #[trigger] sources.filter(kept_sources())[j],
            ),
{
    let kept = sources.filter(kept_sources());
    assert forall|i: int|
        0 <= i < sources.len() && (sources[i].is_playing || sources[i].is_looping) implies kept.contains(
            #[trigger] sources[i],
        ) by {
        sources.lemma_filter_contains(kept_sources(), i);
    }
    assert forall|j: int| 0 <= j < kept.len() implies (#[trigger] kept[j]).is_playing || kept[j].is_looping by {
        sources.lemma_filter_pred(kept_sources(), j);
    }
    assert forall|j: int| 0 <= j < kept.len() implies sources.contains(#[trigger] kept[j]) by {
        assert(kept.contains(kept[j]));
        sources.lemma_filter_contains_rev(kept_sources(), kept[j]);
    }
}

/// At time `now`, an update keeps every log entry younger than the
/// retention age and only those.
pub proof fn lemma_update_keeps_recent_entries(log: Seq<(String, u64)>, now: u64)
    ensures
        forall|i: int|
            0 <= i < log.len() && now - log[i].1 < EVENT_LOG_RETENTION_NS ==> log.filter(
                recent_entries(now),
            ).contains(#[trigger] log[i]),
        forall|j: int|
            0 <= j < log.filter(recent_entries(now)).len() ==> now - (#[trigger] log.filter(
                recent_entries(now),
            )[j]).1 < EVENT_LOG_RETENTION_NS,
{
    let kept = log.filter(recent_entries(now));
    assert forall|i: int|
        0 <= i < log.len() && now - log[i].1 < EVENT_LOG_RETENTION_NS implies kept.contains(
            #[trigger] log[i],
        ) by {
        log.lemma_filter_contains(recent_entries(now), i);
    }
    assert forall|j: int| 0 <= j < kept.len() implies now - (#[trigger] kept[j]).1 < EVENT_LOG_RETENTION_NS by {
        log.lemma_filter_pred(recent_entries(now), j);
    }
}

/// Filtering keeps elements in order: every element of the result comes from
/// the input, and elements keep their relative order.
proof fn lemma_filter_keeps_order(s: Seq<AudioSource3D>, p: spec_fn(AudioSource3D) -> bool)
    ensures
        forall|i: int, j: int|
            0 <= i < j < s.filter(p).len() ==> exists|a: int, b: int|
                0 <= a < b < s.len() && s[a] == #[trigger] s.filter(p)[i] && s[b] == #[trigger] s.filter(
                    p,
                )[j],
        forall|i: int|
            0 <= i < s.filter(p).len() ==> exists|a: int| 0 <= a < s.len() && s[a] == #[trigger] s.filter(p)[i],
    decreases s.len(),
{
    reveal_with_fuel(Seq::<_>::filter, 1);
    if s.len() > 0 {
        let t = s.drop_last();
        lemma_filter_keeps_order(t, p);
        t.lemma_filter_len(p);
        assert forall|i: int|
            0 <= i < s.filter(p).len() implies exists|a: int| 0 <= a < s.len() && s[a] == #[trigger] s.filter(p)[i] by {
            if i < t.filter(p).len() {
                let a = choose|a: int| 0 <= a < t.len() && t[a] == #[trigger] t.filter(p)[i];
                assert(s[a] == t[a]);
            } else {
                assert(s[s.len() - 1] == s.filter(p)[i]);
            }
        }
        assert forall|i: int, j: int|
            0 <= i < j < s.filter(p).len() implies exists|a: int, b: int|
                0 <= a < b < s.len() && s[a] == #[trigger] s.filter(p)[i] && s[b] == #[trigger] s.filter(
                    p,
                )[j] by {
            if j < t.filter(p).len() {
                let (a, b) = choose|a: int, b: int|
                    0 <= a < b < t.len() && t[a] == #[trigger] t.filter(p)[i] && t[b] == #[trigger] t.filter(p)[j];
                assert(s[a] == t[a] && s[b] == t[b]);
            } else {
                let a = choose|a: int| 0 <= a < t.len() && t[a] == #[trigger] t.filter(p)[i];
                assert(s[a] == t[a]);
                assert(s[s.len() - 1] == s.filter(p)[j]);
            }
        }
    }
}

} // verus!
