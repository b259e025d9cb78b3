//! The animation catalog and the per-entity animation state machine.
//!
//! An [`AnimationLibrary`] is an immutable catalog mapping animation names to
//! [`Animation`] definitions; it is built once and only read afterwards. An
//! [`AnimationState`] tracks, for one entity, which animation is playing,
//! which of its frames is shown, the repeating frame timer, and an optional
//! pending "play this, then return to that" transition. The advance step
//! consumes an elapsed-time delta and yields the sprite-sheet frame index to
//! display.

use vstd::prelude::*;
use crate::timer::{Timer, TimerMode};

verus! {

/// A named, ordered, non-empty sequence of sprite-sheet frame indices, each
/// displayed for the same positive number of milliseconds. Duplicates are
/// allowed; the order is playback order.
#[derive(Clone, Debug)]
pub struct Animation {
    pub name: String,
    pub frames: Vec<usize>,
    pub frame_duration_ms: u64,
}

/// Why a construction or a command was rejected. Every failure is local and
/// recoverable; the caller decides whether to log, ignore, or substitute.
#[derive(Clone, Copy, PartialEq, Eq, Structural, Debug)]
pub enum AnimationError {
    /// An animation was given no frames; playing it would have no frame to
    /// show and nothing for the frame index to wrap over.
    EmptyAnimation,
    /// A frame or hold duration of zero milliseconds; a countdown with no
    /// period is meaningless.
    NonPositiveDuration,
}

impl Animation {
    /// A valid animation has at least one frame and a positive frame duration.
    pub open spec fn wf(self) -> bool {
        self.frames@.len() > 0 && self.frame_duration_ms > 0
    }

    /// Construct an animation, rejecting an empty frame list or a zero
    /// duration.
    pub fn new(name: String, frames: Vec<usize>, frame_duration_ms: u64) -> (r: Result<
        Animation,
        AnimationError,
    >)
        ensures
            r is Ok <==> frames@.len() > 0 && frame_duration_ms > 0,
            frames@.len() == 0 ==> r == Err::<Animation, AnimationError>(
                AnimationError::EmptyAnimation,
            ),
            frames@.len() > 0 && frame_duration_ms == 0 ==> r == Err::<Animation, AnimationError>(
                AnimationError::NonPositiveDuration,
            ),
            r matches Ok(a) ==> a == (Animation { name, frames, frame_duration_ms }) && a.wf(),
    {
        if frames.len() == 0 {
            Err(AnimationError::EmptyAnimation)
        } else if frame_duration_ms == 0 {
            Err(AnimationError::NonPositiveDuration)
        } else {
            Ok(Animation { name, frames, frame_duration_ms })
        }
    }
}

/// The first animation in `anims` whose name reads `name`, if any.
pub open spec fn seq_find(anims: Seq<Animation>, name: Seq<char>) -> Option<Animation>
    decreases anims.len(),
{
    if anims.len() == 0 {
        None
    } else if anims[0].name@ == name {
        Some(anims[0])
    } else {
        seq_find(anims.skip(1), name)
    }
}

/// Every animation in `anims` is valid.
pub open spec fn all_wf(anims: Seq<Animation>) -> bool {
    forall|i: int| 0 <= i < anims.len() ==> (#[trigger] anims[i]).wf()
}

/// No two animations in `anims` share a name.
pub open spec fn unique_names(anims: Seq<Animation>) -> bool {
    forall|i: int, j: int|
        0 <= i < j < anims.len() ==> (#[trigger] anims[i]).name@ != (#[trigger] anims[j]).name@
}

/// A found animation is an element of the sequence and carries the name it
/// was found under; a miss means no element carries the name.
pub proof fn lemma_seq_find_is_element(anims: Seq<Animation>, name: Seq<char>)
    ensures
        seq_find(anims, name) matches Some(a) ==> a.name@ == name && exists|i: int|
            0 <= i < anims.len() && anims[i] == a,
        seq_find(anims, name) is None ==> forall|i: int|
            0 <= i < anims.len() ==> (#[trigger] anims[i]).name@ != name,
    decreases anims.len(),
{
    if anims.len() == 0 {
    } else if anims[0].name@ == name {
    } else {
        lemma_seq_find_is_element(anims.skip(1), name);
        assert(forall|i: int|
            0 <= i < anims.skip(1).len() ==> #[trigger] anims.skip(1)[i] == anims[i + 1]);
        if seq_find(anims.skip(1), name) is Some {
            let a = seq_find(anims.skip(1), name)->Some_0;
            let i = choose|i: int| 0 <= i < anims.skip(1).len() && anims.skip(1)[i] == a;
            assert(anims[i + 1] == a);
        } else {
            assert forall|i: int| 0 <= i < anims.len() implies (#[trigger] anims[i]).name@
                != name by {
                if i > 0 {
                    assert(anims[i] == anims.skip(1)[i - 1]);
                }
            }
        }
    }
}

/// Skipping a prefix with no match leaves the search result unchanged.
proof fn lemma_seq_find_skip(anims: Seq<Animation>, name: Seq<char>, i: int)
    requires
        0 <= i <= anims.len(),
        forall|j: int| 0 <= j < i ==> (#[trigger] anims[j]).name@ != name,
    ensures
        seq_find(anims, name) == seq_find(anims.skip(i), name),
    decreases i,
{
    if i > 0 {
        assert(anims.len() > 0);
        assert(anims[0].name@ != name);
        assert(forall|j: int|
            0 <= j < i - 1 ==> (#[trigger] anims.skip(1)[j]).name@ != name) by {
            assert(forall|j: int|
                0 <= j < anims.skip(1).len() ==> #[trigger] anims.skip(1)[j] == anims[j + 1]);
        }
        lemma_seq_find_skip(anims.skip(1), name, i - 1);
        assert(anims.skip(1).skip(i - 1) =~= anims.skip(i));
    } else {
        assert(anims.skip(0) =~= anims);
    }
}

/// The consecutive sprite-sheet indices `start`, `start + 1`, ..., `end - 1`.
pub open spec fn range_seq(start: usize, end: usize) -> Seq<usize> {
    Seq::new((end - start) as nat, |i: int| (start + i) as usize)
}

/// Append the frame indices `start..end` to a frame list.
fn extend_frame_range(frames: &mut Vec<usize>, start: usize, end: usize)
    requires
        start <= end,
    ensures
        final(frames)@ == old(frames)@ + range_seq(start, end),
{
    let mut k = start;
    while k < end
        invariant
            start <= k <= end,
            frames@ == old(frames)@ + range_seq(start, k),
        decreases end - k,
    {
        frames.push(k);
        proof {
            assert(old(frames)@ + range_seq(start, (k + 1) as usize) =~= (old(frames)@
                + range_seq(start, k)).push(k));
        }
        k = k + 1;
    }
}

/// The frame indices `start..end`, in order.
fn frame_range(start: usize, end: usize) -> (frames: Vec<usize>)
    requires
        start <= end,
    ensures
        frames@ == range_seq(start, end),
{
    let mut frames: Vec<usize> = Vec::new();
    extend_frame_range(&mut frames, start, end);
    proof {
        assert(frames@ =~= range_seq(start, end));
    }
    frames
}

/// An immutable catalog of animations, looked up by name. Built once, read
/// only afterwards: no insertion or removal is offered past construction.
pub struct AnimationLibrary {
    animations: Vec<Animation>,
}

impl AnimationLibrary {
    /// The registered animations, in registration order.
    pub closed spec fn spec_animations(self) -> Seq<Animation> {
        self.animations@
    }

    /// Library invariant: every entry is a valid animation and names are
    /// unique keys. Constructors establish this and nothing disturbs it.
    pub open spec fn wf(self) -> bool {
        all_wf(self.spec_animations()) && unique_names(self.spec_animations())
    }

    /// The definition registered under `name`, if any.
    pub open spec fn spec_get(self, name: Seq<char>) -> Option<Animation> {
        seq_find(self.spec_animations(), name)
    }

    /// Read-only lookup by name; an unknown name yields `None`, never a
    /// default.
    pub fn get(&self, name: &str) -> (r: Option<&Animation>)
        ensures
            match r {
                Some(a) => self.spec_get(name@) == Some(*a),
                None => self.spec_get(name@) is None,
            },
    {
        let key: String = name.to_owned();
        let n = self.animations.len();
        for i in 0..n
            invariant
                n == self.animations@.len(),
                key@ == name@,
                forall|j: int| 0 <= j < i ==> (#[trigger] self.animations@[j]).name@ != name@,
        {
            if self.animations[i].name == key {
                proof {
                    lemma_seq_find_skip(self.animations@, name@, i as int);
                    assert(self.animations@.skip(i as int)[0] == self.animations@[i as int]);
                }
                return Some(&self.animations[i]);
            }
        }
        proof {
            lemma_seq_find_skip(self.animations@, name@, n as int);
        }
        None
    }

    /// The registered names, in registration order.
    pub fn get_animation_names(&self) -> (names: Vec<String>)
        ensures
            names@.len() == self.spec_animations().len(),
            forall|i: int|
                0 <= i < names@.len() ==> names@[i] == (#[trigger] self.spec_animations()[i]).name,
    {
        let mut names: Vec<String> = Vec::new();
        let n = self.animations.len();
        for i in 0..n
            invariant
                n == self.animations@.len(),
                names@.len() == i,
                forall|j: int|
                    0 <= j < i ==> names@[j] == (#[trigger] self.animations@[j]).name,
        {
            names.push(self.animations[i].name.clone());
        }
        names
    }

    /// The entry at position `i` has this name, frame list and frame duration.
    pub open spec fn entry_is(self, i: int, name: Seq<char>, frames: Seq<usize>, duration_ms: u64) -> bool {
        &&& self.spec_animations()[i].name@ == name
        &&& self.spec_animations()[i].frames@ == frames
        &&& self.spec_animations()[i].frame_duration_ms == duration_ms
    }

    /// The fixed catalog for the cat sprite sheet: ten named animations, each
    /// a run (or two runs) of consecutive sheet indices with its own frame
    /// duration.
    pub fn new() -> (lib: AnimationLibrary)
        ensures
            lib.wf(),
            lib.spec_animations().len() == 10,
            lib.entry_is(0, "idle"@, range_seq(0, 6), 500),
            lib.entry_is(1, "walk"@, range_seq(12, 15), 200),
            lib.entry_is(2, "pancake"@, range_seq(24, 25), 500),
            lib.entry_is(3, "sleep"@, range_seq(36, 39), 500),
            lib.entry_is(4, "play"@, range_seq(48, 57), 150),
            lib.entry_is(5, "run"@, range_seq(60, 65), 50),
            lib.entry_is(6, "jump"@, range_seq(72, 80), 100),
            lib.entry_is(7, "box_play"@, range_seq(84, 105) + range_seq(108, 120), 200),
            lib.entry_is(8, "dance"@, range_seq(132, 136), 200),
            lib.entry_is(9, "damage"@, range_seq(204, 212) + range_seq(211, 212), 200),
    {
        let mut animations: Vec<Animation> = Vec::new();
        animations.push(
            Animation { name: "idle".to_owned(), frames: frame_range(0, 6), frame_duration_ms: 500 },
        );
        animations.push(
            Animation { name: "walk".to_owned(), frames: frame_range(12, 15), frame_duration_ms: 200 },
        );
        animations.push(
            Animation {
                name: "pancake".to_owned(),
                frames: frame_range(24, 25),
                frame_duration_ms: 500,
            },
        );
        animations.push(
            Animation { name: "sleep".to_owned(), frames: frame_range(36, 39), frame_duration_ms: 500 },
        );
        animations.push(
            Animation { name: "play".to_owned(), frames: frame_range(48, 57), frame_duration_ms: 150 },
        );
        animations.push(
            Animation { name: "run".to_owned(), frames: frame_range(60, 65), frame_duration_ms: 50 },
        );
        animations.push(
            Animation { name: "jump".to_owned(), frames: frame_range(72, 80), frame_duration_ms: 100 },
        );
        let mut box_play_frames = frame_range(84, 105);
        extend_frame_range(&mut box_play_frames, 108, 120);
        animations.push(
            Animation {
                name: "box_play".to_owned(),
                frames: box_play_frames,
                frame_duration_ms: 200,
            },
        );
        animations.push(
            Animation {
                name: "dance".to_owned(),
                frames: frame_range(132, 136),
                frame_duration_ms: 200,
            },
        );
        let mut damage_frames = frame_range(204, 212);
        extend_frame_range(&mut damage_frames, 211, 212);
        animations.push(
            Animation {
                name: "damage".to_owned(),
                frames: damage_frames,
                frame_duration_ms: 200,
            },
        );
        let lib = AnimationLibrary { animations };
        proof {
            reveal_strlit("idle");
            reveal_strlit("walk");
            reveal_strlit("pancake");
            reveal_strlit("sleep");
            reveal_strlit("play");
            reveal_strlit("run");
            reveal_strlit("jump");
            reveal_strlit("box_play");
            reveal_strlit("dance");
            reveal_strlit("damage");
            assert(all_wf(lib.spec_animations()));
            // the ten names differ pairwise in length or in the leading character
            assert("idle"@.len() == 4 && "idle"@[0] == 'i');
            assert("walk"@.len() == 4 && "walk"@[0] == 'w');
            assert("pancake"@.len() == 7 && "pancake"@[0] == 'p');
            assert("sleep"@.len() == 5 && "sleep"@[0] == 's');
            assert("play"@.len() == 4 && "play"@[0] == 'p');
            assert("run"@.len() == 3 && "run"@[0] == 'r');
            assert("jump"@.len() == 4 && "jump"@[0] == 'j');
            assert("box_play"@.len() == 8 && "box_play"@[0] == 'b');
            assert("dance"@.len() == 5 && "dance"@[0] == 'd');
            assert("damage"@.len() == 6 && "damage"@[0] == 'd');
            let s = lib.spec_animations();
            assert forall|i: int, j: int| 0 <= i < j < s.len() implies (#[trigger] s[i]).name@ != (
            #[trigger] s[j]).name@ by {
                if i == 0 {
                    assert(s[i].name@ == "idle"@);
                } else if i == 1 {
                    assert(s[i].name@ == "walk"@);
                } else if i == 2 {
                    assert(s[i].name@ == "pancake"@);
                } else if i == 3 {
                    assert(s[i].name@ == "sleep"@);
                } else if i == 4 {
                    assert(s[i].name@ == "play"@);
                } else if i == 5 {
                    assert(s[i].name@ == "run"@);
                } else if i == 6 {
                    assert(s[i].name@ == "jump"@);
                } else if i == 7 {
                    assert(s[i].name@ == "box_play"@);
                } else if i == 8 {
                    assert(s[i].name@ == "dance"@);
                }
                if j == 1 {
                    assert(s[j].name@ == "walk"@);
                } else if j == 2 {
                    assert(s[j].name@ == "pancake"@);
                } else if j == 3 {
                    assert(s[j].name@ == "sleep"@);
                } else if j == 4 {
                    assert(s[j].name@ == "play"@);
                } else if j == 5 {
                    assert(s[j].name@ == "run"@);
                } else if j == 6 {
                    assert(s[j].name@ == "jump"@);
                } else if j == 7 {
                    assert(s[j].name@ == "box_play"@);
                } else if j == 8 {
                    assert(s[j].name@ == "dance"@);
                } else if j == 9 {
                    assert(s[j].name@ == "damage"@);
                }
            }
            assert(unique_names(lib.spec_animations()));
        }
        lib
    }

    /// Build a library from an arbitrary list of animations, rejecting a list
    /// with an invalid animation or a repeated name. This is the
    /// construction-time population step; the result is frozen.
    pub fn from_animations(animations: Vec<Animation>) -> (r: Option<AnimationLibrary>)
        ensures
            r is Some <==> all_wf(animations@) && unique_names(animations@),
            r matches Some(lib) ==> lib.wf() && lib.spec_animations() == animations@,
    {
        let n = animations.len();
        for i in 0..n
            invariant
                n == animations@.len(),
                forall|j: int| 0 <= j < i ==> (#[trigger] animations@[j]).wf(),
        {
            if animations[i].frames.len() == 0 || animations[i].frame_duration_ms == 0 {
                return None;
            }
        }
        for i in 0..n
            invariant
                n == animations@.len(),
                forall|p: int, q: int|
                    0 <= p < q < n && p < i ==> (#[trigger] animations@[p]).name@ != (
                    #[trigger] animations@[q]).name@,
        {
            for j in (i + 1)..n
                invariant
                    n == animations@.len(),
                    i < n,
                    forall|p: int, q: int|
                        0 <= p < q < n && p < i ==> (#[trigger] animations@[p]).name@ != (
                        #[trigger] animations@[q]).name@,
                    forall|q: int|
                        i < q < j ==> (#[trigger] animations@[q]).name@ != animations@[i as int].name@,
            {
                if animations[i].name == animations[j].name {
                    return None;
                }
            }
        }
        Some(AnimationLibrary { animations })
    }
}

/// A valid animation found in a valid library keeps its validity; lookups in
/// a well-formed library only ever hand out well-formed animations.
pub proof fn lemma_get_wf(lib: AnimationLibrary, name: Seq<char>)
    requires
        lib.wf(),
    ensures
        lib.spec_get(name) matches Some(a) ==> a.wf() && a.name@ == name,
{
    lemma_seq_find_is_element(lib.spec_animations(), name);
}

/// Per-entity playback state: which animation plays, which of its frames is
/// shown, the repeating frame timer, and an optional scheduled switch to
/// another animation (the name to switch to and the one-shot countdown until
/// the switch).
#[derive(Debug)]
pub struct AnimationState {
    pub current_animation: String,
    pub current_frame: usize,
    pub timer: Timer,
    pub next_animation: Option<(String, Timer)>,
}

/// What a "play animation now" command leaves behind: the named animation
/// from its first frame, no pending transition, and a freshly restarted frame
/// timer with the animation's own period — unless the name is not in the
/// library, in which case the name is still recorded but the previous timer
/// is kept as it was.
pub open spec fn spec_play_post(
    pre: AnimationState,
    post: AnimationState,
    name: Seq<char>,
    lib: AnimationLibrary,
) -> bool {
    &&& post.current_animation@ == name
    &&& post.current_frame == 0
    &&& post.next_animation is None
    &&& post.timer == (match lib.spec_get(name) {
        Some(a) => Timer {
            duration_ms: a.frame_duration_ms,
            elapsed_ms: 0,
            mode: TimerMode::Repeating,
        },
        None => pre.timer,
    })
}

/// What a "play animation, then return" command leaves behind: the effects of
/// "play animation now", plus an armed one-shot transition that will switch to
/// `return_to` after `hold_ms` milliseconds.
pub open spec fn spec_play_then_return_post(
    pre: AnimationState,
    post: AnimationState,
    name: Seq<char>,
    return_to: Seq<char>,
    hold_ms: u64,
    lib: AnimationLibrary,
) -> bool {
    &&& post.current_animation@ == name
    &&& post.current_frame == 0
    &&& (post.next_animation matches Some(p) && p.0@ == return_to && p.1 == (Timer {
        duration_ms: hold_ms,
        elapsed_ms: 0,
        mode: TimerMode::Once,
    }))
    &&& post.timer == (match lib.spec_get(name) {
        Some(a) => Timer {
            duration_ms: a.frame_duration_ms,
            elapsed_ms: 0,
            mode: TimerMode::Repeating,
        },
        None => pre.timer,
    })
}

impl AnimationState {
    /// State invariant: the frame timer is a valid repeating timer, and a
    /// pending transition, if present, carries a valid one-shot timer that
    /// has not yet run out (it is removed the instant it fires).
    pub open spec fn wf(self) -> bool {
        &&& self.timer.wf()
        &&& self.timer.mode is Repeating
        &&& (self.next_animation matches Some(p) ==> p.1.wf() && p.1.mode is Once
            && p.1.elapsed_ms < p.1.duration_ms)
    }

    /// The frame index stays inside the current animation whenever that
    /// animation resolves in the library; an unresolved name carries no
    /// constraint, since no frame of it is ever read.
    pub open spec fn frame_ok(self, lib: AnimationLibrary) -> bool {
        lib.spec_get(self.current_animation@) matches Some(a) ==> self.current_frame
            < a.frames@.len()
    }

    /// Whether the pending transition (if any) fires on a tick of `delta_ms`.
    pub open spec fn transition_fires(self, delta_ms: u64) -> bool {
        self.next_animation matches Some(p) && p.1.fires(delta_ms)
    }

    /// One tick of the state machine. If the pending transition fires, the
    /// tick is spent on the switch: the target animation starts at frame 0
    /// with a freshly restarted frame timer (kept stale if the target is not
    /// in the library), and the transition is cleared. Otherwise the pending
    /// countdown (if any) accumulates the delta, and — only when the current
    /// animation resolves — the frame timer ticks and advances the frame by
    /// at most one, wrapping at the frame count.
    pub open spec fn spec_advance(self, delta_ms: u64, lib: AnimationLibrary) -> AnimationState {
        if self.transition_fires(delta_ms) {
            let target = self.next_animation->Some_0.0;
            AnimationState {
                current_animation: target,
                current_frame: 0,
                timer: match lib.spec_get(target@) {
                    Some(a) => Timer {
                        duration_ms: a.frame_duration_ms,
                        elapsed_ms: 0,
                        mode: TimerMode::Repeating,
                    },
                    None => self.timer,
                },
                next_animation: None,
            }
        } else {
            let next2: Option<(String, Timer)> = match self.next_animation {
                Some(p) => Some((p.0, p.1.ticked(delta_ms))),
                None => None,
            };
            match lib.spec_get(self.current_animation@) {
                Some(a) => AnimationState {
                    current_animation: self.current_animation,
                    current_frame: if self.timer.fires(delta_ms) {
                        ((self.current_frame + 1) % (a.frames@.len() as int)) as usize
                    } else {
                        self.current_frame
                    },
                    timer: self.timer.ticked(delta_ms),
                    next_animation: next2,
                },
                None => AnimationState {
                    current_animation: self.current_animation,
                    current_frame: self.current_frame,
                    timer: self.timer,
                    next_animation: next2,
                },
            }
        }
    }

    /// The sprite-sheet index a tick of `delta_ms` puts on display: the
    /// frame the advanced state rests on, or nothing when the animation
    /// playing after the tick is not in the library.
    pub open spec fn spec_display(self, delta_ms: u64, lib: AnimationLibrary) -> Option<usize> {
        let post = self.spec_advance(delta_ms, lib);
        match lib.spec_get(post.current_animation@) {
            Some(a) => Some(a.frames@[post.current_frame as int]),
            None => None,
        }
    }

    /// A state that starts playing `animation_name` with the given frame
    /// period; a zero period is rejected.
    pub fn new(animation_name: &str, frame_duration_ms: u64) -> (r: Result<
        AnimationState,
        AnimationError,
    >)
        ensures
            r is Ok <==> frame_duration_ms > 0,
            frame_duration_ms == 0 ==> r == Err::<AnimationState, AnimationError>(
                AnimationError::NonPositiveDuration,
            ),
            r matches Ok(s) ==> {
                &&& s.current_animation@ == animation_name@
                &&& s.current_frame == 0
                &&& s.timer == (Timer {
                    duration_ms: frame_duration_ms,
                    elapsed_ms: 0,
                    mode: TimerMode::Repeating,
                })
                &&& s.next_animation is None
                &&& s.wf()
            },
    {
        if frame_duration_ms == 0 {
            Err(AnimationError::NonPositiveDuration)
        } else {
            Ok(
                AnimationState {
                    current_animation: animation_name.to_owned(),
                    current_frame: 0,
                    timer: Timer::new(frame_duration_ms, TimerMode::Repeating),
                    next_animation: None,
                },
            )
        }
    }

    /// Unconditionally switch to `animation_name` from its first frame,
    /// dropping any pending transition. If the name resolves, the frame timer
    /// restarts with the animation's period; if not, the name is still
    /// recorded and the previous timer is left as it was.
    pub fn play_animation(&mut self, animation_name: &str, animation_library: &AnimationLibrary)
        requires
            old(self).wf(),
            animation_library.wf(),
        ensures
            spec_play_post(*old(self), *final(self), animation_name@, *animation_library),
            final(self).wf(),
            final(self).frame_ok(*animation_library),
    {
        self.current_animation = animation_name.to_owned();
        self.current_frame = 0;
        self.next_animation = None;
        proof {
            lemma_get_wf(*animation_library, animation_name@);
        }
        match animation_library.get(animation_name) {
            Some(animation) => {
                self.timer = Timer::new(animation.frame_duration_ms, TimerMode::Repeating);
            },
            None => {},
        }
    }

    /// Switch to `animation_name` as `play_animation` does, and additionally
    /// arm a one-shot transition that will switch to `return_to` once
    /// `hold_ms` milliseconds have elapsed. Re-issuing this command before
    /// the transition fires overwrites the pending transition: last write
    /// wins, nothing is queued. A zero hold is rejected and changes nothing.
    pub fn play_animation_then_return(
        &mut self,
        animation_name: &str,
        return_to: &str,
        hold_ms: u64,
        animation_library: &AnimationLibrary,
    ) -> (r: Result<(), AnimationError>)
        requires
            old(self).wf(),
            animation_library.wf(),
        ensures
            hold_ms == 0 ==> r == Err::<(), AnimationError>(AnimationError::NonPositiveDuration)
                && *final(self) == *old(self),
            hold_ms > 0 ==> r == Ok::<(), AnimationError>(()) && spec_play_then_return_post(
                *old(self),
                *final(self),
                animation_name@,
                return_to@,
                hold_ms,
                *animation_library,
            ),
            final(self).wf(),
            hold_ms > 0 ==> final(self).frame_ok(*animation_library),
    {
        if hold_ms == 0 {
            return Err(AnimationError::NonPositiveDuration);
        }
        self.current_animation = animation_name.to_owned();
        self.current_frame = 0;
        self.next_animation = Some((return_to.to_owned(), Timer::new(hold_ms, TimerMode::Once)));
        proof {
            lemma_get_wf(*animation_library, animation_name@);
        }
        match animation_library.get(animation_name) {
            Some(animation) => {
                self.timer = Timer::new(animation.frame_duration_ms, TimerMode::Repeating);
            },
            None => {},
        }
        Ok(())
    }

    /// One tick of the advance step: resolve the pending transition first,
    /// then the frame timer, and report the sprite-sheet index to display
    /// (`None` when the playing animation is not in the library, so the
    /// caller keeps whatever it displayed before). The frame advances at most
    /// once per tick however large `delta_ms` is.
    pub fn advance(&mut self, delta_ms: u64, animation_library: &AnimationLibrary) -> (display:
        Option<usize>)
        requires
            old(self).wf(),
            animation_library.wf(),
            old(self).frame_ok(*animation_library),
        ensures
            *final(self) == old(self).spec_advance(delta_ms, *animation_library),
            display == old(self).spec_display(delta_ms, *animation_library),
            final(self).wf(),
            final(self).frame_ok(*animation_library),
    {
        let mut switched = false;
        let pending = self.next_animation.take();
        match pending {
            Some((target, mut hold)) => {
                let fired = hold.tick(delta_ms);
                if fired {
                    self.current_animation = target;
                    self.current_frame = 0;
                    switched = true;
                } else {
                    self.next_animation = Some((target, hold));
                }
            },
            None => {},
        }
        match animation_library.get(self.current_animation.as_str()) {
            Some(animation) => {
                proof {
                    lemma_get_wf(*animation_library, self.current_animation@);
                }
                if switched {
                    self.timer = Timer::new(animation.frame_duration_ms, TimerMode::Repeating);
                } else {
                    let fired = self.timer.tick(delta_ms);
                    if fired {
                        let frame_count = animation.frames.len();
                        self.current_frame = (self.current_frame + 1) % frame_count;
                    }
                }
                Some(animation.frames[self.current_frame])
            },
            None => None,
        }
    }

    /// Introspection for an overlay: the 1-based frame number within the
    /// current animation and that animation's total frame count, or nothing
    /// when the current name is not in the library.
    pub fn frame_progress(&self, animation_library: &AnimationLibrary) -> (r: Option<
        (usize, usize),
    >)
        requires
            self.frame_ok(*animation_library),
        ensures
            match animation_library.spec_get(self.current_animation@) {
                Some(a) => r == Some(
                    (((self.current_frame + 1) as usize, a.frames@.len() as usize)),
                ),
                None => r is None,
            },
    {
        match animation_library.get(self.current_animation.as_str()) {
            Some(animation) => {
                let frame_count = animation.frames.len();
                Some((self.current_frame + 1, frame_count))
            },
            None => None,
        }
    }

    /// Introspection for an overlay: how long until a pending transition
    /// fires, or nothing when no transition is armed.
    pub fn transition_remaining_ms(&self) -> (r: Option<u64>)
        requires
            self.wf(),
        ensures
            match self.next_animation {
                Some(p) => r == Some((p.1.duration_ms - p.1.elapsed_ms) as u64),
                None => r is None,
            },
    {
        match &self.next_animation {
            Some(p) => Some(p.1.remaining_ms()),
            None => None,
        }
    }
}

/// The state after a whole sequence of ticks, applied first to last.
pub open spec fn spec_advance_all(
    s: AnimationState,
    dts: Seq<u64>,
    lib: AnimationLibrary,
) -> AnimationState
    decreases dts.len(),
{
    if dts.len() == 0 {
        s
    } else {
        spec_advance_all(s.spec_advance(dts[0], lib), dts.skip(1), lib)
    }
}

/// The total elapsed time of a sequence of ticks.
pub open spec fn sum_ms(dts: Seq<u64>) -> int
    decreases dts.len(),
{
    if dts.len() == 0 {
        0
    } else {
        dts[0] + sum_ms(dts.skip(1))
    }
}

/// A sum of deltas is never negative and never below its first delta.
proof fn lemma_sum_ms_nonneg(dts: Seq<u64>)
    ensures
        sum_ms(dts) >= 0,
        dts.len() > 0 ==> sum_ms(dts) >= dts[0],
    decreases dts.len(),
{
    if dts.len() > 0 {
        lemma_sum_ms_nonneg(dts.skip(1));
    }
}

/// Splitting the first delta off a prefix sum: the sum of the first `m`
/// deltas is the first delta plus the sum of the next `m - 1`.
proof fn lemma_sum_ms_take_shift(dts: Seq<u64>, m: int)
    requires
        1 <= m <= dts.len(),
    ensures
        sum_ms(dts.take(m)) == dts[0] + sum_ms(dts.skip(1).take(m - 1)),
{
    assert(dts.take(m).len() == m);
    assert(dts.take(m)[0] == dts[0]);
    assert(dts.take(m).skip(1) =~= dts.skip(1).take(m - 1));
}

/// Construction invariant: every animation in a well-formed library has at
/// least one frame and a positive per-frame display duration.
pub proof fn lemma_library_animations_valid(lib: AnimationLibrary, i: int)
    requires
        lib.wf(),
        0 <= i < lib.spec_animations().len(),
    ensures
        lib.spec_animations()[i].frames@.len() > 0,
        lib.spec_animations()[i].frame_duration_ms > 0,
{
}

/// Helper for the frame-wrap law: over ticks that each complete the frame
/// period, the frame index walks forward one step per tick, modulo the frame
/// count, while the playing animation and the absence of a pending
/// transition persist.
proof fn lemma_all_firing_ticks(s: AnimationState, dts: Seq<u64>, lib: AnimationLibrary)
    requires
        s.wf(),
        lib.wf(),
        s.frame_ok(lib),
        s.next_animation is None,
        lib.spec_get(s.current_animation@) matches Some(a) && a.frames@.len() <= usize::MAX
            && s.timer.duration_ms == a.frame_duration_ms && (forall|k: int|
            0 <= k < dts.len() ==> dts[k] >= a.frame_duration_ms),
    ensures
        spec_advance_all(s, dts, lib).current_animation == s.current_animation,
        spec_advance_all(s, dts, lib).next_animation is None,
        spec_advance_all(s, dts, lib).current_frame as int == (s.current_frame + dts.len()) % (
        lib.spec_get(s.current_animation@)->Some_0.frames@.len() as int),
    decreases dts.len(),
{
    let a = lib.spec_get(s.current_animation@)->Some_0;
    let len = a.frames@.len() as int;
    lemma_get_wf(lib, s.current_animation@);
    if dts.len() == 0 {
        vstd::arithmetic::div_mod::lemma_small_mod(s.current_frame as nat, len as nat);
    } else {
        let s1 = s.spec_advance(dts[0], lib);
        assert(s.timer.fires(dts[0]));
        if s.current_frame + 1 < len {
            vstd::arithmetic::div_mod::lemma_small_mod((s.current_frame + 1) as nat, len as nat);
        } else {
            assert(s.current_frame + 1 == len);
            vstd::arithmetic::div_mod::lemma_mod_self_0(len);
        }
        assert(s1.current_frame as int == (s.current_frame + 1) % len);
        assert(s1.timer == (Timer {
            duration_ms: s.timer.duration_ms,
            elapsed_ms: 0,
            mode: TimerMode::Repeating,
        }));
        assert(forall|k: int| 0 <= k < dts.skip(1).len() ==> #[trigger] dts.skip(1)[k] == dts[k
            + 1]);
        lemma_all_firing_ticks(s1, dts.skip(1), lib);
        vstd::arithmetic::div_mod::lemma_add_mod_noop(
            s.current_frame + 1,
            dts.len() - 1,
            len,
        );
        vstd::arithmetic::div_mod::lemma_add_mod_noop_right(
            (s.current_frame + 1) % len,
            dts.len() - 1,
            len,
        );
    }
}

/// Frame-index wrap: from frame 0, after exactly as many frame-timer firings
/// as the playing animation has frames, the frame index is back at 0, and the
/// same animation is still playing.
pub proof fn lemma_frame_index_wraps(s: AnimationState, dts: Seq<u64>, lib: AnimationLibrary)
    requires
        s.wf(),
        lib.wf(),
        s.frame_ok(lib),
        s.next_animation is None,
        s.current_frame == 0,
        lib.spec_get(s.current_animation@) matches Some(a) && a.frames@.len() <= usize::MAX
            && s.timer.duration_ms == a.frame_duration_ms && dts.len() == a.frames@.len() && (
        forall|k: int| 0 <= k < dts.len() ==> dts[k] >= a.frame_duration_ms),
    ensures
        spec_advance_all(s, dts, lib).current_animation == s.current_animation,
        spec_advance_all(s, dts, lib).current_frame == 0,
{
    let a = lib.spec_get(s.current_animation@)->Some_0;
    lemma_all_firing_ticks(s, dts, lib);
    vstd::arithmetic::div_mod::lemma_mod_self_0(a.frames@.len() as int);
}

/// While the total elapsed time stays short of a pending transition's
/// remaining hold, advancing in any number of ticks leaves the playing
/// animation as it was and the transition armed, with the hold countdown
/// grown by exactly the elapsed total.
pub proof fn lemma_pending_transition_holds(s: AnimationState, dts: Seq<u64>, lib: AnimationLibrary)
    requires
        s.wf(),
        s.next_animation matches Some(p) && sum_ms(dts) < p.1.duration_ms - p.1.elapsed_ms,
    ensures
        spec_advance_all(s, dts, lib).wf(),
        spec_advance_all(s, dts, lib).current_animation == s.current_animation,
        spec_advance_all(s, dts, lib).next_animation matches Some(q) && q.0
            == s.next_animation->Some_0.0 && q.1.mode is Once && q.1.duration_ms
            == s.next_animation->Some_0.1.duration_ms && q.1.elapsed_ms
            == s.next_animation->Some_0.1.elapsed_ms + sum_ms(dts),
    decreases dts.len(),
{
    if dts.len() > 0 {
        let p = s.next_animation->Some_0;
        lemma_sum_ms_nonneg(dts);
        lemma_sum_ms_nonneg(dts.skip(1));
        assert(!p.1.fires(dts[0]));
        let s1 = s.spec_advance(dts[0], lib);
        assert(s1.next_animation matches Some(q1) && q1.0 == p.0 && q1.1 == p.1.ticked(dts[0]));
        s.timer.lemma_ticked_wf(dts[0]);
        lemma_pending_transition_holds(s1, dts.skip(1), lib);
    }
}

/// A pending transition fires exactly once, on the tick where the cumulative
/// elapsed time first reaches its hold: afterwards the return animation plays
/// from frame 0 and no transition is armed, whether or not the target name is
/// in the library.
pub proof fn lemma_transition_fires_once(s: AnimationState, dts: Seq<u64>, lib: AnimationLibrary)
    requires
        s.wf(),
        dts.len() > 0,
        s.next_animation matches Some(p) && (forall|k: int|
            0 <= k < dts.len() - 1 ==> sum_ms(#[trigger] dts.take(k + 1)) < p.1.duration_ms
                - p.1.elapsed_ms) && sum_ms(dts) >= p.1.duration_ms - p.1.elapsed_ms,
    ensures
        spec_advance_all(s, dts, lib).current_animation == s.next_animation->Some_0.0,
        spec_advance_all(s, dts, lib).current_frame == 0,
        spec_advance_all(s, dts, lib).next_animation is None,
    decreases dts.len(),
{
    let p = s.next_animation->Some_0;
    if dts.len() == 1 {
        assert(sum_ms(dts) == dts[0] + sum_ms(dts.skip(1)));
        assert(p.1.fires(dts[0]));
        let s1 = s.spec_advance(dts[0], lib);
        assert(spec_advance_all(s1, dts.skip(1), lib) == s1);
    } else {
        assert(sum_ms(dts.take(1)) == dts[0] + sum_ms(dts.skip(1).take(0))) by {
            lemma_sum_ms_take_shift(dts, 1);
        }
        assert(dts[0] < p.1.duration_ms - p.1.elapsed_ms);
        assert(!p.1.fires(dts[0]));
        let s1 = s.spec_advance(dts[0], lib);
        assert(s1.next_animation matches Some(q1) && q1.0 == p.0 && q1.1 == p.1.ticked(dts[0]));
        s.timer.lemma_ticked_wf(dts[0]);
        assert(forall|k: int|
            0 <= k < dts.skip(1).len() - 1 ==> sum_ms(#[trigger] dts.skip(1).take(k + 1))
                < p.1.duration_ms - (p.1.elapsed_ms + dts[0])) by {
            assert forall|k: int|
                0 <= k < dts.skip(1).len() - 1 implies sum_ms(#[trigger] dts.skip(1).take(k + 1))
                < p.1.duration_ms - (p.1.elapsed_ms + dts[0]) by {
                lemma_sum_ms_take_shift(dts, k + 2);
                let k1 = k + 1;
                assert(0 <= k1 < dts.len() - 1);
                assert(sum_ms(dts.take(k1 + 1)) < p.1.duration_ms - p.1.elapsed_ms);
                assert(dts.take(k1 + 1) == dts.take(k + 2));
            }
        }
        assert(sum_ms(dts.skip(1)) == sum_ms(dts) - dts[0]);
        lemma_transition_fires_once(s1, dts.skip(1), lib);
    }
}

/// Transition-then-return, end to end: after "play `name`, then return to
/// `ret` in `hold` milliseconds", advancing by ticks totalling less than
/// `hold` leaves `name` playing with the transition still armed on `ret`;
/// the tick on which the total first reaches `hold` switches to `ret` at
/// frame 0 and clears the transition.
pub proof fn lemma_play_then_return_honored(
    s0: AnimationState,
    s1: AnimationState,
    name: Seq<char>,
    ret: Seq<char>,
    hold: u64,
    dts: Seq<u64>,
    lib: AnimationLibrary,
)
    requires
        s1.wf(),
        hold > 0,
        spec_play_then_return_post(s0, s1, name, ret, hold, lib),
    ensures
        sum_ms(dts) < hold ==> spec_advance_all(s1, dts, lib).current_animation@ == name && (
        spec_advance_all(s1, dts, lib).next_animation matches Some(q) && q.0@ == ret),
        dts.len() > 0 && sum_ms(dts) >= hold && (forall|k: int|
            0 <= k < dts.len() - 1 ==> sum_ms(#[trigger] dts.take(k + 1)) < hold) ==> {
            &&& spec_advance_all(s1, dts, lib).current_animation@ == ret
            &&& spec_advance_all(s1, dts, lib).current_frame == 0
            &&& spec_advance_all(s1, dts, lib).next_animation is None
        },
{
    if sum_ms(dts) < hold {
        lemma_pending_transition_holds(s1, dts, lib);
    }
    if dts.len() > 0 && sum_ms(dts) >= hold && (forall|k: int|
        0 <= k < dts.len() - 1 ==> sum_ms(#[trigger] dts.take(k + 1)) < hold) {
        lemma_transition_fires_once(s1, dts, lib);
    }
}

/// Re-arming overwrites: issuing "play, then return" again before the first
/// transition fires leaves exactly the second command's transition armed with
/// its full hold — the first is neither fired nor queued.
pub proof fn lemma_rearm_last_write_wins(
    s0: AnimationState,
    s1: AnimationState,
    s2: AnimationState,
    s3: AnimationState,
    name1: Seq<char>,
    return1: Seq<char>,
    hold1: u64,
    dts: Seq<u64>,
    name2: Seq<char>,
    return2: Seq<char>,
    hold2: u64,
    lib: AnimationLibrary,
)
    requires
        s1.wf(),
        spec_play_then_return_post(s0, s1, name1, return1, hold1, lib),
        sum_ms(dts) < hold1,
        s2 == spec_advance_all(s1, dts, lib),
        spec_play_then_return_post(s2, s3, name2, return2, hold2, lib),
    ensures
        s3.current_animation@ == name2,
        s3.current_frame == 0,
        s3.next_animation matches Some(q) && q.0@ == return2 && q.1 == (Timer {
            duration_ms: hold2,
            elapsed_ms: 0,
            mode: TimerMode::Once,
        }),
{
    lemma_pending_transition_holds(s1, dts, lib);
}

/// Single advance per tick: however large the delta, one tick moves the
/// frame index by at most one step — it stays, steps forward once wrapping
/// at the frame count, or rests at 0 when a transition switches animations.
/// There is no catching up: ten periods' worth of delta still advance one
/// frame.
pub proof fn lemma_single_advance_per_tick(s: AnimationState, delta_ms: u64, lib: AnimationLibrary)
    ensures
        s.transition_fires(delta_ms) ==> s.spec_advance(delta_ms, lib).current_frame == 0,
        !s.transition_fires(delta_ms) ==> match lib.spec_get(s.current_animation@) {
            Some(a) => s.spec_advance(delta_ms, lib).current_frame == s.current_frame
                || s.spec_advance(delta_ms, lib).current_frame == (((s.current_frame + 1) % (
            a.frames@.len() as int)) as usize),
            None => s.spec_advance(delta_ms, lib).current_frame == s.current_frame,
        },
{
}

/// Unknown-name safety: when the playing animation is not in the library and
/// no transition fires, a tick changes neither the playing animation, nor the
/// frame index, nor the frame timer, and puts nothing on display.
pub proof fn lemma_unknown_name_harmless(s: AnimationState, delta_ms: u64, lib: AnimationLibrary)
    requires
        lib.spec_get(s.current_animation@) is None,
        !s.transition_fires(delta_ms),
    ensures
        s.spec_advance(delta_ms, lib).current_animation == s.current_animation,
        s.spec_advance(delta_ms, lib).current_frame == s.current_frame,
        s.spec_advance(delta_ms, lib).timer == s.timer,
        s.spec_display(delta_ms, lib) is None,
{
}

impl Default for AnimationState {
    /// A fresh state playing the catalog's baseline "idle" animation from
    /// its first frame: the idle frame period of half a second, and no
    /// pending transition.
    fn default() -> (s: AnimationState)
        ensures
            s.current_animation@ == "idle"@,
            s.current_frame == 0,
            s.timer == (Timer { duration_ms: 500, elapsed_ms: 0, mode: TimerMode::Repeating }),
            s.next_animation is None,
            s.wf(),
    {
        AnimationState {
            current_animation: "idle".to_owned(),
            current_frame: 0,
            timer: Timer::new(500, TimerMode::Repeating),
            next_animation: None,
        }
    }
}

} // verus!
