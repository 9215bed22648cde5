use vstd::prelude::*;
use crate::player::PlayerState;

verus! {

/// The animation clips of the player model.
#[derive(PartialEq, Eq, Structural, Clone, Copy, Debug)]
pub enum AnimationClip {
    Idle,
    Jumping,
    Walking,
    CrouchIdle,
    CrouchWalking,
    Running,
    Floating,
    Flying,
    Falling,
}

/// How a newly selected clip is played: looped, or once from the frame at
/// which the take-off of the jump begins.
#[derive(PartialEq, Eq, Structural, Clone, Copy, Debug)]
pub enum Playback {
    Repeat,
    FromJumpFrame,
}

/// The frame of the jump clip at which playback starts.
pub const JUMP_START_FRAME: u32 = 19;

/// The frame rate the clips were authored at.
pub const CLIP_FRAME_RATE: u32 = 30;

/// The clip shown in each state: one clip per state.
pub open spec fn spec_clip_for(state: PlayerState) -> AnimationClip {
    match state {
        PlayerState::Idle => AnimationClip::Idle,
        PlayerState::Walking => AnimationClip::Walking,
        PlayerState::Running => AnimationClip::Running,
        PlayerState::Jumping => AnimationClip::Jumping,
        PlayerState::CrouchIdle => AnimationClip::CrouchIdle,
        PlayerState::CrouchWalking => AnimationClip::CrouchWalking,
        PlayerState::Falling => AnimationClip::Falling,
        PlayerState::Floating => AnimationClip::Floating,
        PlayerState::Flying => AnimationClip::Flying,
    }
}

/// The clip that goes with a state.
pub fn clip_for(state: PlayerState) -> (c: AnimationClip)
    ensures
        c == spec_clip_for(state),
{
    match state {
        PlayerState::Idle => AnimationClip::Idle,
        PlayerState::Walking => AnimationClip::Walking,
        PlayerState::Running => AnimationClip::Running,
        PlayerState::Jumping => AnimationClip::Jumping,
        PlayerState::CrouchIdle => AnimationClip::CrouchIdle,
        PlayerState::CrouchWalking => AnimationClip::CrouchWalking,
        PlayerState::Falling => AnimationClip::Falling,
        PlayerState::Floating => AnimationClip::Floating,
        PlayerState::Flying => AnimationClip::Flying,
    }
}

/// The index of a clip among the animations stored in the model file, in
/// the order the file holds them.
pub open spec fn spec_clip_index(clip: AnimationClip) -> u32 {
    match clip {
        AnimationClip::Idle => 0,
        AnimationClip::Jumping => 1,
        AnimationClip::Walking => 2,
        AnimationClip::CrouchIdle => 3,
        AnimationClip::CrouchWalking => 4,
        AnimationClip::Running => 5,
        AnimationClip::Floating => 6,
        AnimationClip::Flying => 7,
        AnimationClip::Falling => 8,
    }
}

/// The index of a clip in the model file.
pub fn clip_index(clip: AnimationClip) -> (i: u32)
    ensures
        i == spec_clip_index(clip),
        i < 9,
{
    match clip {
        AnimationClip::Idle => 0,
        AnimationClip::Jumping => 1,
        AnimationClip::Walking => 2,
        AnimationClip::CrouchIdle => 3,
        AnimationClip::CrouchWalking => 4,
        AnimationClip::Running => 5,
        AnimationClip::Floating => 6,
        AnimationClip::Flying => 7,
        AnimationClip::Falling => 8,
    }
}

/// Distinct clips are stored at distinct indices, and distinct states show
/// distinct clips.
pub proof fn lemma_clips_distinct(a: AnimationClip, b: AnimationClip, s: PlayerState, t: PlayerState)
    ensures
        a != b ==> spec_clip_index(a) != spec_clip_index(b),
        s != t ==> spec_clip_for(s) != spec_clip_for(t),
{
}

/// One update of the animation player: the clip playing afterwards is
/// always the state's clip; a clip is started only when it differs from the
/// one playing before, looped except for the jump, which plays once from its
/// take-off frame.
pub open spec fn spec_animation_update(current: Option<AnimationClip>, state: PlayerState) -> (
    Option<AnimationClip>,
    Option<(AnimationClip, Playback)>,
) {
    let next = spec_clip_for(state);
    if current == Some(next) {
        (current, None)
    } else {
        (
            Some(next),
            Some(
                (
                    next,
                    if state == PlayerState::Jumping {
                        Playback::FromJumpFrame
                    } else {
                        Playback::Repeat
                    },
                ),
            ),
        )
    }
}

/// Given the clip that is playing (if any) and the current state, returns
/// the clip playing afterwards and, when it changes, the clip to start and
/// how to play it.
pub fn animation_update(current: Option<AnimationClip>, state: PlayerState) -> (r: (
    Option<AnimationClip>,
    Option<(AnimationClip, Playback)>,
))
    ensures
        r == spec_animation_update(current, state),
        r.0 == Some(spec_clip_for(state)),
        r.1 is None <==> current == Some(spec_clip_for(state)),
        // a started clip is the state's clip, played once from the take-off
        // frame exactly for the jump and looped otherwise
        r.1 matches Some(cmd) ==> cmd.0 == spec_clip_for(state) && (cmd.1
            == Playback::FromJumpFrame <==> state == PlayerState::Jumping),
{
    let next = clip_for(state);
    let unchanged = match current {
        Some(c) => c == next,
        None => false,
    };
    if unchanged {
        (current, None)
    } else {
        let playback = if state == PlayerState::Jumping {
            Playback::FromJumpFrame
        } else {
            Playback::Repeat
        };
        (Some(next), Some((next, playback)))
    }
}

/// Only the jump clip starts from its take-off frame: whenever an update
/// starts a clip, it is played from the jump frame exactly when the state is
/// Jumping, and looped in every other state.
pub proof fn lemma_only_jump_seeks(current: Option<AnimationClip>, state: PlayerState)
    ensures
        spec_animation_update(current, state).1 matches Some(cmd) ==> ((cmd.1
            == Playback::FromJumpFrame) <==> (state == PlayerState::Jumping)) && ((cmd.1
            == Playback::Repeat) <==> (state != PlayerState::Jumping)),
{
}

/// Once a state's clip is playing, further updates in the same state start
/// nothing: a second update with the same state is silent and keeps the
/// clip that the first one left playing.
pub proof fn lemma_animation_settles(current: Option<AnimationClip>, state: PlayerState)
    ensures
        ({
            let first = spec_animation_update(current, state);
            let second = spec_animation_update(first.0, state);
            &&& second.1 is None
            &&& second.0 == first.0
        }),
{
}

/// The asset label of each clip in the player model file.
pub open spec fn spec_clip_asset(clip: AnimationClip) -> Seq<char> {
    match clip {
        AnimationClip::Idle => "models/player.glb#Animation0"@,
        AnimationClip::Jumping => "models/player.glb#Animation1"@,
        AnimationClip::Walking => "models/player.glb#Animation2"@,
        AnimationClip::CrouchIdle => "models/player.glb#Animation3"@,
        AnimationClip::CrouchWalking => "models/player.glb#Animation4"@,
        AnimationClip::Running => "models/player.glb#Animation5"@,
        AnimationClip::Floating => "models/player.glb#Animation6"@,
        AnimationClip::Flying => "models/player.glb#Animation7"@,
        AnimationClip::Falling => "models/player.glb#Animation8"@,
    }
}

/// The asset path from which a clip is loaded.
pub fn clip_asset(clip: AnimationClip) -> (p: &'static str)
    ensures
        p@ == spec_clip_asset(clip),
{
    match clip {
        AnimationClip::Idle => "models/player.glb#Animation0",
        AnimationClip::Jumping => "models/player.glb#Animation1",
        AnimationClip::Walking => "models/player.glb#Animation2",
        AnimationClip::CrouchIdle => "models/player.glb#Animation3",
        AnimationClip::CrouchWalking => "models/player.glb#Animation4",
        AnimationClip::Running => "models/player.glb#Animation5",
        AnimationClip::Floating => "models/player.glb#Animation6",
        AnimationClip::Flying => "models/player.glb#Animation7",
        AnimationClip::Falling => "models/player.glb#Animation8",
    }
}

} // verus!
