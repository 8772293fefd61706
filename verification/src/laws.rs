//! Laws of the playback machine, proved over the frame relation `step` and
//! its per-phase parts.  The ramp laws live beside the ramps in `timing`.

use vstd::prelude::*;
use crate::layer::{AudioCommand, ChoiceLabel};
use crate::player::{
    entry_complete, exit_complete, label_hit, load_step, picks, step, GamePlayScene, Phase,
};
use crate::timing::ALPHA_ONE;

verus! {

/// Law: a beat with neither choices nor an explicit jump hands playback to
/// the next beat in order.
pub proof fn lemma_successor_is_linear(
    pre: GamePlayScene,
    post: GamePlayScene,
    cmds: Seq<AudioCommand>,
)
    requires
        pre.wf(),
        pre.phase is LoadingNextBeat,
        pre.next_index < pre.avg_items@.len(),
        pre.avg_items@[pre.next_index as int].selection_items is None,
        pre.avg_items@[pre.next_index as int].next_index is None,
        load_step(pre, post, cmds),
    ensures
        post.next_index == post.current_index + 1,
{
}

/// Law: a beat's explicit jump is the successor, overriding the next beat in
/// order.
pub proof fn lemma_explicit_jump_overrides(
    pre: GamePlayScene,
    post: GamePlayScene,
    cmds: Seq<AudioCommand>,
    k: u32,
)
    requires
        pre.wf(),
        pre.phase is LoadingNextBeat,
        pre.next_index < pre.avg_items@.len(),
        pre.avg_items@[pre.next_index as int].next_index == Some(k),
        load_step(pre, post, cmds),
    ensures
        post.next_index == k,
{
}

/// A pick hits exactly one label: the first containing one in list order.
proof fn lemma_pick_unique(labels: Seq<ChoiceLabel>, px: int, py: int, i: int, j: int)
    requires
        picks(labels, px, py, i),
        picks(labels, px, py, j),
    ensures
        i == j,
{
}

/// Law: a pick's target becomes the successor, whatever successor the beat
/// itself named.
pub proof fn lemma_pick_overrides(
    pre: GamePlayScene,
    post: GamePlayScene,
    delta_ms: u32,
    px: i32,
    py: i32,
    cmds: Seq<AudioCommand>,
    i: int,
)
    requires
        pre.wf(),
        pre.phase is AwaitingChoice,
        step(pre, post, delta_ms, Some((px, py)), cmds),
        picks(pre.choice_labels->0@, px as int, py as int, i),
    ensures
        post.next_index == pre.current_item().selection_items->0@[i].next_index,
        post.phase is ExitingBeat,
{
    let ls = pre.choice_labels->0@;
    assert(label_hit(ls, px as int, py as int));
    let j = choose|j: int| picks(ls, px as int, py as int, j) && crate::player::pick_made(
        pre,
        post,
        j,
        cmds,
    );
    lemma_pick_unique(ls, px as int, py as int, i, j);
}

/// Every ramp value of the frame is unchanged: each layer's alpha, the body's
/// reveal ratio, the overlay's alpha, and every choice label's alpha.
pub open spec fn ramps_unchanged(pre: GamePlayScene, post: GamePlayScene) -> bool {
    &&& (match pre.background {
        Some(l) => post.background matches Some(l2) && l2.alpha == l.alpha,
        None => post.background is None,
    })
    &&& (match pre.character {
        Some(l) => post.character matches Some(l2) && l2.alpha == l.alpha,
        None => post.character is None,
    })
    &&& (match pre.name_label {
        Some(l) => post.name_label matches Some(l2) && l2.alpha == l.alpha && l2.reveal
            == l.reveal,
        None => post.name_label is None,
    })
    &&& (match pre.body_label {
        Some(l) => post.body_label matches Some(l2) && l2.alpha == l.alpha && l2.reveal
            == l.reveal,
        None => post.body_label is None,
    })
    &&& (match pre.choice_labels {
        Some(ls) => post.choice_labels matches Some(ls2) && ls2@.len() == ls@.len() && forall|
            k: int,
        |
            0 <= k < ls@.len() ==> (#[trigger] ls2@[k]).alpha == ls@[k].alpha,
        None => post.choice_labels is None,
    })
    &&& post.overlay_alpha == pre.overlay_alpha
}

/// The machine will not move by itself this frame: it is waiting for input,
/// mid-fade, or idle past the end of the script.  The two lay-out moments —
/// loading a pending beat, and arranging choice labels — progress
/// unconditionally and are therefore not quiescent; neither is an entering
/// frame that has yet to show its body label or has every ramp already done.
pub open spec fn quiescent(s: GamePlayScene) -> bool {
    match s.phase {
        Phase::AwaitingAdvance => true,
        Phase::AwaitingChoice => true,
        Phase::EnteringBeat => !entry_complete(s) && (s.body_label matches Some(l) ==> l.alpha
            == ALPHA_ONE),
        Phase::ExitingBeat => !exit_complete(s),
        Phase::LoadingNextBeat => s.next_index >= s.avg_items@.len(),
        Phase::ShowingChoices => false,
    }
}

/// Law: on a quiescent state, a frame with no elapsed time and no activation
/// changes no phase and no alpha or reveal value, and requests no audio.
pub proof fn lemma_zero_frame_is_noop(
    pre: GamePlayScene,
    post: GamePlayScene,
    cmds: Seq<AudioCommand>,
)
    requires
        pre.wf(),
        quiescent(pre),
        step(pre, post, 0, None, cmds),
    ensures
        post.phase == pre.phase,
        post.current_index == pre.current_index,
        post.next_index == pre.next_index,
        ramps_unchanged(pre, post),
        cmds.len() == 0,
{
    match pre.phase {
        Phase::EnteringBeat => {
            if pre.body_label is Some {
                let l = pre.body_label->0;
                vstd::arithmetic::div_mod::lemma_div_of0(l.glyphs as int);
            }
            assert(entry_complete(post) == entry_complete(pre));
        },
        Phase::ExitingBeat => {
            assert(exit_complete(post) == exit_complete(pre));
        },
        _ => {},
    }
}

/// Law: the script is read-only for the session — no frame rewrites it.
pub proof fn lemma_script_read_only(
    pre: GamePlayScene,
    post: GamePlayScene,
    delta_ms: u32,
    hit: Option<(i32, i32)>,
    cmds: Seq<AudioCommand>,
)
    requires
        pre.wf(),
        step(pre, post, delta_ms, hit, cmds),
    ensures
        post.avg_items == pre.avg_items,
{
}

/// Law: the clearing marker releases the previous background at load time.
pub proof fn lemma_marker_clears_background(
    pre: GamePlayScene,
    post: GamePlayScene,
    cmds: Seq<AudioCommand>,
)
    requires
        pre.wf(),
        pre.phase is LoadingNextBeat,
        pre.next_index < pre.avg_items@.len(),
        pre.avg_items@[pre.next_index as int].background_image_path matches Some(p)
            && crate::script::is_no_image(p@),
        load_step(pre, post, cmds),
    ensures
        post.background is None,
{
}

/// Law: an absent background imposes no condition on finishing the fade-in;
/// only the layers that exist gate the transition.
pub proof fn lemma_absent_background_never_blocks(s: GamePlayScene)
    requires
        s.background is None,
    ensures
        entry_complete(s) <==> {
            &&& (s.character matches Some(l) ==> l.alpha >= ALPHA_ONE)
            &&& (s.name_label matches Some(l) ==> l.alpha >= ALPHA_ONE)
            &&& (s.body_label matches Some(l) ==> l.reveal >= crate::timing::REVEAL_ONE)
        },
{
}

} // verus!
