//! The dialogue playback state machine.
//!
//! `GamePlayScene` owns the validated script and the live layers.  Each
//! frame the host calls `update` with the elapsed milliseconds and an
//! optional pointer activation on the logical canvas, performs the returned
//! audio requests, then calls `draw` and issues the returned draw list.
//!
//! The machine loads a beat, fades it in, waits for an activation, shows
//! choices when the beat branches, fades the beat out, and loads the next
//! one.  The successor is the beat's explicit jump when it has one, else the
//! next beat in order; a picked choice overwrites it with the choice's
//! target.  Playback idles once the pending index reaches the script's
//! length.

use vstd::prelude::*;
use crate::layer::{
    glyph_count_of, rect_contains, AudioCommand, ChoiceLabel, DrawCommand, DrawItem, ImageLayer,
    Rect, TextLayer,
};
use crate::script::{
    beat_ok, default_successor, error_describes, is_no_image, script_ok, validate_script, AvgItem,
    ScriptError, SelectionItem,
};
use crate::timing::{
    advance_alpha_in, advance_alpha_out, advance_reveal, alpha_faded_in, alpha_faded_out,
    fade_rate_for, reveal_advanced, reveal_rate_for, ALPHA_ONE, FADE_RATE, REVEAL_ONE, REVEAL_RATE,
};

verus! {

/// Where the machine stands between two frames.
#[derive(Clone, Copy, Debug, PartialEq, Eq, Structural)]
pub enum Phase {
    /// Loading the beat at the pending index, or idling past the end.
    LoadingNextBeat,
    /// Fading the loaded beat in.
    EnteringBeat,
    /// Fully shown; waiting for an activation.
    AwaitingAdvance,
    /// An activation arrived on a branching beat; the choice labels are laid
    /// out this frame.
    ShowingChoices,
    /// Waiting for an activation that lands on a choice label.
    AwaitingChoice,
    /// Fading out the layers the next beat will replace.
    ExitingBeat,
}

/// The playback state machine.
pub struct GamePlayScene {
    /// The validated script, read-only for the session.
    pub avg_items: Vec<AvgItem>,
    /// Index of the beat being played; -1 before the first load.
    pub current_index: i32,
    /// Index of the beat the next load will fetch; the script's length means
    /// "end of playback".
    pub next_index: usize,
    pub phase: Phase,
    pub background: Option<ImageLayer>,
    pub character: Option<ImageLayer>,
    pub name_label: Option<TextLayer>,
    pub body_label: Option<TextLayer>,
    pub choice_labels: Option<Vec<ChoiceLabel>>,
    /// Alpha of the darkening overlay behind the choice labels.
    pub overlay_alpha: u32,
    /// Whether the once-only frame overlays have been created.
    pub statics_ready: bool,
}

/// The speaker name a beat shows, with an absent name read as the empty
/// string, as the continuity comparison does.
pub open spec fn speaker_name_seq(name: Option<String>) -> Seq<char> {
    match name {
        Some(n) => n@,
        None => Seq::empty(),
    }
}

/// The labels mirror the beat's selection list: same length, and each label
/// carries the matching selection's text and target.
pub open spec fn labels_match_selections(
    labels: Seq<ChoiceLabel>,
    sels: Seq<SelectionItem>,
) -> bool {
    &&& labels.len() == sels.len()
    &&& forall|i: int|
        0 <= i < labels.len() ==> {
            &&& (#[trigger] labels[i]).target_index == sels[i].next_index
            &&& labels[i].content@ == sels[i].content@
        }
}

impl GamePlayScene {
    /// The beat being played.
    pub open spec fn current_item(self) -> AvgItem
        recommends
            0 <= self.current_index < self.avg_items@.len(),
    {
        self.avg_items@[self.current_index as int]
    }

    /// Well-formedness: established by the constructor, preserved by every
    /// frame.
    pub open spec fn wf(self) -> bool {
        &&& script_ok(self.avg_items@)
        &&& -1 <= self.current_index < self.avg_items@.len()
        &&& self.next_index <= self.avg_items@.len()
        &&& !(self.phase is LoadingNextBeat) ==> self.current_index >= 0
        &&& (self.background matches Some(l) ==> l.wf())
        &&& (self.character matches Some(l) ==> l.wf())
        &&& (self.name_label matches Some(l) ==> l.wf())
        &&& (self.body_label matches Some(l) ==> l.wf())
        &&& (self.choice_labels matches Some(ls) ==> forall|i: int|
            0 <= i < ls@.len() ==> (#[trigger] ls@[i]).wf())
        &&& self.overlay_alpha <= ALPHA_ONE
        &&& (self.phase is ShowingChoices ==> self.current_item().selection_items is Some)
        &&& (self.phase is AwaitingChoice ==> {
            &&& self.current_item().selection_items is Some
            &&& self.choice_labels matches Some(ls) && labels_match_selections(
                ls@,
                self.current_item().selection_items->0@,
            )
        })
    }
}

/// Nothing of the frame changed, beyond the once-only overlays now existing.
pub open spec fn unchanged_frame(pre: GamePlayScene, post: GamePlayScene) -> bool {
    &&& post.avg_items == pre.avg_items
    &&& post.current_index == pre.current_index
    &&& post.next_index == pre.next_index
    &&& post.phase == pre.phase
    &&& post.background == pre.background
    &&& post.character == pre.character
    &&& post.name_label == pre.name_label
    &&& post.body_label == pre.body_label
    &&& post.choice_labels == pre.choice_labels
    &&& post.overlay_alpha == pre.overlay_alpha
    &&& post.statics_ready
}

/// How a load resolves an image field: an absent field keeps the previous
/// layer, the marker clears it, and a path installs a fresh transparent
/// layer for the fade-in.
pub open spec fn image_layer_loaded(
    post_layer: Option<ImageLayer>,
    pre_layer: Option<ImageLayer>,
    field: Option<String>,
) -> bool {
    match field {
        None => post_layer == pre_layer,
        Some(p) => if is_no_image(p@) {
            post_layer is None
        } else {
            post_layer matches Some(l) && l.path@ == p@ && l.alpha == 0
        },
    }
}

/// The speaker-name label after a load: absent when the beat names nobody;
/// otherwise fresh, fully revealed, and transparent only when the speaker
/// actually changed, so an unchanged name keeps its continuity.
pub open spec fn name_label_loaded(
    post_label: Option<TextLayer>,
    name: Option<String>,
    changed: bool,
) -> bool {
    match name {
        None => post_label is None,
        Some(n) => {
            &&& post_label matches Some(l)
            &&& l.content@ == n@
            &&& l.glyphs == glyph_count_of(n@)
            &&& l.alpha == if changed {
                0u32
            } else {
                ALPHA_ONE
            }
            &&& l.reveal == REVEAL_ONE
        },
    }
}

/// The body label after a load: absent when the beat has no text, else
/// fresh, transparent and unrevealed.
pub open spec fn body_label_loaded(post_label: Option<TextLayer>, content: Option<String>) -> bool {
    match content {
        None => post_label is None,
        Some(c) => {
            &&& post_label matches Some(l)
            &&& l.content@ == c@
            &&& l.glyphs == glyph_count_of(c@)
            &&& l.alpha == 0
            &&& l.reveal == 0
        },
    }
}

/// The audio requests of a load: the beat's music, if it names any.
pub open spec fn load_cmds_ok(item: AvgItem, cmds: Seq<AudioCommand>) -> bool {
    match item.background_music {
        None => cmds.len() == 0,
        Some(m) => {
            &&& cmds.len() == 1
            &&& cmds[0] matches AudioCommand::PlayMusic(p) && p@ == m@
        },
    }
}

/// One load: the pending beat becomes current, its layers are installed as
/// deltas over the previous picture, choice labels are discarded, and the
/// pending index moves to the beat's default successor.
pub open spec fn load_step(
    pre: GamePlayScene,
    post: GamePlayScene,
    cmds: Seq<AudioCommand>,
) -> bool {
    let item = pre.avg_items@[pre.next_index as int];
    let prev_name = if pre.current_index >= 0 {
        speaker_name_seq(pre.avg_items@[pre.current_index as int].character_name)
    } else {
        Seq::empty()
    };
    let name_changed = prev_name != speaker_name_seq(item.character_name);
    &&& post.avg_items == pre.avg_items
    &&& post.phase is EnteringBeat
    &&& post.current_index == pre.next_index
    &&& post.next_index == default_successor(item, pre.next_index as nat)
    &&& image_layer_loaded(post.background, pre.background, item.background_image_path)
    &&& image_layer_loaded(post.character, pre.character, item.center_character_image_path)
    &&& name_label_loaded(post.name_label, item.character_name, name_changed)
    &&& body_label_loaded(post.body_label, item.content)
    &&& post.choice_labels is None
    &&& post.overlay_alpha == pre.overlay_alpha
    &&& post.statics_ready
    &&& load_cmds_ok(item, cmds)
}

/// Every layer the beat shows has finished its fade-in and the body text is
/// fully revealed; an absent layer never blocks.
pub open spec fn entry_complete(s: GamePlayScene) -> bool {
    &&& (s.background matches Some(l) ==> l.alpha >= ALPHA_ONE)
    &&& (s.character matches Some(l) ==> l.alpha >= ALPHA_ONE)
    &&& (s.name_label matches Some(l) ==> l.alpha >= ALPHA_ONE)
    &&& (s.body_label matches Some(l) ==> l.reveal >= REVEAL_ONE)
}

/// An image layer after one fade-in frame: same picture, alpha advanced.
pub open spec fn image_faded_in(
    post_layer: Option<ImageLayer>,
    pre_layer: Option<ImageLayer>,
    delta_ms: u32,
    rate: u32,
) -> bool {
    match pre_layer {
        None => post_layer is None,
        Some(l) => {
            &&& post_layer matches Some(l2)
            &&& l2.path == l.path
            &&& l2.alpha == alpha_faded_in(l.alpha, delta_ms, rate)
        },
    }
}

/// A text layer after one fade-in frame: same text, alpha advanced.
pub open spec fn text_faded_in(
    post_label: Option<TextLayer>,
    pre_label: Option<TextLayer>,
    delta_ms: u32,
    rate: u32,
) -> bool {
    match pre_label {
        None => post_label is None,
        Some(l) => {
            &&& post_label matches Some(l2)
            &&& l2.content == l.content
            &&& l2.glyphs == l.glyphs
            &&& l2.reveal == l.reveal
            &&& l2.alpha == alpha_faded_in(l.alpha, delta_ms, rate)
        },
    }
}

/// The body label after one entering frame: shown at once, reveal advanced
/// at the glyph pace.
pub open spec fn body_revealed(
    post_label: Option<TextLayer>,
    pre_label: Option<TextLayer>,
    delta_ms: u32,
    rate: u32,
) -> bool {
    match pre_label {
        None => post_label is None,
        Some(l) => {
            &&& post_label matches Some(l2)
            &&& l2.content == l.content
            &&& l2.glyphs == l.glyphs
            &&& l2.alpha == ALPHA_ONE
            &&& l2.reveal == reveal_advanced(l.reveal, delta_ms, rate, l.glyphs)
        },
    }
}

/// One entering frame: every present layer fades toward opaque and the body
/// reveals; once all present ramps are done the machine awaits an
/// activation.  An activation this frame substitutes the instant rates.
pub open spec fn enter_step(
    pre: GamePlayScene,
    post: GamePlayScene,
    delta_ms: u32,
    instant: bool,
) -> bool {
    let fr = fade_rate_for(FADE_RATE, instant);
    let rr = reveal_rate_for(REVEAL_RATE, instant);
    &&& post.avg_items == pre.avg_items
    &&& post.current_index == pre.current_index
    &&& post.next_index == pre.next_index
    &&& image_faded_in(post.background, pre.background, delta_ms, fr)
    &&& image_faded_in(post.character, pre.character, delta_ms, fr)
    &&& text_faded_in(post.name_label, pre.name_label, delta_ms, fr)
    &&& body_revealed(post.body_label, pre.body_label, delta_ms, rr)
    &&& post.choice_labels == pre.choice_labels
    &&& post.overlay_alpha == pre.overlay_alpha
    &&& post.statics_ready
    &&& post.phase == (if entry_complete(post) {
        Phase::AwaitingAdvance
    } else {
        Phase::EnteringBeat
    })
}

impl GamePlayScene {
    /// One fade-in frame of the loaded beat.
    fn step_enter(&mut self, delta_ms: u32, instant: bool)
        requires
            old(self).wf(),
            old(self).phase is EnteringBeat,
        ensures
            final(self).wf(),
            enter_step(*old(self), *final(self), delta_ms, instant),
    {
        match &mut self.background {
            Some(layer) => {
                layer.alpha = advance_alpha_in(layer.alpha, delta_ms, FADE_RATE, instant);
            },
            None => {},
        }
        match &mut self.character {
            Some(layer) => {
                layer.alpha = advance_alpha_in(layer.alpha, delta_ms, FADE_RATE, instant);
            },
            None => {},
        }
        match &mut self.name_label {
            Some(label) => {
                label.alpha = advance_alpha_in(label.alpha, delta_ms, FADE_RATE, instant);
            },
            None => {},
        }
        match &mut self.body_label {
            Some(label) => {
                label.alpha = ALPHA_ONE;
                label.reveal = advance_reveal(
                    label.reveal,
                    delta_ms,
                    REVEAL_RATE,
                    instant,
                    label.glyphs,
                );
            },
            None => {},
        }
        let done = (match &self.background {
            Some(l) => l.alpha >= ALPHA_ONE,
            None => true,
        }) && (match &self.character {
            Some(l) => l.alpha >= ALPHA_ONE,
            None => true,
        }) && (match &self.name_label {
            Some(l) => l.alpha >= ALPHA_ONE,
            None => true,
        }) && (match &self.body_label {
            Some(l) => l.reveal >= REVEAL_ONE,
            None => true,
        });
        if done {
            self.phase = Phase::AwaitingAdvance;
        }
        self.statics_ready = true;
    }
}

impl GamePlayScene {
    /// Builds a player over a validated script; a malformed script is
    /// rejected and no player is produced.
    pub fn new(avg_items: Vec<AvgItem>) -> (r: Result<GamePlayScene, ScriptError>)
        ensures
            r is Ok <==> script_ok(avg_items@),
            r matches Err(e) ==> error_describes(avg_items@, e),
            r matches Ok(s) ==> {
                &&& s.wf()
                &&& s.avg_items == avg_items
                &&& s.current_index == -1
                &&& s.next_index == 0
                &&& s.phase is LoadingNextBeat
                &&& s.background is None
                &&& s.character is None
                &&& s.name_label is None
                &&& s.body_label is None
                &&& s.choice_labels is None
                &&& s.overlay_alpha == 0
                &&& !s.statics_ready
            },
    {
        match validate_script(&avg_items) {
            Err(e) => Err(e),
            Ok(()) => Ok(
                GamePlayScene {
                    avg_items,
                    current_index: -1,
                    next_index: 0,
                    phase: Phase::LoadingNextBeat,
                    background: None,
                    character: None,
                    name_label: None,
                    body_label: None,
                    choice_labels: None,
                    overlay_alpha: 0,
                    statics_ready: false,
                },
            ),
        }
    }

    /// Loads the beat at the pending index.
    fn step_load(&mut self) -> (cmds: Vec<AudioCommand>)
        requires
            old(self).wf(),
            old(self).phase is LoadingNextBeat,
            old(self).next_index < old(self).avg_items@.len(),
        ensures
            final(self).wf(),
            load_step(*old(self), *final(self), cmds@),
    {
        let mut cmds: Vec<AudioCommand> = Vec::new();
        let loading = self.next_index;
        proof {
            assert(beat_ok(self.avg_items@[loading as int], self.avg_items@.len()));
        }

        let prev_name: String = if self.current_index >= 0 {
            match &self.avg_items[self.current_index as usize].character_name {
                Some(n) => n.clone(),
                None => String::new(),
            }
        } else {
            String::new()
        };

        let item = &self.avg_items[loading];

        match &item.background_music {
            Some(m) => {
                cmds.push(AudioCommand::PlayMusic(m.clone()));
            },
            None => {},
        }

        match &item.background_image_path {
            Some(p) => {
                if crate::script::is_no_image_marker(p) {
                    self.background = None;
                } else {
                    self.background = Some(ImageLayer::new(p.clone()));
                }
            },
            None => {},
        }

        match &item.center_character_image_path {
            Some(p) => {
                if crate::script::is_no_image_marker(p) {
                    self.character = None;
                } else {
                    self.character = Some(ImageLayer::new(p.clone()));
                }
            },
            None => {},
        }

        let item = &self.avg_items[loading];
        let cur_name: String = match &item.character_name {
            Some(n) => n.clone(),
            None => String::new(),
        };
        let name_changed = !(prev_name == cur_name);
        match &item.character_name {
            Some(n) => {
                let start_alpha: u32 = if name_changed {
                    0
                } else {
                    ALPHA_ONE
                };
                self.name_label = Some(TextLayer::new(n.clone(), start_alpha, REVEAL_ONE));
            },
            None => {
                self.name_label = None;
            },
        }

        let item = &self.avg_items[loading];
        match &item.content {
            Some(c) => {
                self.body_label = Some(TextLayer::new(c.clone(), 0, 0));
            },
            None => {
                self.body_label = None;
            },
        }

        self.choice_labels = None;
        self.phase = Phase::EnteringBeat;
        self.current_index = loading as i32;
        let item = &self.avg_items[loading];
        self.next_index = match &item.next_index {
            Some(k) => *k as usize,
            None => loading + 1,
        };
        self.statics_ready = true;
        cmds
    }
}

/// The live layers and the script position are untouched.
pub open spec fn layers_unchanged(pre: GamePlayScene, post: GamePlayScene) -> bool {
    &&& post.avg_items == pre.avg_items
    &&& post.current_index == pre.current_index
    &&& post.background == pre.background
    &&& post.character == pre.character
    &&& post.name_label == pre.name_label
    &&& post.body_label == pre.body_label
}

/// One waiting frame: without an activation nothing moves; with one, the
/// confirm sound fires and the machine either lays out the beat's choices or
/// starts the exit.
pub open spec fn wait_step(
    pre: GamePlayScene,
    post: GamePlayScene,
    activated: bool,
    cmds: Seq<AudioCommand>,
) -> bool {
    if activated {
        &&& layers_unchanged(pre, post)
        &&& post.next_index == pre.next_index
        &&& post.choice_labels == pre.choice_labels
        &&& post.overlay_alpha == pre.overlay_alpha
        &&& post.statics_ready
        &&& post.phase == (if pre.current_item().selection_items is Some {
            Phase::ShowingChoices
        } else {
            Phase::ExitingBeat
        })
        &&& cmds.len() == 1 && cmds[0] is PlayConfirmSound
    } else {
        unchanged_frame(pre, post) && cmds.len() == 0
    }
}

/// Horizontal start of every choice label on the canvas.
pub const CHOICE_X: i32 = 480;

/// Alpha the darkening overlay jumps to while choices are shown (0.75).
pub const OVERLAY_ALPHA: u32 = 750;

/// Bottom edge of choice label `i` out of `n`: the canvas height is split
/// into `n` bands, the labels fill them top to bottom in list order, and
/// each label sits near its band's middle.
pub open spec fn choice_label_bottom(n: int, i: int) -> int
    recommends
        0 < n,
        0 <= i < n,
{
    let band = 1080int / n;
    band / 2 - 30 + band * (n - 1 - i)
}

/// The labels mirror the selection list: the matching text and target,
/// shown at once, unpicked, and placed at their band with a zero-sized
/// placeholder extent until the host reports the laid-out quad.
pub open spec fn labels_built(labels: Seq<ChoiceLabel>, sels: Seq<SelectionItem>) -> bool {
    &&& labels.len() == sels.len()
    &&& forall|i: int|
        0 <= i < labels.len() ==> {
            let l = #[trigger] labels[i];
            &&& l.content@ == sels[i].content@
            &&& l.target_index == sels[i].next_index
            &&& l.alpha == ALPHA_ONE
            &&& !l.selected
            &&& l.rect.x == CHOICE_X
            &&& l.rect.y == choice_label_bottom(labels.len() as int, i)
            &&& l.rect.w == 0
            &&& l.rect.h == 0
        }
}

/// The choice lay-out frame: the overlay darkens, one label per selection
/// appears, and the machine starts waiting for a pick the same frame.
pub open spec fn choices_step(pre: GamePlayScene, post: GamePlayScene) -> bool {
    &&& layers_unchanged(pre, post)
    &&& post.next_index == pre.next_index
    &&& post.overlay_alpha == OVERLAY_ALPHA
    &&& post.choice_labels matches Some(ls) && labels_built(
        ls@,
        pre.current_item().selection_items->0@,
    )
    &&& post.phase is AwaitingChoice
    &&& post.statics_ready
}

impl GamePlayScene {
    /// One waiting frame.
    fn step_wait(&mut self, activated: bool) -> (cmds: Vec<AudioCommand>)
        requires
            old(self).wf(),
            old(self).phase is AwaitingAdvance,
        ensures
            final(self).wf(),
            wait_step(*old(self), *final(self), activated, cmds@),
    {
        self.statics_ready = true;
        let mut cmds: Vec<AudioCommand> = Vec::new();
        if activated {
            let branching = self.avg_items[self.current_index as usize].selection_items.is_some();
            self.phase = if branching {
                Phase::ShowingChoices
            } else {
                Phase::ExitingBeat
            };
            cmds.push(AudioCommand::PlayConfirmSound);
        }
        cmds
    }

    /// The choice lay-out frame.
    fn step_choices(&mut self)
        requires
            old(self).wf(),
            old(self).phase is ShowingChoices,
        ensures
            final(self).wf(),
            choices_step(*old(self), *final(self)),
    {
        self.statics_ready = true;
        self.overlay_alpha = OVERLAY_ALPHA;
        let mut labels: Vec<ChoiceLabel> = Vec::new();
        match &self.avg_items[self.current_index as usize].selection_items {
            Some(sels) => {
                let n = sels.len();
                let mut i: usize = 0;
                while i < n
                    invariant
                        n == sels@.len(),
                        i <= n,
                        labels@.len() == i,
                        forall|k: int|
                            0 <= k < i ==> {
                                let l = #[trigger] labels@[k];
                                &&& l.content@ == sels@[k].content@
                                &&& l.target_index == sels@[k].next_index
                                &&& l.alpha == ALPHA_ONE
                                &&& !l.selected
                                &&& l.rect.x == CHOICE_X
                                &&& l.rect.y == choice_label_bottom(n as int, k)
                                &&& l.rect.w == 0
                                &&& l.rect.h == 0
                            },
                    decreases n - i,
                {
                    let band: u64 = 1080u64 / (n as u64);
                    proof {
                        vstd::arithmetic::div_mod::lemma_fundamental_div_mod(1080, n as int);
                        vstd::arithmetic::mul::lemma_mul_inequality(
                            (n - 1 - i) as int,
                            n as int,
                            band as int,
                        );
                        vstd::arithmetic::mul::lemma_mul_nonnegative(
                            (n - 1 - i) as int,
                            band as int,
                        );
                        assert(band * (n - 1 - i) <= band * n == (n as int) * (band as int)) by {
                            vstd::arithmetic::mul::lemma_mul_is_commutative(
                                band as int,
                                n as int,
                            );
                            vstd::arithmetic::mul::lemma_mul_is_commutative(
                                band as int,
                                (n - 1 - i) as int,
                            );
                        }
                    }
                    let raised: u64 = band * ((n - 1 - i) as u64);
                    let bottom: i32 = (band as i32) / 2 - 30 + (raised as i32);
                    labels.push(
                        ChoiceLabel {
                            content: sels[i].content.clone(),
                            target_index: sels[i].next_index,
                            rect: Rect { x: CHOICE_X, y: bottom, w: 0, h: 0 },
                            alpha: ALPHA_ONE,
                            selected: false,
                        },
                    );
                    i += 1;
                }
            },
            None => {
                proof {
                    assert(false);
                }
            },
        }
        self.choice_labels = Some(labels);
        self.phase = Phase::AwaitingChoice;
    }
}

/// Some label contains the activation point.
pub open spec fn label_hit(labels: Seq<ChoiceLabel>, px: int, py: int) -> bool {
    exists|i: int| 0 <= i < labels.len() && rect_contains((#[trigger] labels[i]).rect, px, py)
}

/// Label `i` is the pick: it contains the point and no earlier label does —
/// the first match in list order wins.
pub open spec fn picks(labels: Seq<ChoiceLabel>, px: int, py: int, i: int) -> bool {
    &&& 0 <= i < labels.len()
    &&& rect_contains(labels[i].rect, px, py)
    &&& forall|k: int| 0 <= k < i ==> !rect_contains((#[trigger] labels[k]).rect, px, py)
}

/// The picked label, marked as selected; everything else of it kept.
pub open spec fn label_picked(post_l: ChoiceLabel, pre_l: ChoiceLabel) -> bool {
    &&& post_l.content == pre_l.content
    &&& post_l.target_index == pre_l.target_index
    &&& post_l.rect == pre_l.rect
    &&& post_l.alpha == pre_l.alpha
    &&& post_l.selected
}

/// The pick of label `i` was made: its target overwrites the pending index —
/// whatever successor the beat itself named — the label is marked, the
/// confirm sound fires, and the exit begins.
pub open spec fn pick_made(
    pre: GamePlayScene,
    post: GamePlayScene,
    i: int,
    cmds: Seq<AudioCommand>,
) -> bool {
    let ls = pre.choice_labels->0@;
    &&& layers_unchanged(pre, post)
    &&& post.next_index == ls[i].target_index
    &&& post.phase is ExitingBeat
    &&& post.choice_labels matches Some(ls2) && {
        &&& ls2@.len() == ls.len()
        &&& label_picked(ls2@[i], ls[i])
        &&& forall|k: int| 0 <= k < ls.len() && k != i ==> ls2@[k] == ls[k]
    }
    &&& post.overlay_alpha == pre.overlay_alpha
    &&& post.statics_ready
    &&& cmds.len() == 1 && cmds[0] is PlayConfirmSound
}

/// One frame of waiting for a pick: an activation on a label makes that pick;
/// anything else leaves the frame as it is.
pub open spec fn choice_wait_step(
    pre: GamePlayScene,
    post: GamePlayScene,
    hit: Option<(i32, i32)>,
    cmds: Seq<AudioCommand>,
) -> bool {
    match hit {
        None => unchanged_frame(pre, post) && cmds.len() == 0,
        Some(pos) => {
            let px = pos.0 as int;
            let py = pos.1 as int;
            let ls = pre.choice_labels->0@;
            if label_hit(ls, px, py) {
                exists|i: int| #[trigger] picks(ls, px, py, i) && pick_made(pre, post, i, cmds)
            } else {
                unchanged_frame(pre, post) && cmds.len() == 0
            }
        },
    }
}

/// First label in list order containing the point, if any.
fn first_hit_label(labels: &Vec<ChoiceLabel>, px: i32, py: i32) -> (r: Option<usize>)
    ensures
        match r {
            Some(i) => picks(labels@, px as int, py as int, i as int),
            None => !label_hit(labels@, px as int, py as int),
        },
{
    let mut j: usize = 0;
    while j < labels.len()
        invariant
            j <= labels@.len(),
            forall|k: int|
                0 <= k < j ==> !rect_contains(
                    (#[trigger] labels@[k]).rect,
                    px as int,
                    py as int,
                ),
        decreases labels@.len() - j,
    {
        if labels[j].rect.contains(px, py) {
            return Some(j);
        }
        j += 1;
    }
    None
}

impl GamePlayScene {
    /// One frame of waiting for a pick.
    fn step_choice_wait(&mut self, hit: Option<(i32, i32)>) -> (cmds: Vec<AudioCommand>)
        requires
            old(self).wf(),
            old(self).phase is AwaitingChoice,
        ensures
            final(self).wf(),
            choice_wait_step(*old(self), *final(self), hit, cmds@),
    {
        self.statics_ready = true;
        let mut cmds: Vec<AudioCommand> = Vec::new();
        let (px, py) = match hit {
            Some(pos) => pos,
            None => {
                return cmds;
            },
        };
        let found = match &self.choice_labels {
            Some(labels) => first_hit_label(labels, px, py),
            None => {
                proof {
                    assert(false);
                }
                None
            },
        };
        match found {
            None => cmds,
            Some(i) => {
                proof {
                    assert(beat_ok(
                        self.avg_items@[self.current_index as int],
                        self.avg_items@.len(),
                    ));
                }
                match &mut self.choice_labels {
                    Some(labels) => {
                        let mut picked_label = labels.remove(i);
                        picked_label.selected = true;
                        let target = picked_label.target_index;
                        labels.insert(i, picked_label);
                        self.next_index = target as usize;
                    },
                    None => {},
                }
                self.phase = Phase::ExitingBeat;
                cmds.push(AudioCommand::PlayConfirmSound);
                proof {
                    assert(pick_made(*old(self), *self, i as int, cmds@));
                }
                cmds
            },
        }
    }
}

/// The beat the pending index will load, if any remains.
pub open spec fn next_loaded_item(s: GamePlayScene) -> Option<AvgItem> {
    if s.next_index < s.avg_items@.len() {
        Some(s.avg_items@[s.next_index as int])
    } else {
        None
    }
}

/// The exit fades the background only when the next beat specifies one (any
/// value, the clearing marker included) and so will replace it.
pub open spec fn exit_fades_background(s: GamePlayScene) -> bool {
    next_loaded_item(s) matches Some(it) && it.background_image_path is Some
}

/// The exit fades the character only when the next beat specifies one.
pub open spec fn exit_fades_character(s: GamePlayScene) -> bool {
    next_loaded_item(s) matches Some(it) && it.center_character_image_path is Some
}

/// The exit fades the speaker name only when the next beat's speaker
/// differs, so a continuing speaker's name stays put.
pub open spec fn exit_fades_name(s: GamePlayScene) -> bool {
    let cur = speaker_name_seq(s.current_item().character_name);
    let nxt = match next_loaded_item(s) {
        Some(it) => speaker_name_seq(it.character_name),
        None => Seq::empty(),
    };
    cur != nxt
}

/// Every fading layer has reached transparency; a kept or absent layer never
/// blocks.  The overlay and the choice labels fade too but are not gated on:
/// whatever is left of them simply disappears with the next load.
pub open spec fn exit_complete(s: GamePlayScene) -> bool {
    &&& (s.background matches Some(l) ==> l.alpha == 0 || !exit_fades_background(s))
    &&& (s.character matches Some(l) ==> l.alpha == 0 || !exit_fades_character(s))
    &&& (s.name_label matches Some(l) ==> l.alpha == 0 || !exit_fades_name(s))
    &&& (s.body_label matches Some(l) ==> l.alpha == 0)
}

/// An image layer after one exit frame: faded when it will be replaced.
pub open spec fn image_faded_out_if(
    post_layer: Option<ImageLayer>,
    pre_layer: Option<ImageLayer>,
    fades: bool,
    delta_ms: u32,
    rate: u32,
) -> bool {
    match pre_layer {
        None => post_layer is None,
        Some(l) => {
            &&& post_layer matches Some(l2)
            &&& l2.path == l.path
            &&& l2.alpha == (if fades {
                alpha_faded_out(l.alpha, delta_ms, rate)
            } else {
                l.alpha as int
            })
        },
    }
}

/// A text layer after one exit frame: faded when it will be replaced.
pub open spec fn text_faded_out_if(
    post_label: Option<TextLayer>,
    pre_label: Option<TextLayer>,
    fades: bool,
    delta_ms: u32,
    rate: u32,
) -> bool {
    match pre_label {
        None => post_label is None,
        Some(l) => {
            &&& post_label matches Some(l2)
            &&& l2.content == l.content
            &&& l2.glyphs == l.glyphs
            &&& l2.reveal == l.reveal
            &&& l2.alpha == (if fades {
                alpha_faded_out(l.alpha, delta_ms, rate)
            } else {
                l.alpha as int
            })
        },
    }
}

/// One choice label after one exit frame: only its alpha fades.
pub open spec fn label_faded_out(
    post_l: ChoiceLabel,
    pre_l: ChoiceLabel,
    delta_ms: u32,
    rate: u32,
) -> bool {
    &&& post_l.content == pre_l.content
    &&& post_l.target_index == pre_l.target_index
    &&& post_l.rect == pre_l.rect
    &&& post_l.selected == pre_l.selected
    &&& post_l.alpha == alpha_faded_out(pre_l.alpha, delta_ms, rate)
}

/// Every choice label after one exit frame: all fade unconditionally.
pub open spec fn labels_faded_out(
    post_labels: Option<Vec<ChoiceLabel>>,
    pre_labels: Option<Vec<ChoiceLabel>>,
    delta_ms: u32,
    rate: u32,
) -> bool {
    match pre_labels {
        None => post_labels is None,
        Some(ls) => {
            &&& post_labels matches Some(ls2)
            &&& ls2@.len() == ls@.len()
            &&& forall|i: int|
                0 <= i < ls@.len() ==> label_faded_out(
                    #[trigger] ls2@[i],
                    ls@[i],
                    delta_ms,
                    rate,
                )
        },
    }
}

/// One exit frame: the layers the next beat replaces fade out, the body,
/// overlay and choice labels fade unconditionally, and once every gating
/// layer is transparent the machine moves on to the load.
pub open spec fn exit_step(
    pre: GamePlayScene,
    post: GamePlayScene,
    delta_ms: u32,
    instant: bool,
) -> bool {
    let fr = fade_rate_for(FADE_RATE, instant);
    &&& post.avg_items == pre.avg_items
    &&& post.current_index == pre.current_index
    &&& post.next_index == pre.next_index
    &&& image_faded_out_if(
        post.background,
        pre.background,
        exit_fades_background(pre),
        delta_ms,
        fr,
    )
    &&& image_faded_out_if(
        post.character,
        pre.character,
        exit_fades_character(pre),
        delta_ms,
        fr,
    )
    &&& text_faded_out_if(post.name_label, pre.name_label, exit_fades_name(pre), delta_ms, fr)
    &&& text_faded_out_if(post.body_label, pre.body_label, true, delta_ms, fr)
    &&& labels_faded_out(post.choice_labels, pre.choice_labels, delta_ms, fr)
    &&& post.overlay_alpha == alpha_faded_out(pre.overlay_alpha, delta_ms, fr)
    &&& post.statics_ready
    &&& post.phase == (if exit_complete(post) {
        Phase::LoadingNextBeat
    } else {
        Phase::ExitingBeat
    })
}

impl GamePlayScene {
    /// One exit frame.
    fn step_exit(&mut self, delta_ms: u32, instant: bool)
        requires
            old(self).wf(),
            old(self).phase is ExitingBeat,
        ensures
            final(self).wf(),
            exit_step(*old(self), *final(self), delta_ms, instant),
    {
        self.statics_ready = true;
        let len = self.avg_items.len();
        let fades_background: bool = self.next_index < len && self.avg_items[self.next_index]
            .background_image_path
            .is_some();
        let fades_character: bool = self.next_index < len && self.avg_items[self.next_index]
            .center_character_image_path
            .is_some();
        let cur_name: String = match &self.avg_items[self.current_index as usize].character_name {
            Some(n) => n.clone(),
            None => String::new(),
        };
        let nxt_name: String = if self.next_index < len {
            match &self.avg_items[self.next_index].character_name {
                Some(n) => n.clone(),
                None => String::new(),
            }
        } else {
            String::new()
        };
        let fades_name = !(cur_name == nxt_name);

        if fades_background {
            match &mut self.background {
                Some(layer) => {
                    layer.alpha = advance_alpha_out(layer.alpha, delta_ms, FADE_RATE, instant);
                },
                None => {},
            }
        }
        if fades_character {
            match &mut self.character {
                Some(layer) => {
                    layer.alpha = advance_alpha_out(layer.alpha, delta_ms, FADE_RATE, instant);
                },
                None => {},
            }
        }
        if fades_name {
            match &mut self.name_label {
                Some(label) => {
                    label.alpha = advance_alpha_out(label.alpha, delta_ms, FADE_RATE, instant);
                },
                None => {},
            }
        }
        match &mut self.body_label {
            Some(label) => {
                label.alpha = advance_alpha_out(label.alpha, delta_ms, FADE_RATE, instant);
            },
            None => {},
        }
        self.overlay_alpha = advance_alpha_out(self.overlay_alpha, delta_ms, FADE_RATE, instant);
        match &mut self.choice_labels {
            Some(labels) => {
                let n = labels.len();
                let mut i: usize = 0;
                while i < n
                    invariant
                        n == labels@.len(),
                        i <= n,
                        forall|k: int|
                            0 <= k < n ==> (#[trigger] labels@[k]).wf(),
                        forall|k: int|
                            i <= k < n ==> labels@[k] == old(self).choice_labels->0@[k],
                        forall|k: int|
                            0 <= k < i ==> label_faded_out(
                                #[trigger] labels@[k],
                                old(self).choice_labels->0@[k],
                                delta_ms,
                                fade_rate_for(FADE_RATE, instant),
                            ),
                    decreases n - i,
                {
                    labels[i].alpha = advance_alpha_out(
                        labels[i].alpha,
                        delta_ms,
                        FADE_RATE,
                        instant,
                    );
                    i += 1;
                }
            },
            None => {},
        }

        let done = (match &self.background {
            Some(l) => l.alpha == 0 || !fades_background,
            None => true,
        }) && (match &self.character {
            Some(l) => l.alpha == 0 || !fades_character,
            None => true,
        }) && (match &self.name_label {
            Some(l) => l.alpha == 0 || !fades_name,
            None => true,
        }) && (match &self.body_label {
            Some(l) => l.alpha == 0,
            None => true,
        });
        if done {
            self.phase = Phase::LoadingNextBeat;
        }
    }
}

/// One label with a reported rectangle; everything else of it kept.
pub open spec fn label_rect_set(post_l: ChoiceLabel, pre_l: ChoiceLabel, rect: Rect) -> bool {
    &&& post_l.content == pre_l.content
    &&& post_l.target_index == pre_l.target_index
    &&& post_l.rect == rect
    &&& post_l.alpha == pre_l.alpha
    &&& post_l.selected == pre_l.selected
}

/// A bounds report: with labels present and the index in range, that label
/// carries the reported rectangle; any other report is ignored.
pub open spec fn bounds_reported(
    pre: GamePlayScene,
    post: GamePlayScene,
    index: usize,
    rect: Rect,
) -> bool {
    &&& layers_unchanged(pre, post)
    &&& post.next_index == pre.next_index
    &&& post.phase == pre.phase
    &&& post.overlay_alpha == pre.overlay_alpha
    &&& post.statics_ready == pre.statics_ready
    &&& if pre.choice_labels is Some && index < pre.choice_labels->0@.len() {
        &&& post.choice_labels matches Some(ls2)
        &&& ls2@.len() == pre.choice_labels->0@.len()
        &&& label_rect_set(ls2@[index as int], pre.choice_labels->0@[index as int], rect)
        &&& forall|k: int|
            0 <= k < ls2@.len() && k != index ==> ls2@[k] == pre.choice_labels->0@[k]
    } else {
        post.choice_labels == pre.choice_labels
    }
}

impl GamePlayScene {
    /// Caches the host's laid-out quad for choice label `index`; the pick
    /// hit test runs against these cached rectangles.  A report that names
    /// no existing label is ignored.
    pub fn set_choice_label_bounds(&mut self, index: usize, rect: Rect)
        requires
            old(self).wf(),
        ensures
            final(self).wf(),
            bounds_reported(*old(self), *final(self), index, rect),
    {
        match &mut self.choice_labels {
            Some(labels) => {
                if index < labels.len() {
                    let mut label = labels.remove(index);
                    label.rect = rect;
                    labels.insert(index, label);
                }
            },
            None => {},
        }
    }
}

/// The whole transition relation of one frame, keyed on the phase the frame
/// starts in.  `update` conforms to it exactly.
pub open spec fn step(
    pre: GamePlayScene,
    post: GamePlayScene,
    delta_ms: u32,
    hit: Option<(i32, i32)>,
    cmds: Seq<AudioCommand>,
) -> bool {
    match pre.phase {
        Phase::LoadingNextBeat => if pre.next_index >= pre.avg_items@.len() {
            unchanged_frame(pre, post) && cmds.len() == 0
        } else {
            load_step(pre, post, cmds)
        },
        Phase::EnteringBeat => enter_step(pre, post, delta_ms, hit is Some) && cmds.len() == 0,
        Phase::AwaitingAdvance => wait_step(pre, post, hit is Some, cmds),
        Phase::ShowingChoices => choices_step(pre, post) && cmds.len() == 0,
        Phase::AwaitingChoice => choice_wait_step(pre, post, hit, cmds),
        Phase::ExitingBeat => exit_step(pre, post, delta_ms, hit is Some) && cmds.len() == 0,
    }
}

impl GamePlayScene {
    /// One frame: `delta_ms` elapsed since the previous one, and an optional
    /// pointer activation on the logical canvas.  Returns the frame's audio
    /// requests, in order.
    pub fn update(&mut self, delta_ms: u32, hit_position: Option<(i32, i32)>) -> (cmds: Vec<
        AudioCommand,
    >)
        requires
            old(self).wf(),
        ensures
            final(self).wf(),
            step(*old(self), *final(self), delta_ms, hit_position, cmds@),
    {
        match self.phase {
            Phase::LoadingNextBeat => {
                if self.next_index >= self.avg_items.len() {
                    self.statics_ready = true;
                    Vec::new()
                } else {
                    self.step_load()
                }
            },
            Phase::EnteringBeat => {
                self.step_enter(delta_ms, hit_position.is_some());
                Vec::new()
            },
            Phase::AwaitingAdvance => self.step_wait(hit_position.is_some()),
            Phase::ShowingChoices => {
                self.step_choices();
                Vec::new()
            },
            Phase::AwaitingChoice => self.step_choice_wait(hit_position),
            Phase::ExitingBeat => {
                self.step_exit(delta_ms, hit_position.is_some());
                Vec::new()
            },
        }
    }
}

/// The background's draw call, when the layer exists.
pub open spec fn draw_background_items(s: GamePlayScene) -> Seq<DrawItem> {
    match s.background {
        Some(l) => seq![DrawItem::Background { path: l.path@, alpha: l.alpha }],
        None => Seq::empty(),
    }
}

/// The centre character's draw call, when the layer exists.
pub open spec fn draw_character_items(s: GamePlayScene) -> Seq<DrawItem> {
    match s.character {
        Some(l) => seq![DrawItem::Character { path: l.path@, alpha: l.alpha }],
        None => Seq::empty(),
    }
}

/// The dialogue frame overlay: drawn only under a beat that shows body text
/// ("no body" means "no frame"), in its with-name or no-name variant, and
/// only once the once-only overlays exist.
pub open spec fn draw_frame_items(s: GamePlayScene) -> Seq<DrawItem> {
    if s.body_label is Some && s.statics_ready {
        seq![DrawItem::Frame { with_name: s.name_label is Some }]
    } else {
        Seq::empty()
    }
}

/// The speaker name's draw call, when the label exists.
pub open spec fn draw_name_items(s: GamePlayScene) -> Seq<DrawItem> {
    match s.name_label {
        Some(l) => seq![DrawItem::SpeakerName { text: l.content@, alpha: l.alpha }],
        None => Seq::empty(),
    }
}

/// The body text's draw call, when the label exists.
pub open spec fn draw_body_items(s: GamePlayScene) -> Seq<DrawItem> {
    match s.body_label {
        Some(l) => seq![DrawItem::Body { text: l.content@, alpha: l.alpha, reveal: l.reveal }],
        None => Seq::empty(),
    }
}

/// The mathematical value of a command list.
pub open spec fn commands_view(cmds: Seq<DrawCommand>) -> Seq<DrawItem> {
    cmds.map_values(|c: DrawCommand| c@)
}

/// A choice label's draw call.
pub open spec fn label_item(l: ChoiceLabel) -> DrawItem {
    DrawItem::ChoiceLabel { text: l.content@, rect: l.rect, alpha: l.alpha, selected: l.selected }
}

/// The draw calls of a label list, in list order.
pub open spec fn label_items(ls: Seq<ChoiceLabel>) -> Seq<DrawItem> {
    Seq::new(ls.len(), |i: int| label_item(ls[i]))
}

/// The branch overlay and the choice labels: drawn only while a pick is
/// pending or the beat is fading out.
pub open spec fn draw_selection_items(s: GamePlayScene) -> Seq<DrawItem> {
    if s.phase is AwaitingChoice || s.phase is ExitingBeat {
        (if s.statics_ready {
            seq![DrawItem::SelectionOverlay { alpha: s.overlay_alpha }]
        } else {
            Seq::empty()
        }) + (match s.choice_labels {
            Some(ls) => label_items(ls@),
            None => Seq::empty(),
        })
    } else {
        Seq::empty()
    }
}

/// The draw calls before the branch overlay, back to front.
pub open spec fn head_items(s: GamePlayScene) -> Seq<DrawItem> {
    draw_background_items(s) + draw_character_items(s) + draw_frame_items(s) + draw_name_items(s)
        + draw_body_items(s)
}

/// The whole frame's draw calls, back to front.
pub open spec fn draw_items(s: GamePlayScene) -> Seq<DrawItem> {
    head_items(s) + draw_selection_items(s)
}

/// The draw calls of a label list, in list order.
fn label_commands(labels: &Vec<ChoiceLabel>) -> (cmds: Vec<DrawCommand>)
    ensures
        commands_view(cmds@) == label_items(labels@),
{
    let mut cmds: Vec<DrawCommand> = Vec::new();
    let mut i: usize = 0;
    while i < labels.len()
        invariant
            i <= labels@.len(),
            commands_view(cmds@) == label_items(labels@.take(i as int)),
        decreases labels@.len() - i,
    {
        let l = &labels[i];
        let ghost before = cmds@;
        cmds.push(
            DrawCommand::ChoiceLabel {
                text: l.content.clone(),
                rect: l.rect,
                alpha: l.alpha,
                selected: l.selected,
            },
        );
        proof {
            assert(commands_view(before).len() == before.len());
            assert(label_items(labels@.take(i as int)).len() == i);
            assert forall|k: int| 0 <= k < before.len() implies #[trigger] before[k]@
                == label_item(labels@[k]) by {
                assert(commands_view(before)[k] == before[k]@);
            }
            assert(commands_view(cmds@) =~= label_items(labels@.take(i + 1 as int)));
        }
        i += 1;
    }
    proof {
        assert(labels@.take(labels@.len() as int) =~= labels@);
    }
    cmds
}

impl GamePlayScene {
    /// The draw calls before the branch overlay, back to front.
    fn draw_head(&self) -> (cmds: Vec<DrawCommand>)
        ensures
            commands_view(cmds@) == head_items(*self),
    {
        let mut cmds: Vec<DrawCommand> = Vec::new();
        match &self.background {
            Some(l) => {
                cmds.push(DrawCommand::Background { path: l.path.clone(), alpha: l.alpha });
            },
            None => {},
        }
        match &self.character {
            Some(l) => {
                cmds.push(DrawCommand::Character { path: l.path.clone(), alpha: l.alpha });
            },
            None => {},
        }
        if self.body_label.is_some() && self.statics_ready {
            cmds.push(DrawCommand::Frame { with_name: self.name_label.is_some() });
        }
        match &self.name_label {
            Some(l) => {
                cmds.push(DrawCommand::SpeakerName { text: l.content.clone(), alpha: l.alpha });
            },
            None => {},
        }
        match &self.body_label {
            Some(l) => {
                cmds.push(
                    DrawCommand::Body { text: l.content.clone(), alpha: l.alpha, reveal: l.reveal },
                );
            },
            None => {},
        }
        proof {
            assert(commands_view(cmds@) =~= head_items(*self));
        }
        cmds
    }

    /// The frame's draw calls, in the order the host must issue them.
    pub fn draw(&self) -> (cmds: Vec<DrawCommand>)
        ensures
            commands_view(cmds@) == draw_items(*self),
    {
        let mut cmds = self.draw_head();
        let ghost head_part = cmds@;
        proof {
            assert forall|k: int| 0 <= k < head_part.len() implies #[trigger] head_part[k]@
                == head_items(*self)[k] by {
                assert(commands_view(head_part)[k] == head_part[k]@);
            }
        }
        let selecting = match self.phase {
            Phase::AwaitingChoice => true,
            Phase::ExitingBeat => true,
            _ => false,
        };
        if selecting {
            if self.statics_ready {
                cmds.push(DrawCommand::SelectionOverlay { alpha: self.overlay_alpha });
            }
            match &self.choice_labels {
                Some(labels) => {
                    let mut tail = label_commands(labels);
                    let ghost tail_part = tail@;
                    proof {
                        assert forall|k: int| 0 <= k < tail_part.len() implies #[trigger] tail_part[k]@
                            == label_items(labels@)[k] by {
                            assert(commands_view(tail_part)[k] == tail_part[k]@);
                        }
                    }
                    cmds.append(&mut tail);
                },
                None => {},
            }
        }
        proof {
            assert(commands_view(cmds@) =~= draw_items(*self));
        }
        cmds
    }
}

} // verus!
