//! Pure models of the drawable layers and of the commands a frame produces.
//!
//! The player never touches textures or audio devices: a layer here is the
//! data the host needs to draw it (path or text, alpha, reveal ratio, and
//! for a choice label its screen rectangle), and each frame yields audio
//! requests from `update` and an ordered draw list from `draw`.

use vstd::prelude::*;
use crate::timing::{ALPHA_ONE, REVEAL_ONE};

verus! {

/// An axis-aligned rectangle on the logical 1920x1080 canvas, origin at the
/// bottom left.
#[derive(Clone, Copy, Debug, PartialEq, Eq, Structural)]
pub struct Rect {
    pub x: i32,
    pub y: i32,
    pub w: u32,
    pub h: u32,
}

/// The point `(px, py)` lies inside `r`.
pub open spec fn rect_contains(r: Rect, px: int, py: int) -> bool {
    &&& r.x <= px < r.x + r.w
    &&& r.y <= py < r.y + r.h
}

impl Rect {
    /// Rectangle containment of a pointer position.
    pub fn contains(&self, px: i32, py: i32) -> (hit: bool)
        ensures
            hit == rect_contains(*self, px as int, py as int),
    {
        px >= self.x && (px as i64) < self.x as i64 + self.w as i64 && py >= self.y && (py as i64)
            < self.y as i64 + self.h as i64
    }
}

/// A textured full-canvas plane: the background or the centre character.
pub struct ImageLayer {
    pub path: String,
    pub alpha: u32,
}

impl ImageLayer {
    /// The alpha stays a valid thousandths value.
    pub open spec fn wf(self) -> bool {
        self.alpha <= ALPHA_ONE
    }

    /// A fresh plane for a newly specified image, fully transparent so the
    /// entering beat can fade it in.
    pub fn new(path: String) -> (layer: ImageLayer)
        ensures
            layer.path == path,
            layer.alpha == 0,
            layer.wf(),
    {
        ImageLayer { path, alpha: 0 }
    }
}

/// How many glyphs the reveal pace divides by: the text's code points, with
/// an empty text counted as one glyph so the division is defined, clamped to
/// the reveal arithmetic's width.
pub open spec fn glyph_count_of(content: Seq<char>) -> u32 {
    if content.len() == 0 {
        1u32
    } else if content.len() > u32::MAX {
        u32::MAX
    } else {
        content.len() as u32
    }
}

/// A text layer: the speaker-name label or the body label.
pub struct TextLayer {
    pub content: String,
    pub glyphs: u32,
    pub alpha: u32,
    pub reveal: u32,
}

impl TextLayer {
    /// The glyph count matches the content and the ramps hold valid values.
    pub open spec fn wf(self) -> bool {
        &&& self.glyphs == glyph_count_of(self.content@)
        &&& self.alpha <= ALPHA_ONE
        &&& self.reveal <= REVEAL_ONE
    }

    /// A fresh label with the given starting ramp values.
    pub fn new(content: String, alpha: u32, reveal: u32) -> (layer: TextLayer)
        requires
            alpha <= ALPHA_ONE,
            reveal <= REVEAL_ONE,
        ensures
            layer.content == content,
            layer.alpha == alpha,
            layer.reveal == reveal,
            layer.wf(),
    {
        let counted = content.as_str().unicode_len();
        let glyphs: u32 = if counted == 0 {
            1
        } else if counted > u32::MAX as usize {
            u32::MAX
        } else {
            counted as u32
        };
        TextLayer { content, glyphs, alpha, reveal }
    }
}

/// One selectable label shown while a branch waits: its text, the beat it
/// jumps to, its rectangle on the canvas (a zero-sized placeholder until the
/// host reports the laid-out quad), and whether the player picked it.
pub struct ChoiceLabel {
    pub content: String,
    pub target_index: u32,
    pub rect: Rect,
    pub alpha: u32,
    pub selected: bool,
}

impl ChoiceLabel {
    /// The alpha stays a valid thousandths value.
    pub open spec fn wf(self) -> bool {
        self.alpha <= ALPHA_ONE
    }
}

/// An audio request of one frame, to be issued in order.
#[derive(Debug, PartialEq)]
pub enum AudioCommand {
    /// Load the file and loop it as background music.
    PlayMusic(String),
    /// Fire the confirm one-shot sound.
    PlayConfirmSound,
}

/// One draw call of a frame, listed in the order the host must issue them.
#[derive(Debug, PartialEq)]
pub enum DrawCommand {
    Background { path: String, alpha: u32 },
    Character { path: String, alpha: u32 },
    Frame { with_name: bool },
    SpeakerName { text: String, alpha: u32 },
    Body { text: String, alpha: u32, reveal: u32 },
    SelectionOverlay { alpha: u32 },
    ChoiceLabel { text: String, rect: Rect, alpha: u32, selected: bool },
}

/// The mathematical value of a draw call: the same shape with the text as a
/// character sequence.
pub enum DrawItem {
    Background { path: Seq<char>, alpha: u32 },
    Character { path: Seq<char>, alpha: u32 },
    Frame { with_name: bool },
    SpeakerName { text: Seq<char>, alpha: u32 },
    Body { text: Seq<char>, alpha: u32, reveal: u32 },
    SelectionOverlay { alpha: u32 },
    ChoiceLabel { text: Seq<char>, rect: Rect, alpha: u32, selected: bool },
}

impl View for DrawCommand {
    type V = DrawItem;

    open spec fn view(&self) -> DrawItem {
        match self {
            DrawCommand::Background { path, alpha } => DrawItem::Background {
                path: path@,
                alpha: *alpha,
            },
            DrawCommand::Character { path, alpha } => DrawItem::Character {
                path: path@,
                alpha: *alpha,
            },
            DrawCommand::Frame { with_name } => DrawItem::Frame { with_name: *with_name },
            DrawCommand::SpeakerName { text, alpha } => DrawItem::SpeakerName {
                text: text@,
                alpha: *alpha,
            },
            DrawCommand::Body { text, alpha, reveal } => DrawItem::Body {
                text: text@,
                alpha: *alpha,
                reveal: *reveal,
            },
            DrawCommand::SelectionOverlay { alpha } => DrawItem::SelectionOverlay {
                alpha: *alpha,
            },
            DrawCommand::ChoiceLabel { text, rect, alpha, selected } => DrawItem::ChoiceLabel {
                text: text@,
                rect: *rect,
                alpha: *alpha,
                selected: *selected,
            },
        }
    }
}

} // verus!
