//! The script: an ordered list of beats, validated once before playback.
//!
//! Each beat is a delta against the running picture: an image field left
//! empty keeps the previous layer, the `NO_IMAGE` marker clears it, and any
//! other path replaces it.  A beat may branch through `selection_items` or
//! jump through `next_index`; when both are absent playback falls through to
//! the next beat in order.  Every jump target must lie within `[0, len]`,
//! where `len` means "end of playback".

use vstd::prelude::*;

verus! {

/// One selectable branch: a label and the beat index playback jumps to when
/// the player picks it.
pub struct SelectionItem {
    pub content: String,
    pub next_index: u32,
}

/// One beat of the script.
pub struct AvgItem {
    pub background_music: Option<String>,
    pub background_image_path: Option<String>,
    pub center_character_image_path: Option<String>,
    pub character_name: Option<String>,
    pub content: Option<String>,
    pub selection_items: Option<Vec<SelectionItem>>,
    pub next_index: Option<u32>,
}

/// Why a script was rejected.  Every variant names a fault that is really in
/// the list it was returned for.
#[derive(Clone, Copy, Debug, PartialEq, Eq, Structural)]
pub enum ScriptError {
    EmptyScript,
    TooManyBeats,
    BadNextIndex { beat: usize, target: u32 },
    BadSelectionTarget { beat: usize, selection: usize, target: u32 },
}

/// Most beats a script may hold, so that a beat index always fits the signed
/// 32-bit current-position counter whose value -1 means "before the first
/// beat".
pub const MAX_BEATS: usize = 0x7fffffff;

/// The marker path that clears a layer, as opposed to an absent path, which
/// keeps the previous layer.
pub open spec fn is_no_image(path: Seq<char>) -> bool {
    path == "NO_IMAGE"@
}

/// True when the path field holds the explicit "hide this layer" marker.
pub fn is_no_image_marker(path: &String) -> (r: bool)
    ensures
        r == is_no_image(path@),
{
    let marker: String = "NO_IMAGE".to_owned();
    *path == marker
}

/// Every jump of the beat lands inside `[0, len]`.
pub open spec fn beat_ok(item: AvgItem, len: nat) -> bool {
    &&& (item.next_index matches Some(k) ==> k as nat <= len)
    &&& (item.selection_items matches Some(sels) ==> forall|j: int|
        0 <= j < sels@.len() ==> (#[trigger] sels@[j]).next_index as nat <= len)
}

/// A playable script: non-empty, small enough to index, and with every jump
/// target in range.
pub open spec fn script_ok(items: Seq<AvgItem>) -> bool {
    &&& items.len() > 0
    &&& items.len() <= MAX_BEATS
    &&& forall|i: int| 0 <= i < items.len() ==> beat_ok(#[trigger] items[i], items.len())
}

/// The beat the script moves to after the beat at `current` when no choice
/// intervenes: the explicit jump when given, else the next beat in order.
pub open spec fn default_successor(item: AvgItem, current: nat) -> nat {
    match item.next_index {
        Some(k) => k as nat,
        None => current + 1,
    }
}

/// The error names a fault that the list really has.
pub open spec fn error_describes(items: Seq<AvgItem>, e: ScriptError) -> bool {
    match e {
        ScriptError::EmptyScript => items.len() == 0,
        ScriptError::TooManyBeats => items.len() > MAX_BEATS,
        ScriptError::BadNextIndex { beat, target } => {
            &&& beat < items.len()
            &&& items[beat as int].next_index == Some(target)
            &&& target as nat > items.len()
        },
        ScriptError::BadSelectionTarget { beat, selection, target } => {
            &&& beat < items.len()
            &&& items[beat as int].selection_items matches Some(sels)
            &&& selection < items[beat as int].selection_items->0@.len()
            &&& items[beat as int].selection_items->0@[selection as int].next_index == target
            &&& target as nat > items.len()
        },
    }
}

/// Checks the whole list against `script_ok`; an `Err` names a fault the
/// list really has.
pub fn validate_script(items: &Vec<AvgItem>) -> (r: Result<(), ScriptError>)
    ensures
        r is Ok <==> script_ok(items@),
        r matches Err(e) ==> error_describes(items@, e),
{
    let len = items.len();
    if len == 0 {
        return Err(ScriptError::EmptyScript);
    }
    if len > MAX_BEATS {
        return Err(ScriptError::TooManyBeats);
    }
    let mut i: usize = 0;
    while i < len
        invariant
            len == items@.len(),
            0 < len <= MAX_BEATS,
            i <= len,
            forall|k: int| 0 <= k < i ==> beat_ok(#[trigger] items@[k], items@.len()),
        decreases len - i,
    {
        let item = &items[i];
        match &item.next_index {
            Some(k) => {
                if *k as usize > len {
                    return Err(ScriptError::BadNextIndex { beat: i, target: *k });
                }
            },
            None => {},
        }
        match &item.selection_items {
            Some(sels) => {
                let mut j: usize = 0;
                while j < sels.len()
                    invariant
                        len == items@.len(),
                        i < len,
                        items@[i as int].selection_items matches Some(s) && s@ == sels@,
                        j <= sels@.len(),
                        forall|m: int|
                            0 <= m < j ==> (#[trigger] sels@[m]).next_index as nat <= len,
                    decreases sels@.len() - j,
                {
                    let target = sels[j].next_index;
                    if target as usize > len {
                        return Err(
                            ScriptError::BadSelectionTarget { beat: i, selection: j, target },
                        );
                    }
                    j += 1;
                }
            },
            None => {},
        }
        assert(beat_ok(items@[i as int], items@.len()));
        i += 1;
    }
    Ok(())
}

} // verus!
