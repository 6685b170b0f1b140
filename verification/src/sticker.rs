//! The sticker reference stored while a submission awaits confirmation.

use vstd::prelude::*;

verus! {

/// What the bot remembers about a sticker: the platform file identifier
/// (possibly session-specific), the stable unique identifier used for
/// removal lookups, whether the sticker is animated, and its associated
/// emoji metadata, if any.
#[derive(Debug, PartialEq)]
pub struct StickerRef {
    pub file_id: String,
    pub unique_id: String,
    pub is_animated: bool,
    pub emoji: Option<String>,
}

impl StickerRef {
    /// An exact copy of this reference.
    pub fn duplicate(&self) -> (r: StickerRef)
        ensures
            r == *self,
    {
        let emoji: Option<String> = match &self.emoji {
            Some(e) => Some(e.clone()),
            None => None,
        };
        StickerRef {
            file_id: self.file_id.clone(),
            unique_id: self.unique_id.clone(),
            is_animated: self.is_animated,
            emoji,
        }
    }
}

} // verus!
