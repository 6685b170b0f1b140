//! Collection-facing decisions: preparing an approved sticker for the add
//! call, locating the member to delete for a rejected one, and picking a
//! random member for the keyword reply.

use vstd::prelude::*;

use crate::random::{fresh_rng, sample_below};
use crate::router::BotError;
use crate::sticker::StickerRef;

verus! {

/// Media kind of a sticker asset, decided from the stored animation flag.
#[derive(Clone, Copy, Debug, PartialEq, Eq, Structural)]
pub enum MediaKind {
    Static,
    Animated,
}

/// Everything the transport needs to add a sticker to the collection.
#[derive(Debug, PartialEq)]
pub struct AddRequest {
    pub file_id: String,
    pub kind: MediaKind,
    pub emojis: String,
}

/// Prepares the add operation for an approved sticker: the media kind
/// follows the stored animation flag, and the emoji metadata that the
/// original submission must have carried is required — its absence is a
/// caller contract violation.
pub fn prepare_add(s: &StickerRef) -> (r: Result<AddRequest, BotError>)
    ensures
        match s.emoji {
            Some(e) => r matches Ok(a) && a.file_id@ == s.file_id@ && a.emojis@ == e@ && a.kind == (
            if s.is_animated {
                MediaKind::Animated
            } else {
                MediaKind::Static
            }),
            None => r == Err::<AddRequest, BotError>(BotError::MissingEmoji),
        },
{
    match &s.emoji {
        Some(e) => Ok(
            AddRequest {
                file_id: s.file_id.clone(),
                kind: if s.is_animated {
                    MediaKind::Animated
                } else {
                    MediaKind::Static
                },
                emojis: e.clone(),
            },
        ),
        None => Err(BotError::MissingEmoji),
    }
}

/// File identifier of the first collection member whose unique identifier
/// matches the stored reference; NotFound when no member matches, since
/// the collection may have changed since the sticker was stored.
pub fn find_removal_target(members: &Vec<StickerRef>, unique_id: &String) -> (r: Result<
    String,
    BotError,
>)
    ensures
        match r {
            Ok(fid) => exists|i: int|
                {
                    &&& 0 <= i < members@.len()
                    &&& (#[trigger] members@[i]).unique_id@ == unique_id@
                    &&& fid@ == members@[i].file_id@
                    &&& forall|j: int| 0 <= j < i ==> members@[j].unique_id@ != unique_id@
                },
            Err(e) => {
                &&& e == BotError::NotFound
                &&& forall|i: int|
                    0 <= i < members@.len() ==> (#[trigger] members@[i]).unique_id@ != unique_id@
            },
        },
{
    let n = members.len();
    let mut i: usize = 0;
    while i < n
        invariant
            n == members@.len(),
            i <= n,
            forall|j: int| 0 <= j < i ==> (#[trigger] members@[j]).unique_id@ != unique_id@,
        decreases n - i,
    {
        if members[i].unique_id == *unique_id {
            return Ok(members[i].file_id.clone());
        }
        i = i + 1;
    }
    Err(BotError::NotFound)
}

/// Picks one collection member uniformly at random; nothing when the
/// collection is empty, so the keyword branch stays silent.
pub fn choose_sticker(members: &Vec<StickerRef>) -> (r: Option<StickerRef>)
    ensures
        members@.len() == 0 ==> r is None,
        members@.len() > 0 ==> (r matches Some(s) && exists|i: int|
            0 <= i < members@.len() && s == #[trigger] members@[i]),
{
    if members.len() == 0 {
        None
    } else {
        let mut rng = fresh_rng();
        let i = sample_below(&mut rng, members.len());
        Some(members[i].duplicate())
    }
}

} // verus!
