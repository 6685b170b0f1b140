//! Text handling for inbound events: splitting a callback payload at its
//! first comma, classifying the decision field, and searching a message
//! for the trigger name.

use vstd::prelude::*;
use vstd::string::StrSliceExecFns;

verus! {

/// Index of the first comma in `p`, or `p.len()` if `p` has none.
pub open spec fn comma_pos(p: Seq<char>) -> int
    decreases p.len(),
{
    if p.len() == 0 {
        0
    } else if p[0] == ',' {
        0
    } else {
        1 + comma_pos(p.subrange(1, p.len() as int))
    }
}

/// Whether `p` holds a comma at all.
pub open spec fn has_comma(p: Seq<char>) -> bool {
    comma_pos(p) < p.len()
}

/// The token field of a payload: everything before the first comma.
pub open spec fn token_part(p: Seq<char>) -> Seq<char> {
    p.subrange(0, comma_pos(p))
}

/// The decision field of a payload: everything after the first comma.
pub open spec fn decision_part(p: Seq<char>) -> Seq<char> {
    p.subrange(comma_pos(p) + 1, p.len() as int)
}

/// `comma_pos` is a position in `p` (or just past it), points at a comma
/// whenever one exists, and nothing before it is a comma.
pub proof fn lemma_comma_pos(p: Seq<char>)
    ensures
        0 <= comma_pos(p) <= p.len(),
        comma_pos(p) < p.len() ==> p[comma_pos(p)] == ',',
        forall|j: int| 0 <= j < comma_pos(p) ==> p[j] != ',',
    decreases p.len(),
{
    if p.len() == 0 {
    } else if p[0] == ',' {
    } else {
        let rest = p.subrange(1, p.len() as int);
        lemma_comma_pos(rest);
        assert forall|j: int| 0 <= j < comma_pos(p) implies p[j] != ',' by {
            if j > 0 {
                assert(rest[j - 1] == p[j]);
            }
        }
        if comma_pos(p) < p.len() {
            assert(rest[comma_pos(p) - 1] == p[comma_pos(p)]);
        }
    }
}

/// A comma at `i` with none before it pins `comma_pos` to `i`.
pub proof fn lemma_comma_pos_of_first(p: Seq<char>, i: int)
    requires
        0 <= i < p.len(),
        p[i] == ',',
        forall|j: int| 0 <= j < i ==> p[j] != ',',
    ensures
        comma_pos(p) == i,
    decreases p.len(),
{
    if i > 0 {
        let rest = p.subrange(1, p.len() as int);
        assert(rest[i - 1] == p[i]);
        assert forall|j: int| 0 <= j < i - 1 implies rest[j] != ',' by {
            assert(rest[j] == p[j + 1]);
        }
        lemma_comma_pos_of_first(rest, i - 1);
    }
}

/// Splits a callback payload at its first comma into the token and the
/// decision; a payload without a comma is malformed and yields nothing.
pub fn split_payload(p: &str) -> (r: Option<(String, String)>)
    ensures
        has_comma(p@) ==> (r matches Some(td) && td.0@ == token_part(p@) && td.1@
            == decision_part(p@)),
        !has_comma(p@) ==> r is None,
{
    proof {
        lemma_comma_pos(p@);
    }
    let n = p.unicode_len();
    let mut i: usize = 0;
    while i < n
        invariant
            n == p@.len(),
            i <= n,
            forall|j: int| 0 <= j < i ==> p@[j] != ',',
        decreases n - i,
    {
        if p.get_char(i) == ',' {
            proof {
                lemma_comma_pos_of_first(p@, i as int);
            }
            let token = p.substring_char(0, i).to_owned();
            let decision = p.substring_char(i + 1, n).to_owned();
            return Some((token, decision));
        }
        i = i + 1;
    }
    proof {
        if has_comma(p@) {
            assert(p@[comma_pos(p@)] == ',');
        }
    }
    None
}

/// What the user decided, read from the decision field of the payload:
/// "yes" approves the pending sticker, "no" rejects it, and anything else
/// asks for nothing.
#[derive(Clone, Copy, Debug, PartialEq, Eq, Structural)]
pub enum Decision {
    Approve,
    Reject,
    Other,
}

/// The decision named by `d`.
pub open spec fn spec_decision(d: Seq<char>) -> Decision {
    if d == seq!['y', 'e', 's'] {
        Decision::Approve
    } else if d == seq!['n', 'o'] {
        Decision::Reject
    } else {
        Decision::Other
    }
}

/// Classifies the decision field of a callback payload.
pub fn classify_decision(d: &str) -> (r: Decision)
    ensures
        r == spec_decision(d@),
{
    let n = d.unicode_len();
    if n == 3 && d.get_char(0) == 'y' && d.get_char(1) == 'e' && d.get_char(2) == 's' {
        proof {
            assert(d@ =~= seq!['y', 'e', 's']);
        }
        Decision::Approve
    } else if n == 2 && d.get_char(0) == 'n' && d.get_char(1) == 'o' {
        proof {
            assert(d@ =~= seq!['n', 'o']);
        }
        Decision::Reject
    } else {
        Decision::Other
    }
}

/// First character of the trigger name the keyword branch reacts to.
pub open spec fn trigger_first() -> char {
    '\u{838e}'
}

/// Second character of the trigger name.
pub open spec fn trigger_second() -> char {
    '\u{8389}'
}

/// Whether the text contains the two-character trigger name.
pub open spec fn contains_trigger(t: Seq<char>) -> bool {
    exists|i: int|
        0 <= i && i + 1 < t.len() && #[trigger] t[i] == trigger_first() && t[i + 1]
            == trigger_second()
}

/// Scans a text message for the trigger name.
pub fn text_has_trigger(t: &str) -> (r: bool)
    ensures
        r == contains_trigger(t@),
{
    let n = t.unicode_len();
    if n < 2 {
        return false;
    }
    let mut i: usize = 0;
    while i + 1 < n
        invariant
            n == t@.len(),
            2 <= n,
            i + 1 <= n,
            forall|j: int|
                0 <= j < i ==> !(#[trigger] t@[j] == trigger_first() && t@[j + 1]
                    == trigger_second()),
        decreases n - i,
    {
        if t.get_char(i) == '\u{838e}' && t.get_char(i + 1) == '\u{8389}' {
            assert(t@[i as int] == trigger_first() && t@[i as int + 1] == trigger_second());
            return true;
        }
        i = i + 1;
    }
    assert forall|j: int| 0 <= j && j + 1 < t@.len() implies !(#[trigger] t@[j] == trigger_first()
        && t@[j + 1] == trigger_second()) by {
        assert(j < i);
    }
    false
}

} // verus!
