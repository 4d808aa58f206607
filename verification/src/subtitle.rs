use vstd::prelude::*;

verus! {

/// The kind of one rectangle of a decoded subtitle (`Blank` for a rectangle
/// of no known kind).
#[derive(Clone, Copy, Debug, PartialEq, Eq)]
pub enum SubtitleKind {
    Blank,
    Bitmap,
    Text,
    Ass,
}

/// Where the text of a decoded subtitle comes from.
#[derive(Clone, Copy, Debug, PartialEq, Eq)]
pub enum SubtitleText {
    /// No rectangle carries text: the text is empty.
    Empty,
    /// The plain `text` field of the rectangle at this index.
    Plain(usize),
    /// The `ass` field of the rectangle at this index.
    Ass(usize),
}

/// The text source of a subtitle: the last rectangle that is plain text or
/// ASS wins; bitmaps and empty rectangles give no text.
pub open spec fn last_text_rect(kinds: Seq<SubtitleKind>) -> SubtitleText
    decreases kinds.len(),
{
    if kinds.len() == 0 {
        SubtitleText::Empty
    } else {
        let i = (kinds.len() - 1) as int;
        if kinds[i] == SubtitleKind::Text {
            SubtitleText::Plain(i as usize)
        } else if kinds[i] == SubtitleKind::Ass {
            SubtitleText::Ass(i as usize)
        } else {
            last_text_rect(kinds.drop_last())
        }
    }
}

/// Whether a rectangle carries text (plain or ASS).
pub open spec fn carries_text(k: SubtitleKind) -> bool {
    k == SubtitleKind::Text || k == SubtitleKind::Ass
}

/// Whether index `i` holds the last text-carrying rectangle of `kinds`.
pub open spec fn is_last_text_rect(kinds: Seq<SubtitleKind>, i: int) -> bool {
    &&& 0 <= i < kinds.len()
    &&& carries_text(kinds[i])
    &&& forall|j: int| i < j < kinds.len() ==> !carries_text(#[trigger] kinds[j])
}

/// The text of a subtitle comes from its last text-carrying rectangle, from
/// the `ass` field for an ASS rectangle and the `text` field for a plain one,
/// whatever its index; with no such rectangle the text is empty.
pub proof fn lemma_text_source(kinds: Seq<SubtitleKind>)
    ensures
        forall|i: int| is_last_text_rect(kinds, i) ==> last_text_rect(kinds) == if kinds[i] == SubtitleKind::Ass {
            SubtitleText::Ass(i as usize)
        } else {
            SubtitleText::Plain(i as usize)
        },
        (forall|j: int| 0 <= j < kinds.len() ==> !carries_text(#[trigger] kinds[j])) ==> last_text_rect(kinds)
            == SubtitleText::Empty,
    decreases kinds.len(),
{
    if kinds.len() > 0 {
        let rest = kinds.drop_last();
        lemma_text_source(rest);
        let n = kinds.len() - 1;
        assert forall|i: int| is_last_text_rect(kinds, i) implies last_text_rect(kinds) == if kinds[i]
            == SubtitleKind::Ass {
            SubtitleText::Ass(i as usize)
        } else {
            SubtitleText::Plain(i as usize)
        } by {
            if i < n {
                assert(!carries_text(kinds[n]));
                assert forall|j: int| i < j < rest.len() implies !carries_text(#[trigger] rest[j]) by {
                    assert(rest[j] == kinds[j]);
                }
                assert(is_last_text_rect(rest, i));
            }
        }
        if forall|j: int| 0 <= j < kinds.len() ==> !carries_text(#[trigger] kinds[j]) {
            assert(!carries_text(kinds[n]));
            assert forall|j: int| 0 <= j < rest.len() implies !carries_text(#[trigger] rest[j]) by {
                assert(rest[j] == kinds[j]);
            }
        }
    }
}

/// Picks which rectangle of a decoded subtitle gives its text.
pub fn subtitle_text_source(kinds: &Vec<SubtitleKind>) -> (t: SubtitleText)
    ensures
        t == last_text_rect(kinds@),
        forall|i: int| is_last_text_rect(kinds@, i) ==> t == if kinds@[i] == SubtitleKind::Ass {
            SubtitleText::Ass(i as usize)
        } else {
            SubtitleText::Plain(i as usize)
        },
        (forall|j: int| 0 <= j < kinds@.len() ==> !carries_text(#[trigger] kinds@[j])) ==> t
            == SubtitleText::Empty,
{
    proof {
        lemma_text_source(kinds@);
    }
    let mut chosen = SubtitleText::Empty;
    let n = kinds.len();
    let mut i: usize = 0;
    while i < n
        invariant
            n == kinds@.len(),
            i <= n,
            chosen == last_text_rect(kinds@.take(i as int)),
        decreases n - i,
    {
        assert(kinds@.take(i + 1).drop_last() =~= kinds@.take(i as int));
        match kinds[i] {
            SubtitleKind::Text => {
                chosen = SubtitleText::Plain(i);
            },
            SubtitleKind::Ass => {
                chosen = SubtitleText::Ass(i);
            },
            _ => {},
        }
        i = i + 1;
    }
    assert(kinds@.take(n as int) =~= kinds@);
    chosen
}

} // verus!
