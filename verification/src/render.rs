//! The diagnostic text of a history: the current value next to every value
//! ever appended, oldest first.

use vstd::prelude::*;

use crate::model::current_of;

verus! {

/// The characters of each entry's own text.
pub open spec fn entry_texts(entries: Seq<String>) -> Seq<Seq<char>> {
    entries.map_values(|entry: String| entry@)
}

/// The entries' texts in order, with `", "` between neighbours.
pub open spec fn comma_separated(texts: Seq<Seq<char>>) -> Seq<char>
    decreases texts.len(),
{
    if texts.len() == 0 {
        Seq::empty()
    } else if texts.len() == 1 {
        texts[0]
    } else {
        comma_separated(texts.drop_last()) + ", "@ + texts.last()
    }
}

/// How the current value reads: `None` for an empty history, otherwise the
/// newest entry's text inside `Some(..)`.
pub open spec fn current_text(texts: Seq<Seq<char>>) -> Seq<char> {
    match current_of(texts) {
        None => "None"@,
        Some(newest) => "Some("@ + newest + ")"@,
    }
}

/// The whole diagnostic text of a history whose entries read as `texts`.
pub open spec fn rendering(texts: Seq<Seq<char>>) -> Seq<char> {
    "HistoryBox { current: "@ + current_text(texts) + ", history: ["@ + comma_separated(texts)
        + "] }"@
}

/// Builds the diagnostic text of a history from the texts of its entries,
/// oldest first.
pub fn render_entries(entries: &Vec<String>) -> (text: String)
    ensures
        text@ == rendering(entry_texts(entries@)),
{
    let ghost texts = entry_texts(entries@);
    let count: usize = entries.len();
    let mut text = String::from_str("HistoryBox { current: ");
    if count == 0 {
        text.append("None");
    } else {
        text.append("Some(");
        text.append(entries[count - 1].as_str());
        text.append(")");
    }
    text.append(", history: [");
    let ghost head = text@;
    assert(head == "HistoryBox { current: "@ + current_text(texts) + ", history: ["@);
    let mut i: usize = 0;
    while i < count
        invariant
            count == entries.len(),
            texts == entry_texts(entries@),
            i <= count,
            text@ == head + comma_separated(texts.take(i as int)),
        decreases count - i,
    {
        proof {
            let before = texts.take(i as int);
            let after = texts.take(i + 1);
            assert(after.drop_last() == before);
            assert(after.last() == entries@[i as int]@);
        }
        if i > 0 {
            text.append(", ");
        }
        text.append(entries[i].as_str());
        i += 1;
    }
    assert(texts.take(count as int) == texts);
    text.append("] }");
    text
}

} // verus!
