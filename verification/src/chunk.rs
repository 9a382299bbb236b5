//! Chunks of a streamed backend answer, and what a sequence of them comes to:
//! the fragments that reach a streaming client, and the one text that a
//! non-stream client gets.

use vstd::prelude::*;

verus! {

/// One element of a chunk sequence: a fragment of text, possibly empty.
#[derive(Debug, PartialEq, Eq)]
pub struct ChatChunk {
    pub text: String,
}

impl View for ChatChunk {
    type V = Seq<char>;

    open spec fn view(&self) -> Seq<char> {
        self.text@
    }
}

impl Clone for ChatChunk {
    fn clone(&self) -> (copy: ChatChunk)
        ensures
            copy == *self,
    {
        ChatChunk { text: self.text.clone() }
    }
}

impl ChatChunk {
    /// The chunk that carries `text`.
    pub fn new(text: String) -> (chunk: ChatChunk)
        ensures
            chunk@ == text@,
    {
        ChatChunk { text }
    }

    /// The chunk for a partial backend answer, given the content of its
    /// message if it has one. An answer without a message is a chunk without
    /// text.
    pub fn from_message(content: Option<String>) -> (chunk: ChatChunk)
        ensures
            chunk@ == match content {
                Some(text) => text@,
                None => Seq::<char>::empty(),
            },
    {
        match content {
            Some(text) => ChatChunk { text },
            None => ChatChunk { text: String::new() },
        }
    }

    /// Whether the chunk carries no text.
    pub fn is_empty(&self) -> (empty: bool)
        ensures
            empty == (self@.len() == 0),
    {
        self.text.as_str().is_empty()
    }
}

/// The texts of a sequence of chunks, in the same order.
pub open spec fn texts_of(chunks: Seq<ChatChunk>) -> Seq<Seq<char>> {
    chunks.map_values(|chunk: ChatChunk| chunk@)
}

/// The test that a fragment passes when it has text.
pub open spec fn has_text() -> spec_fn(Seq<char>) -> bool {
    |text: Seq<char>| text.len() > 0
}

/// The fragments that are handed on to a streaming client: those with text,
/// in the order in which the backend gave them.
pub open spec fn forwarded(texts: Seq<Seq<char>>) -> Seq<Seq<char>> {
    texts.filter(has_text())
}

/// The text that a non-stream client gets for a chunk sequence: all the
/// fragments joined in the order in which the backend gave them.
pub open spec fn accumulated(texts: Seq<Seq<char>>) -> Seq<char> {
    texts.flatten()
}

/// One more fragment from the backend adds itself to the forwarded fragments
/// if it has text, and nothing otherwise; it always adds itself to the
/// accumulated text.
pub proof fn lemma_next_fragment(texts: Seq<Seq<char>>, next: Seq<char>)
    ensures
        forwarded(texts.push(next)) == if next.len() > 0 {
            forwarded(texts).push(next)
        } else {
            forwarded(texts)
        },
        accumulated(texts.push(next)) == accumulated(texts) + next,
{
    texts.lemma_filter_push(next, has_text());
    texts.lemma_flatten_push(next);
}

/// Order preservation: when every fragment has text, the forwarded fragments
/// are the backend's fragments, each one once and in the backend's order.
pub proof fn lemma_order_preserved(texts: Seq<Seq<char>>)
    requires
        forall|i: int| 0 <= i < texts.len() ==> texts[i].len() > 0,
    ensures
        forwarded(texts) == texts,
    decreases texts.len(),
{
    if texts.len() > 0 {
        let front = texts.drop_last();
        lemma_order_preserved(front);
        lemma_next_fragment(front, texts.last());
        assert(front.push(texts.last()) =~= texts);
    }
}

/// A fragment without text leaves no trace among the forwarded fragments, and
/// what comes before it and after it keeps its order. More generally,
/// forwarding two runs of fragments one after the other forwards each run in
/// turn, and no forwarded fragment is empty.
pub proof fn lemma_empty_fragments_vanish(before: Seq<Seq<char>>, after: Seq<Seq<char>>)
    ensures
        forwarded(before + seq![Seq::<char>::empty()] + after) == forwarded(before) + forwarded(
            after,
        ),
        forwarded(before + after) == forwarded(before) + forwarded(after),
        forall|i: int|
            0 <= i < forwarded(before).len() ==> (#[trigger] forwarded(before)[i]).len() > 0,
{
    let gap = seq![Seq::<char>::empty()];
    assert(forwarded(gap) =~= Seq::<Seq<char>>::empty()) by {
        lemma_next_fragment(Seq::<Seq<char>>::empty(), Seq::<char>::empty());
        assert(Seq::<Seq<char>>::empty().push(Seq::<char>::empty()) =~= gap);
        Seq::<Seq<char>>::empty().lemma_filter_len(has_text());
    }
}

/// Accumulation equivalence: the fragments that a streaming client is sent,
/// joined in order, are the text that a non-stream client gets for the same
/// chunk sequence.
pub proof fn lemma_accumulation_equivalence(texts: Seq<Seq<char>>)
    ensures
        accumulated(forwarded(texts)) == accumulated(texts),
    decreases texts.len(),
{
    if texts.len() > 0 {
        let front = texts.drop_last();
        let last = texts.last();
        lemma_accumulation_equivalence(front);
        lemma_next_fragment(front, last);
        assert(front.push(last) =~= texts);
        if last.len() > 0 {
            lemma_next_fragment(forwarded(front), last);
        }
    }
}

} // verus!
