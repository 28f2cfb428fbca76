//! Conversions between an ordered sequence of strings and the comma-joined
//! string that stands for it on the wire, and the comparison of strings.

use vstd::prelude::*;

verus! {

broadcast use vstd::string::group_string_axioms;

/// The elements of `parts`, each followed by a comma but the last.
pub open spec fn join_spec(parts: Seq<Seq<char>>) -> Seq<char>
    decreases parts.len(),
{
    if parts.len() == 0 {
        Seq::empty()
    } else if parts.len() == 1 {
        parts[0]
    } else {
        join_spec(parts.drop_last()) + seq![','] + parts.last()
    }
}

/// The pieces between the commas of `text`, of which there is always one more
/// than there are commas.
pub open spec fn pieces_spec(text: Seq<char>) -> Seq<Seq<char>>
    decreases text.len(),
{
    if text.len() == 0 {
        seq![Seq::empty()]
    } else {
        let before = pieces_spec(text.drop_last());
        if text.last() == ',' {
            before.push(Seq::empty())
        } else {
            before.drop_last().push(before.last().push(text.last()))
        }
    }
}

/// What a wire string stands for: nothing at all when it is empty, else its
/// pieces.
pub open spec fn split_spec(text: Seq<char>) -> Seq<Seq<char>> {
    if text.len() == 0 {
        Seq::empty()
    } else {
        pieces_spec(text)
    }
}

/// Whether `text` holds no comma.
pub open spec fn comma_free(text: Seq<char>) -> bool {
    forall|i: int| 0 <= i < text.len() ==> text[i] != ','
}

/// Whether every element of `parts` is free of commas.
pub open spec fn all_comma_free(parts: Seq<Seq<char>>) -> bool {
    forall|i: int| 0 <= i < parts.len() ==> comma_free(#[trigger] parts[i])
}

/// Joins `parts` with commas. An empty sequence gives the empty string.
pub fn comma_join(parts: &[String]) -> (text: String)
    ensures
        text@ == join_spec(parts.deep_view()),
{
    let mut text = String::new();
    let mut i: usize = 0;
    while i < parts.len()
        invariant
            i <= parts.len(),
            text@ == join_spec(parts.deep_view().take(i as int)),
        decreases parts.len() - i,
    {
        assert(parts.deep_view().take(i + 1).drop_last() =~= parts.deep_view().take(i as int));
        if i > 0 {
            text.push(',');
        }
        text.append(parts[i].as_str());
        i += 1;
    }
    assert(parts.deep_view().take(i as int) =~= parts.deep_view());
    text
}

/// Splits `text` at its commas. The empty string gives the empty sequence,
/// not a sequence that holds one empty string.
pub fn comma_split(text: &str) -> (parts: Vec<String>)
    ensures
        parts.deep_view() == split_spec(text@),
{
    let mut parts: Vec<String> = Vec::new();
    if text.is_empty() {
        return parts;
    }
    let mut current = String::new();
    for c in it: text.chars()
        invariant
            it.seq() == text@,
            parts.deep_view().push(current@) == pieces_spec(text@.take(it.index())),
    {
        assert(text@.take(it.index() + 1).drop_last() =~= text@.take(it.index()));
        if c == ',' {
            parts.push(current);
            current = String::new();
        } else {
            current.push(c);
        }
    }
    assert(text@.take(text@.len() as int) =~= text@);
    parts.push(current);
    parts
}

/// Whether two strings hold the same characters.
pub fn text_eq(a: &str, b: &str) -> (same: bool)
    ensures
        same == (a@ == b@),
{
    let x = a.as_bytes();
    let y = b.as_bytes();
    proof {
        vstd::utf8::encode_utf8_decode_utf8(a@);
        vstd::utf8::encode_utf8_decode_utf8(b@);
    }
    if x.len() != y.len() {
        return false;
    }
    let mut i: usize = 0;
    while i < x.len()
        invariant
            i <= x.len(),
            x.len() == y.len(),
            x@ == vstd::utf8::encode_utf8(a@),
            y@ == vstd::utf8::encode_utf8(b@),
            forall|j: int| 0 <= j < i ==> x@[j] == y@[j],
        decreases x.len() - i,
    {
        if x[i] != y[i] {
            return false;
        }
        i += 1;
    }
    assert(x@ =~= y@);
    true
}

/// A string has at least one piece.
proof fn lemma_pieces_nonempty(text: Seq<char>)
    ensures
        pieces_spec(text).len() >= 1,
    decreases text.len(),
{
    if text.len() > 0 {
        lemma_pieces_nonempty(text.drop_last());
    }
}

/// Text without a comma, put behind `head`, only lengthens the last piece.
proof fn lemma_pieces_extend(head: Seq<char>, tail: Seq<char>)
    requires
        comma_free(tail),
    ensures
        pieces_spec(head).len() >= 1,
        pieces_spec(head + tail) == pieces_spec(head).drop_last().push(
            pieces_spec(head).last() + tail,
        ),
    decreases tail.len(),
{
    lemma_pieces_nonempty(head);
    if tail.len() > 0 {
        let shorter = tail.drop_last();
        lemma_pieces_extend(head, shorter);
        assert((head + tail).drop_last() =~= head + shorter);
        assert(pieces_spec(head + shorter).last().push(tail.last()) =~= pieces_spec(
            head,
        ).last() + tail);
    }
}

/// Putting text behind the last element of `parts` puts it behind their
/// joined form.
proof fn lemma_join_extend(parts: Seq<Seq<char>>, tail: Seq<char>)
    requires
        parts.len() >= 1,
    ensures
        join_spec(parts.drop_last().push(parts.last() + tail)) == join_spec(parts) + tail,
{
    let longer = parts.drop_last().push(parts.last() + tail);
    assert(longer.drop_last() =~= parts.drop_last());
}

/// The pieces of the joined form of comma-free strings are those strings.
proof fn lemma_pieces_of_join(parts: Seq<Seq<char>>)
    requires
        parts.len() >= 1,
        all_comma_free(parts),
    ensures
        pieces_spec(join_spec(parts)) == parts,
    decreases parts.len(),
{
    if parts.len() == 1 {
        lemma_pieces_extend(Seq::empty(), parts[0]);
    } else {
        let init = parts.drop_last();
        lemma_pieces_of_join(init);
        let head = join_spec(init) + seq![','];
        assert(head.drop_last() =~= join_spec(init));
        lemma_pieces_extend(head, parts.last());
    }
}

/// No piece holds a comma.
proof fn lemma_pieces_comma_free(text: Seq<char>)
    ensures
        all_comma_free(pieces_spec(text)),
    decreases text.len(),
{
    if text.len() > 0 {
        lemma_pieces_comma_free(text.drop_last());
        lemma_pieces_nonempty(text.drop_last());
    }
}

/// A string is the joined form of its pieces.
proof fn lemma_join_of_pieces(text: Seq<char>)
    ensures
        join_spec(pieces_spec(text)) == text,
    decreases text.len(),
{
    if text.len() > 0 {
        let shorter = text.drop_last();
        let before = pieces_spec(shorter);
        lemma_join_of_pieces(shorter);
        lemma_pieces_nonempty(shorter);
        if text.last() == ',' {
            assert(before.push(Seq::empty()).drop_last() =~= before);
        } else {
            lemma_join_extend(before, seq![text.last()]);
            assert(before.last().push(text.last()) =~= before.last() + seq![text.last()]);
        }
    }
}

/// Splitting undoes joining: a sequence of comma-free strings comes back
/// from its joined form as it was. The one sequence left out is the one that
/// holds a single empty string: it joins to the empty string, which stands
/// for the empty sequence.
pub proof fn lemma_split_of_join(parts: Seq<Seq<char>>)
    requires
        all_comma_free(parts),
        !(parts.len() == 1 && parts[0].len() == 0),
    ensures
        split_spec(join_spec(parts)) == parts,
{
    if parts.len() > 0 {
        lemma_pieces_of_join(parts);
    }
}

/// Joining undoes splitting: every string is the joined form of what it
/// splits into, and none of those pieces holds a comma.
pub proof fn lemma_join_of_split(text: Seq<char>)
    ensures
        join_spec(split_spec(text)) == text,
        all_comma_free(split_spec(text)),
        text.len() == 0 <==> split_spec(text).len() == 0,
{
    lemma_join_of_pieces(text);
    lemma_pieces_comma_free(text);
    lemma_pieces_nonempty(text);
}

} // verus!
