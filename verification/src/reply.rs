use vstd::prelude::*;

verus! {

/// One content segment of a message the assistant wrote: either a piece
/// of text or content of some other kind, which contributes nothing to
/// the reply.
#[derive(Clone, Debug, PartialEq, Eq)]
pub enum ContentPart {
    Text(String),
    Other,
}

/// What one segment contributes to the reply.
pub open spec fn part_text(p: ContentPart) -> Seq<char> {
    match p {
        ContentPart::Text(t) => t@,
        ContentPart::Other => Seq::empty(),
    }
}

/// The reply a list of segments stands for: every text segment, in the
/// order given, and nothing else.
pub open spec fn concat_text(parts: Seq<ContentPart>) -> Seq<char>
    decreases parts.len(),
{
    if parts.len() == 0 {
        Seq::empty()
    } else {
        part_text(parts[0]) + concat_text(parts.drop_first())
    }
}

proof fn lemma_concat_snoc(parts: Seq<ContentPart>, p: ContentPart)
    ensures
        concat_text(parts.push(p)) =~= concat_text(parts) + part_text(p),
    decreases parts.len(),
{
    if parts.len() == 0 {
        assert(parts.push(p).drop_first() =~= Seq::empty());
        assert(part_text(p) + concat_text(Seq::<ContentPart>::empty()) =~= part_text(p));
        assert(concat_text(parts) + part_text(p) =~= part_text(p));
    } else {
        assert(parts.push(p).drop_first() =~= parts.drop_first().push(p));
        lemma_concat_snoc(parts.drop_first(), p);
        assert(part_text(parts.push(p)[0]) + (concat_text(parts.drop_first()) + part_text(p)) =~= (
        part_text(parts[0]) + concat_text(parts.drop_first())) + part_text(p));
    }
}

/// Segments none of which is text stand for the empty reply.
pub proof fn lemma_no_text_means_empty_reply(parts: Seq<ContentPart>)
    requires
        forall|j: int| 0 <= j < parts.len() ==> !(parts[j] is Text),
    ensures
        concat_text(parts).len() == 0,
    decreases parts.len(),
{
    if parts.len() > 0 {
        assert(forall|j: int|
            0 <= j < parts.drop_first().len() ==> parts.drop_first()[j] == parts[j + 1]);
        lemma_no_text_means_empty_reply(parts.drop_first());
    }
}

/// Build the reply text for a completed run from the content segments of
/// the thread's most recent message: the ordered concatenation of the
/// text segments, with every other kind of segment dropped. A message
/// with no text segment yields the empty string.
pub fn reply_text(parts: &Vec<ContentPart>) -> (r: String)
    ensures
        r@ == concat_text(parts@),
{
    let mut r = String::new();
    let mut i: usize = 0;
    while i < parts.len()
        invariant
            i <= parts@.len(),
            r@ == concat_text(parts@.take(i as int)),
        decreases parts@.len() - i,
    {
        proof {
            assert(parts@.take(i + 1) =~= parts@.take(i as int).push(parts@[i as int]));
            lemma_concat_snoc(parts@.take(i as int), parts@[i as int]);
        }
        match &parts[i] {
            ContentPart::Text(t) => {
                r.append(t.as_str());
            },
            ContentPart::Other => {
                proof {
                    assert(concat_text(parts@.take(i as int)) + Seq::<char>::empty()
                        =~= concat_text(parts@.take(i as int)));
                }
            },
        }
        i = i + 1;
    }
    proof {
        assert(parts@.take(parts@.len() as int) =~= parts@);
    }
    r
}

} // verus!
