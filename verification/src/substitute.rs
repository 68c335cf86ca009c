//! Literal substring substitution over byte sequences: the single templating
//! operation this library needs, with its mathematical model and proofs.

use vstd::prelude::*;

verus! {

/// The result of scanning `text` left to right and replacing each
/// non-overlapping occurrence of `needle` with `repl`.
pub open spec fn replace_all(text: Seq<u8>, needle: Seq<u8>, repl: Seq<u8>) -> Seq<u8>
    decreases text.len(),
{
    if needle.len() == 0 || text.len() < needle.len() {
        text
    } else if text.subrange(0, needle.len() as int) == needle {
        repl + replace_all(text.subrange(needle.len() as int, text.len() as int), needle, repl)
    } else {
        seq![text[0]] + replace_all(text.subrange(1, text.len() as int), needle, repl)
    }
}

/// `needle` occurs somewhere in `hay`.
pub open spec fn contains_seq(hay: Seq<u8>, needle: Seq<u8>) -> bool {
    exists|i: int|
        0 <= i && i + needle.len() <= hay.len() && #[trigger] hay.subrange(
            i,
            i + needle.len(),
        ) == needle
}

/// An occurrence at a known position witnesses containment.
pub proof fn lemma_contains_at(hay: Seq<u8>, needle: Seq<u8>, i: int)
    requires
        0 <= i,
        i + needle.len() <= hay.len(),
        hay.subrange(i, i + needle.len()) == needle,
    ensures
        contains_seq(hay, needle),
{
}

/// A sequence contains its own prefix: in particular, `a + b` contains `a`.
pub proof fn lemma_concat_contains_left(a: Seq<u8>, b: Seq<u8>)
    ensures
        contains_seq(a + b, a),
{
    assert((a + b).subrange(0, a.len() as int) =~= a);
    lemma_contains_at(a + b, a, 0);
}

/// Whatever occurs in `b` occurs in `a + b`.
pub proof fn lemma_concat_contains_right(a: Seq<u8>, b: Seq<u8>, x: Seq<u8>)
    requires
        contains_seq(b, x),
    ensures
        contains_seq(a + b, x),
{
    let i = choose|i: int|
        0 <= i && i + x.len() <= b.len() && #[trigger] b.subrange(i, i + x.len()) == x;
    assert((a + b).subrange(a.len() + i, a.len() + i + x.len()) =~= b.subrange(i, i + x.len()));
    lemma_contains_at(a + b, x, a.len() + i);
}

/// Containment is transitive.
pub proof fn lemma_contains_trans(a: Seq<u8>, b: Seq<u8>, c: Seq<u8>)
    requires
        contains_seq(a, b),
        contains_seq(b, c),
    ensures
        contains_seq(a, c),
{
    let i = choose|i: int|
        0 <= i && i + b.len() <= a.len() && #[trigger] a.subrange(i, i + b.len()) == b;
    let j = choose|j: int|
        0 <= j && j + c.len() <= b.len() && #[trigger] b.subrange(j, j + c.len()) == c;
    assert(a.subrange(i + j, i + j + c.len()) =~= a.subrange(i, i + b.len()).subrange(
        j,
        j + c.len(),
    ));
    lemma_contains_at(a, c, i + j);
}

/// Where the needle occurs in the text, the replacement occurs in the
/// substituted text.
pub proof fn lemma_replace_contains(text: Seq<u8>, needle: Seq<u8>, repl: Seq<u8>)
    requires
        needle.len() > 0,
        contains_seq(text, needle),
    ensures
        contains_seq(replace_all(text, needle, repl), repl),
    decreases text.len(),
{
    let res = replace_all(text, needle, repl);
    let i = choose|i: int|
        0 <= i && i + needle.len() <= text.len() && #[trigger] text.subrange(
            i,
            i + needle.len(),
        ) == needle;
    assert(text.len() >= needle.len());
    if text.subrange(0, needle.len() as int) == needle {
        let rest = replace_all(
            text.subrange(needle.len() as int, text.len() as int),
            needle,
            repl,
        );
        assert(res == repl + rest);
        lemma_concat_contains_left(repl, rest);
    } else {
        assert(i >= 1) by {
            if i == 0 {
                assert(text.subrange(0, needle.len() as int) == needle);
            }
        }
        let tail = text.subrange(1, text.len() as int);
        assert(tail.subrange(i - 1, i - 1 + needle.len()) =~= text.subrange(i, i + needle.len()));
        lemma_contains_at(tail, needle, i - 1);
        lemma_replace_contains(tail, needle, repl);
        assert(res == seq![text[0]] + replace_all(tail, needle, repl));
        lemma_concat_contains_right(seq![text[0]], replace_all(tail, needle, repl), repl);
    }
}

/// Whether `needle` occurs in `text` at position `i`.
fn matches_at(text: &Vec<u8>, needle: &Vec<u8>, i: usize) -> (r: bool)
    requires
        i <= text@.len(),
    ensures
        r == (i + needle@.len() <= text@.len() && text@.subrange(
            i as int,
            i + needle@.len(),
        ) == needle@),
{
    if needle.len() > text.len() - i {
        return false;
    }
    let mut j: usize = 0;
    while j < needle.len()
        invariant
            i + needle@.len() <= text@.len(),
            text@.len() <= usize::MAX,
            j <= needle@.len(),
            forall|k: int| 0 <= k < j ==> text@[i + k] == needle@[k],
        decreases needle@.len() - j,
    {
        proof {
            assert(i + j < text@.len());
        }
        if text[i + j] != needle[j] {
            proof {
                assert(text@.subrange(i as int, i + needle@.len())[j as int] == text@[i + j]);
            }
            return false;
        }
        j += 1;
    }
    proof {
        assert(text@.subrange(i as int, i + needle@.len()) =~= needle@);
    }
    true
}

/// Appends all of `src` to `out`.
pub fn push_all(out: &mut Vec<u8>, src: &Vec<u8>)
    ensures
        final(out)@ == old(out)@ + src@,
{
    let mut j: usize = 0;
    while j < src.len()
        invariant
            j <= src@.len(),
            out@ == old(out)@ + src@.subrange(0, j as int),
        decreases src@.len() - j,
    {
        out.push(src[j]);
        proof {
            assert(old(out)@ + src@.subrange(0, j + 1) =~= (old(out)@ + src@.subrange(
                0,
                j as int,
            )).push(src@[j as int]));
        }
        j += 1;
    }
    proof {
        assert(src@.subrange(0, src@.len() as int) =~= src@);
    }
}

/// Unfolds `replace_all` at a position where `needle` occurs.
proof fn lemma_step_match(text: Seq<u8>, needle: Seq<u8>, repl: Seq<u8>, i: int)
    requires
        needle.len() > 0,
        0 <= i,
        i + needle.len() <= text.len(),
        text.subrange(i, i + needle.len()) == needle,
    ensures
        replace_all(text.subrange(i, text.len() as int), needle, repl) == repl + replace_all(
            text.subrange(i + needle.len(), text.len() as int),
            needle,
            repl,
        ),
{
    let rest = text.subrange(i, text.len() as int);
    assert(rest.subrange(0, needle.len() as int) =~= text.subrange(i, i + needle.len()));
    assert(rest.subrange(needle.len() as int, rest.len() as int) =~= text.subrange(
        i + needle.len(),
        text.len() as int,
    ));
}

/// Unfolds `replace_all` at a position where `needle` does not occur.
proof fn lemma_step_no_match(text: Seq<u8>, needle: Seq<u8>, repl: Seq<u8>, i: int)
    requires
        needle.len() > 0,
        0 <= i < text.len(),
        !(i + needle.len() <= text.len() && text.subrange(i, i + needle.len()) == needle),
    ensures
        replace_all(text.subrange(i, text.len() as int), needle, repl) == seq![text[i]]
            + replace_all(text.subrange(i + 1, text.len() as int), needle, repl),
{
    let rest = text.subrange(i, text.len() as int);
    let tail = text.subrange(i + 1, text.len() as int);
    if rest.len() < needle.len() {
        assert(replace_all(rest, needle, repl) == rest);
        assert(replace_all(tail, needle, repl) == tail);
        assert(rest =~= seq![text[i]] + tail);
    } else {
        assert(rest.subrange(0, needle.len() as int) =~= text.subrange(i, i + needle.len()));
        assert(rest.subrange(1, rest.len() as int) =~= tail);
        assert(seq![rest[0]] =~= seq![text[i]]);
    }
}

/// Replaces, left to right, every non-overlapping occurrence of `needle` in
/// `text` with `repl`.
pub fn replace_bytes(text: &Vec<u8>, needle: &Vec<u8>, repl: &Vec<u8>) -> (r: Vec<u8>)
    requires
        needle@.len() > 0,
    ensures
        r@ == replace_all(text@, needle@, repl@),
{
    let mut out: Vec<u8> = Vec::new();
    let mut i: usize = 0;
    proof {
        assert(text@.subrange(0, text@.len() as int) =~= text@);
        assert(Seq::<u8>::empty() + replace_all(text@, needle@, repl@) =~= replace_all(
            text@,
            needle@,
            repl@,
        ));
    }
    while i < text.len()
        invariant
            needle@.len() > 0,
            i <= text@.len(),
            replace_all(text@, needle@, repl@) == out@ + replace_all(
                text@.subrange(i as int, text@.len() as int),
                needle@,
                repl@,
            ),
        decreases text@.len() - i,
    {
        if matches_at(text, needle, i) {
            proof {
                lemma_step_match(text@, needle@, repl@, i as int);
                assert(out@ + (repl@ + replace_all(
                    text@.subrange(i + needle@.len(), text@.len() as int),
                    needle@,
                    repl@,
                )) =~= (out@ + repl@) + replace_all(
                    text@.subrange(i + needle@.len(), text@.len() as int),
                    needle@,
                    repl@,
                ));
            }
            push_all(&mut out, repl);
            i = i + needle.len();
        } else {
            proof {
                lemma_step_no_match(text@, needle@, repl@, i as int);
                assert(out@ + (seq![text@[i as int]] + replace_all(
                    text@.subrange(i + 1, text@.len() as int),
                    needle@,
                    repl@,
                )) =~= out@.push(text@[i as int]) + replace_all(
                    text@.subrange(i + 1, text@.len() as int),
                    needle@,
                    repl@,
                ));
            }
            let c = text[i];
            out.push(c);
            i = i + 1;
        }
    }
    proof {
        assert(text@.subrange(i as int, text@.len() as int) =~= Seq::<u8>::empty());
        assert(out@ + replace_all(Seq::<u8>::empty(), needle@, repl@) =~= out@);
    }
    out
}

} // verus!
