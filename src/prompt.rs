//! Splitting a user's text into a positive and a negative prompt.
//!
//! The text is cut at every comma. Each fragment is trimmed; one that then
//! starts with `-` goes, without that dash, to the negative prompt, and every
//! other one to the positive prompt. Each accumulator collects its parts as
//! `part, part, ...`; at the end it is trimmed and stripped of commas at both
//! ends.
use vstd::prelude::*;
use vstd::seq_lib::*;
use crate::text::{
    chars_of, comma, push_from, string_of, strip_chars, strip_ends, trim, white,
};

verus! {

broadcast use group_to_multiset_ensures;

/// The pieces of `s` between commas, from left to right; there is always at
/// least one, possibly empty.
pub open spec fn split_commas(s: Seq<char>) -> Seq<Seq<char>>
    decreases s.len(),
{
    if s.len() == 0 {
        seq![Seq::<char>::empty()]
    } else {
        let rest = split_commas(s.drop_last());
        if s.last() == ',' {
            rest.push(Seq::<char>::empty())
        } else {
            rest.update(rest.len() - 1, rest.last().push(s.last()))
        }
    }
}

/// A trimmed fragment that marks a negative part.
pub open spec fn is_negative(t: Seq<char>) -> bool {
    t.len() > 0 && t[0] == '-'
}

/// The trimmed fragments that are not negative, in order.
pub open spec fn positive_parts(frags: Seq<Seq<char>>) -> Seq<Seq<char>>
    decreases frags.len(),
{
    if frags.len() == 0 {
        Seq::empty()
    } else {
        let t = trim(frags.last());
        let prev = positive_parts(frags.drop_last());
        if is_negative(t) {
            prev
        } else {
            prev.push(t)
        }
    }
}

/// The trimmed negative fragments without their dash, in order.
pub open spec fn negative_parts(frags: Seq<Seq<char>>) -> Seq<Seq<char>>
    decreases frags.len(),
{
    if frags.len() == 0 {
        Seq::empty()
    } else {
        let t = trim(frags.last());
        let prev = negative_parts(frags.drop_last());
        if is_negative(t) {
            prev.push(t.drop_first())
        } else {
            prev
        }
    }
}

pub open spec fn separator() -> Seq<char> {
    seq![',', ' ']
}

/// Each part followed by `", "`.
pub open spec fn joined(parts: Seq<Seq<char>>) -> Seq<char>
    decreases parts.len(),
{
    if parts.len() == 0 {
        Seq::empty()
    } else {
        joined(parts.drop_last()) + parts.last() + separator()
    }
}

/// An accumulator made ready for use: trimmed, then stripped of commas at
/// both ends.
pub open spec fn finish(acc: Seq<char>) -> Seq<char> {
    strip_ends(trim(acc), comma())
}

pub open spec fn positive_prompt(text: Seq<char>) -> Seq<char> {
    finish(joined(positive_parts(split_commas(text))))
}

pub open spec fn negative_prompt(text: Seq<char>) -> Seq<char> {
    finish(joined(negative_parts(split_commas(text))))
}

pub open spec fn with_dash(t: Seq<char>) -> Seq<char> {
    seq!['-'] + t
}

/// Nothing is lost or invented in the split: the positive parts, together
/// with the negative parts with their dash put back, are exactly the trimmed
/// comma-separated fragments of `text`, counted with multiplicity.
pub proof fn lemma_prompt_partition(text: Seq<char>)
    ensures
        positive_parts(split_commas(text)).to_multiset().add(
            negative_parts(split_commas(text)).map_values(|t: Seq<char>| with_dash(t)).to_multiset(),
        ) == split_commas(text).map_values(|f: Seq<char>| trim(f)).to_multiset(),
{
    lemma_parts_partition_fragments(split_commas(text));
}

proof fn lemma_parts_partition_fragments(frags: Seq<Seq<char>>)
    ensures
        positive_parts(frags).to_multiset().add(
            negative_parts(frags).map_values(|t: Seq<char>| with_dash(t)).to_multiset(),
        ) == frags.map_values(|f: Seq<char>| trim(f)).to_multiset(),
    decreases frags.len(),
{
    let dash = |t: Seq<char>| with_dash(t);
    let tr = |f: Seq<char>| trim(f);
    if frags.len() == 0 {
        assert(frags.map_values(tr) =~= Seq::<Seq<char>>::empty());
        assert(negative_parts(frags).map_values(dash) =~= Seq::<Seq<char>>::empty());
        assert(positive_parts(frags).to_multiset().add(
            negative_parts(frags).map_values(dash).to_multiset(),
        ) =~= frags.map_values(tr).to_multiset());
    } else {
        let prev = frags.drop_last();
        lemma_parts_partition_fragments(prev);
        let t = trim(frags.last());
        assert(frags.map_values(tr) =~= prev.map_values(tr).push(t));
        if is_negative(t) {
            let np = negative_parts(prev);
            assert(negative_parts(frags).map_values(dash) =~= np.map_values(dash).push(
                with_dash(t.drop_first()),
            ));
            assert(with_dash(t.drop_first()) =~= t);
            assert(positive_parts(frags).to_multiset().add(
                negative_parts(frags).map_values(dash).to_multiset(),
            ) =~= frags.map_values(tr).to_multiset());
        } else {
            assert(negative_parts(frags) == negative_parts(prev));
            assert(positive_parts(frags).to_multiset().add(
                negative_parts(frags).map_values(dash).to_multiset(),
            ) =~= frags.map_values(tr).to_multiset());
        }
    }
}

/// Splits `text` into its positive and its negative prompt.
pub fn split_prompt(text: &str) -> (r: (String, String))
    ensures
        r.0@ == positive_prompt(text@),
        r.1@ == negative_prompt(text@),
{
    let chars = chars_of(text);
    let n = chars.len();
    let mut pos: Vec<char> = Vec::new();
    let mut neg: Vec<char> = Vec::new();
    let mut cur: Vec<char> = Vec::new();
    let ghost mut done: Seq<Seq<char>> = Seq::empty();
    let mut i: usize = 0;
    while i < n
        invariant
            n == chars@.len(),
            chars@ == text@,
            i <= n,
            split_commas(chars@.take(i as int)) == done.push(cur@),
            pos@ == joined(positive_parts(done)),
            neg@ == joined(negative_parts(done)),
        decreases n - i,
    {
        let c = chars[i];
        proof {
            assert(chars@.take(i + 1).drop_last() =~= chars@.take(i as int));
        }
        if c == ',' {
            add_fragment(&mut pos, &mut neg, &cur, Ghost(done));
            proof {
                done = done.push(cur@);
            }
            cur = Vec::new();
            proof {
                assert(split_commas(chars@.take(i + 1)) =~= done.push(cur@));
            }
        } else {
            cur.push(c);
            proof {
                assert(split_commas(chars@.take(i + 1)) =~= done.push(cur@));
            }
        }
        i = i + 1;
    }
    add_fragment(&mut pos, &mut neg, &cur, Ghost(done));
    proof {
        assert(chars@.take(n as int) =~= text@);
        assert(done.push(cur@).drop_last() =~= done);
    }
    let p = strip_chars(&strip_chars(&pos, false), true);
    let q = strip_chars(&strip_chars(&neg, false), true);
    (string_of(&p), string_of(&q))
}

/// Adds one fragment to the accumulators.
fn add_fragment(pos: &mut Vec<char>, neg: &mut Vec<char>, frag: &Vec<char>, Ghost(done): Ghost<Seq<Seq<char>>>)
    requires
        old(pos)@ == joined(positive_parts(done)),
        old(neg)@ == joined(negative_parts(done)),
    ensures
        final(pos)@ == joined(positive_parts(done.push(frag@))),
        final(neg)@ == joined(negative_parts(done.push(frag@))),
{
    let t = strip_chars(frag, false);
    proof {
        assert(done.push(frag@).drop_last() =~= done);
    }
    if t.len() > 0 && t[0] == '-' {
        push_from(neg, &t, 1);
        neg.push(',');
        neg.push(' ');
        proof {
            assert(t@.skip(1) =~= t@.drop_first());
            let np = negative_parts(done);
            assert(negative_parts(done.push(frag@)) == np.push(t@.drop_first()));
            assert(np.push(t@.drop_first()).drop_last() =~= np);
            assert(neg@ =~= joined(negative_parts(done.push(frag@))));
            assert(positive_parts(done.push(frag@)) == positive_parts(done));
        }
    } else {
        push_from(pos, &t, 0);
        pos.push(',');
        pos.push(' ');
        proof {
            assert(t@.skip(0) =~= t@);
            let pp = positive_parts(done);
            assert(positive_parts(done.push(frag@)) == pp.push(t@));
            assert(pp.push(t@).drop_last() =~= pp);
            assert(pos@ =~= joined(positive_parts(done.push(frag@))));
            assert(negative_parts(done.push(frag@)) == negative_parts(done));
        }
    }
}

} // verus!
