use vstd::prelude::*;
use vstd::string::*;
use crate::model::texts;

verus! {

/// Each item wrapped in `pre` and `post`, concatenated in order.
pub open spec fn join_each(items: Seq<Seq<char>>, pre: Seq<char>, post: Seq<char>) -> Seq<char>
    decreases items.len(),
{
    if items.len() == 0 {
        Seq::empty()
    } else {
        join_each(items.drop_last(), pre, post) + pre + items.last() + post
    }
}

/// Joining two lists joins their texts.
pub proof fn lemma_join_each_append(a: Seq<Seq<char>>, b: Seq<Seq<char>>, pre: Seq<char>, post: Seq<char>)
    ensures
        join_each(a + b, pre, post) == join_each(a, pre, post) + join_each(b, pre, post),
    decreases b.len(),
{
    if b.len() == 0 {
        assert(a + b =~= a);
        assert(join_each(a, pre, post) + join_each(b, pre, post) =~= join_each(a, pre, post));
    } else {
        lemma_join_each_append(a, b.drop_last(), pre, post);
        assert((a + b).drop_last() =~= a + b.drop_last());
        assert((a + b).last() == b.last());
        assert(join_each(a + b, pre, post) =~= join_each(a, pre, post) + join_each(b, pre, post));
    }
}

/// The text of a single item.
pub proof fn lemma_join_each_single(x: Seq<char>, pre: Seq<char>, post: Seq<char>)
    ensures
        join_each(seq![x], pre, post) == pre + x + post,
{
    assert(seq![x].drop_last() =~= Seq::<Seq<char>>::empty());
    assert(join_each(Seq::<Seq<char>>::empty(), pre, post) == Seq::<char>::empty());
    assert(Seq::<char>::empty() + pre =~= pre);
    assert(join_each(seq![x], pre, post) =~= pre + x + post);
}

/// Item `i` stands after the items before it and before the items after it.
pub proof fn lemma_join_each_at(items: Seq<Seq<char>>, pre: Seq<char>, post: Seq<char>, i: int)
    requires
        0 <= i < items.len(),
    ensures
        join_each(items, pre, post) == join_each(items.take(i), pre, post) + (pre + items[i] + post)
            + join_each(items.skip(i + 1), pre, post),
{
    let head = items.take(i);
    let mid = seq![items[i]];
    let tail = items.skip(i + 1);
    assert(items =~= head + mid + tail);
    lemma_join_each_append(head + mid, tail, pre, post);
    lemma_join_each_append(head, mid, pre, post);
    lemma_join_each_single(items[i], pre, post);
}

/// Appends every item of `items`, each wrapped in `pre` and `post`, to `out`.
pub fn append_each(out: &mut String, items: &Vec<String>, pre: &str, post: &str)
    ensures
        final(out)@ == old(out)@ + join_each(texts(items@), pre@, post@),
{
    let ghost start = out@;
    let n = items.len();
    for i in 0..n
        invariant
            n == items@.len(),
            out@ == start + join_each(texts(items@.take(i as int)), pre@, post@),
    {
        proof {
            let prev = texts(items@.take(i as int));
            let next = texts(items@.take(i + 1));
            assert(next.drop_last() =~= prev);
            assert(next.last() == items@[i as int]@);
        }
        out.append(pre);
        out.append(items[i].as_str());
        out.append(post);
        proof {
            let prev = texts(items@.take(i as int));
            let next = texts(items@.take(i + 1));
            assert(out@ =~= start + join_each(next, pre@, post@));
        }
    }
    assert(items@.take(n as int) =~= items@);
}

/// The decimal digits of `n`, most significant first.
pub open spec fn decimal(n: nat) -> Seq<char>
    decreases n,
{
    if n < 10 {
        seq!["0123456789"@[n as int]]
    } else {
        decimal(n / 10) + seq!["0123456789"@[(n % 10) as int]]
    }
}

/// Appends the decimal form of `n` to `out`.
pub fn append_decimal(out: &mut String, n: usize)
    ensures
        final(out)@ == old(out)@ + decimal(n as nat),
    decreases n,
{
    let ghost start = out@;
    if n >= 10 {
        append_decimal(out, n / 10);
    }
    let d = n % 10;
    let digits = "0123456789";
    proof {
        reveal_strlit("0123456789");
    }
    let digit = digits.substring_char(d, d + 1);
    assert(digit@ =~= seq!["0123456789"@[d as int]]);
    out.append(digit);
    assert(out@ =~= start + decimal(n as nat));
}

} // verus!
