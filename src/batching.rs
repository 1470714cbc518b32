//! Splitting embedding inputs into provider-sized batches that keep their order.
use vstd::prelude::*;

verus! {

/// Sum of `tokens[start..end]`.
pub open spec fn span_tokens(tokens: Seq<usize>, start: int, end: int) -> nat
    decreases end - start,
{
    if end <= start {
        0
    } else {
        span_tokens(tokens, start, end - 1) + tokens[end - 1] as nat
    }
}

/// `batches` cut `0..n` into consecutive non-empty ranges, in order.
pub open spec fn covers_in_order(batches: Seq<(usize, usize)>, n: nat) -> bool {
    &&& (batches.len() == 0 <==> n == 0)
    &&& batches.len() > 0 ==> batches[0].0 == 0 && batches.last().1 == n
    &&& forall|k: int| 0 <= k < batches.len() ==> #[trigger] batches[k].0 < batches[k].1
    &&& forall|k: int| 0 < k < batches.len() ==> #[trigger] batches[k].0 == batches[k - 1].1
}

/// Each batch holds at most `max_items` inputs and at most `max_tokens` tokens,
/// unless it is a single input that alone exceeds the token limit.
pub open spec fn within_limits(
    batches: Seq<(usize, usize)>,
    tokens: Seq<usize>,
    max_items: nat,
    max_tokens: nat,
) -> bool {
    forall|k: int|
        0 <= k < batches.len() ==> {
            &&& #[trigger] batches[k].1 - batches[k].0 <= max_items
            &&& (span_tokens(tokens, batches[k].0 as int, batches[k].1 as int) <= max_tokens
                || batches[k].1 - batches[k].0 == 1)
        }
}

proof fn lemma_span_step(tokens: Seq<usize>, start: int, end: int)
    requires
        start <= end,
    ensures
        span_tokens(tokens, start, end + 1) == span_tokens(tokens, start, end) + tokens[end] as nat,
{
}

/// Plans the batches for inputs of the given token counts, greedily filling
/// each batch in input order.
pub fn plan_batches(tokens: &Vec<usize>, max_items: usize, max_tokens: usize) -> (r: Vec<(usize, usize)>)
    requires
        max_items > 0,
    ensures
        covers_in_order(r@, tokens.len() as nat),
        within_limits(r@, tokens@, max_items as nat, max_tokens as nat),
{
    let n = tokens.len();
    let mut batches: Vec<(usize, usize)> = Vec::new();
    if n == 0 {
        return batches;
    }
    let mut start: usize = 0;
    let mut used: usize = tokens[0];
    let mut i: usize = 1;
    proof {
        lemma_span_step(tokens@, 0, 0);
    }
    while i < n
        invariant
            n == tokens.len(),
            max_items > 0,
            0 <= start < i <= n,
            used as nat == span_tokens(tokens@, start as int, i as int),
            i - start <= max_items,
            used <= max_tokens || i - start == 1,
            batches@.len() == 0 <==> start == 0,
            batches@.len() > 0 ==> batches@[0].0 == 0 && batches@.last().1 == start,
            forall|k: int| 0 <= k < batches@.len() ==> #[trigger] batches@[k].0 < batches@[k].1,
            forall|k: int| 0 < k < batches@.len() ==> #[trigger] batches@[k].0 == batches@[k - 1].1,
            within_limits(batches@, tokens@, max_items as nat, max_tokens as nat),
        decreases n - i,
    {
        proof {
            lemma_span_step(tokens@, start as int, i as int);
        }
        let t = tokens[i];
        if i - start < max_items && used <= max_tokens && t <= max_tokens - used {
            used = used + t;
        } else {
            batches.push((start, i));
            proof {
                assert(span_tokens(tokens@, i as int, i as int + 1) == tokens@[i as int] as nat) by {
                    lemma_span_step(tokens@, i as int, i as int);
                }
            }
            start = i;
            used = t;
        }
        i = i + 1;
    }
    batches.push((start, n));
    batches
}

} // verus!
