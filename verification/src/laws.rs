use vstd::prelude::*;

verus! {

/// Read/write coherence. Writing value `v` at sample index `i` of channel
/// `c` — which, by the writer accessor's contract, turns the buffer's
/// abstract value `channels` into `channels.update(c, channels[c].update(i, v))`
/// — makes a subsequent read of channel `c` see `v` at index `i`, the old
/// samples at every other index of that channel, and every other channel
/// unchanged. No sample is duplicated or copied anywhere else.
pub proof fn lemma_write_read_coherence<T>(channels: Seq<Seq<T>>, c: int, i: int, v: T)
    requires
        0 <= c < channels.len(),
        0 <= i < channels[c].len(),
    ensures
        channels.update(c, channels[c].update(i, v))[c][i] == v,
        forall|j: int| 0 <= j < channels[c].len() && j != i
            ==> channels.update(c, channels[c].update(i, v))[c][j] == channels[c][j],
        forall|d: int| 0 <= d < channels.len() && d != c
            ==> channels.update(c, channels[c].update(i, v))[d] == channels[d],
{
}

/// Growing a buffer whose channels are all empty — which, by the growth
/// contract, appends `n` samples equal to `zero` to every channel — leaves
/// every channel holding exactly `n` samples, all equal to `zero`.
pub proof fn lemma_growth_of_empty_is_all_zero<T>(
    before: Seq<Seq<T>>,
    after: Seq<Seq<T>>,
    n: nat,
    zero: T,
)
    requires
        forall|c: int| 0 <= c < before.len() ==> (#[trigger] before[c]).len() == 0,
        after.len() == before.len(),
        forall|c: int| 0 <= c < before.len()
            ==> #[trigger] after[c] == before[c] + Seq::new(n, |j: int| zero),
    ensures
        forall|c: int| 0 <= c < after.len() ==> (#[trigger] after[c]).len() == n,
        forall|c: int, i: int| 0 <= c < after.len() && 0 <= i < n
            ==> #[trigger] after[c][i] == zero,
{
}

} // verus!
