//! Turning the change between two renderings of the transcript into key
//! presses: backspaces over what changed, then the new text.
use vstd::prelude::*;

use crate::text::{chars_of, slice_to_vec, string_of};

verus! {

/// Backspace `backspaces` characters, then type `insertion`.
#[derive(Clone, Debug, PartialEq, Eq)]
pub struct TextPatch {
    pub backspaces: usize,
    pub insertion: String,
}

/// The length of the longest common prefix of `a` and `b`.
pub open spec fn common_prefix_len(a: Seq<char>, b: Seq<char>) -> nat
    decreases a.len(),
{
    if a.len() == 0 || b.len() == 0 || a[0] != b[0] {
        0
    } else {
        1 + common_prefix_len(a.drop_first(), b.drop_first())
    }
}

/// The common prefix really is common, and no longer one is.
pub proof fn lemma_common_prefix(a: Seq<char>, b: Seq<char>)
    ensures
        common_prefix_len(a, b) <= a.len(),
        common_prefix_len(a, b) <= b.len(),
        a.take(common_prefix_len(a, b) as int) == b.take(common_prefix_len(a, b) as int),
        common_prefix_len(a, b) < a.len() && common_prefix_len(a, b) < b.len() ==> a[common_prefix_len(a, b) as int]
            != b[common_prefix_len(a, b) as int],
    decreases a.len(),
{
    let k = common_prefix_len(a, b);
    if a.len() == 0 || b.len() == 0 || a[0] != b[0] {
        assert(a.take(0) =~= b.take(0));
    } else {
        lemma_common_prefix(a.drop_first(), b.drop_first());
        let k1 = common_prefix_len(a.drop_first(), b.drop_first());
        assert(a.take(k as int) =~= seq![a[0]] + a.drop_first().take(k1 as int));
        assert(b.take(k as int) =~= seq![b[0]] + b.drop_first().take(k1 as int));
        if k < a.len() && k < b.len() {
            assert(a[k as int] == a.drop_first()[k1 as int]);
            assert(b[k as int] == b.drop_first()[k1 as int]);
        }
    }
}

/// The text that results from applying `patch` to `previous`.
pub open spec fn apply_patch(previous: Seq<char>, backspaces: nat, insertion: Seq<char>) -> Seq<
    char,
> {
    previous.take(previous.len() - backspaces) + insertion
}

/// The patch that turns `previous` into `next`: delete what follows their
/// common prefix, type what follows it in `next`.
pub fn diff_patch(previous: &str, next: &str) -> (r: TextPatch)
    ensures
        r.backspaces == previous@.len() - common_prefix_len(previous@, next@),
        r.insertion@ == next@.skip(common_prefix_len(previous@, next@) as int),
{
    let p = chars_of(previous);
    let n = chars_of(next);
    let mut k: usize = 0;
    assert(p@.skip(0) =~= p@);
    assert(n@.skip(0) =~= n@);
    while k < p.len() && k < n.len() && p[k] == n[k]
        invariant
            k <= p@.len(),
            k <= n@.len(),
            p@ == previous@,
            n@ == next@,
            common_prefix_len(p@, n@) == k + common_prefix_len(p@.skip(k as int), n@.skip(k as int)),
        decreases p@.len() - k,
    {
        assert(p@.skip(k as int).drop_first() =~= p@.skip(k + 1));
        assert(n@.skip(k as int).drop_first() =~= n@.skip(k + 1));
        k = k + 1;
    }
    proof {
        assert(p@.skip(0) =~= p@);
        assert(n@.skip(0) =~= n@);
        if k < p@.len() && k < n@.len() {
            assert(p@.skip(k as int)[0] == p@[k as int]);
            assert(n@.skip(k as int)[0] == n@[k as int]);
        }
    }
    let rest = slice_to_vec(&n, k, n.len());
    assert(rest@ =~= n@.skip(k as int));
    TextPatch { backspaces: p.len() - k, insertion: string_of(&rest) }
}

/// Applying the patch that `diff_patch` computes to the earlier text gives
/// exactly the later text.
pub proof fn law_diff_patch_applies(previous: Seq<char>, next: Seq<char>)
    ensures
        apply_patch(
            previous,
            (previous.len() - common_prefix_len(previous, next)) as nat,
            next.skip(common_prefix_len(previous, next) as int),
        ) == next,
{
    lemma_common_prefix(previous, next);
    let k = common_prefix_len(previous, next) as int;
    assert(next =~= next.take(k) + next.skip(k));
}

/// The patch deletes nothing that both texts share: the characters kept are
/// the longest common prefix.
pub proof fn law_diff_patch_minimal(previous: Seq<char>, next: Seq<char>)
    ensures
        ({
            let k = common_prefix_len(previous, next);
            &&& previous.take(k as int) == next.take(k as int)
            &&& (k < previous.len() && k < next.len() ==> previous[k as int] != next[k as int])
        }),
{
    lemma_common_prefix(previous, next);
}

} // verus!
