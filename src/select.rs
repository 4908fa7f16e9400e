use vstd::prelude::*;
use crate::model::PrError;

verus! {

/// The candidates whose position is among the marked ones, in candidate order.
pub open spec fn spec_marked(candidates: Seq<String>, marked: Seq<usize>) -> Seq<String>
    decreases candidates.len(),
{
    if candidates.len() == 0 {
        Seq::empty()
    } else {
        let rest = spec_marked(candidates.drop_last(), marked);
        if marked.contains((candidates.len() - 1) as usize) {
            rest.push(candidates.last())
        } else {
            rest
        }
    }
}

/// Whether position `i` is among the marked ones.
fn is_marked(marked: &Vec<usize>, i: usize) -> (r: bool)
    ensures
        r == marked@.contains(i),
{
    let mut k: usize = 0;
    while k < marked.len()
        invariant
            k <= marked@.len(),
            forall|j: int| 0 <= j < k ==> marked@[j] != i,
        decreases marked@.len() - k,
    {
        if marked[k] == i {
            return true;
        }
        k = k + 1;
    }
    false
}

/// The outcome of one selection prompt over `candidates`: `answer` is the
/// list of positions the operator marked, or `None` when the operator
/// aborted. Positions past the end of the list mark nothing.
pub fn select(candidates: &Vec<String>, answer: &Option<Vec<usize>>) -> (r: Result<
    Vec<String>,
    PrError,
>)
    ensures
        answer is None ==> r == Err::<Vec<String>, PrError>(PrError::SelectionAborted),
        answer is Some ==> r is Ok && r->Ok_0@ == spec_marked(candidates@, answer->0@),
{
    match answer {
        None => Err(PrError::SelectionAborted),
        Some(marked) => {
            let mut chosen: Vec<String> = Vec::new();
            let mut i: usize = 0;
            while i < candidates.len()
                invariant
                    i <= candidates@.len(),
                    chosen@ == spec_marked(candidates@.subrange(0, i as int), marked@),
                decreases candidates@.len() - i,
            {
                assert(candidates@.subrange(0, i as int + 1).drop_last() =~= candidates@.subrange(
                    0,
                    i as int,
                ));
                if is_marked(marked, i) {
                    chosen.push(candidates[i].clone());
                }
                i = i + 1;
            }
            assert(candidates@.subrange(0, candidates@.len() as int) =~= candidates@);
            Ok(chosen)
        },
    }
}

/// A selection holds only candidates: each chosen name is one of the
/// candidates.
pub proof fn lemma_marked_from_candidates(candidates: Seq<String>, marked: Seq<usize>)
    ensures
        forall|i: int|
            0 <= i < spec_marked(candidates, marked).len() ==> candidates.contains(
                #[trigger] spec_marked(candidates, marked)[i],
            ),
    decreases candidates.len(),
{
    if candidates.len() > 0 {
        let prefix = candidates.drop_last();
        let rest = spec_marked(prefix, marked);
        let out = spec_marked(candidates, marked);
        lemma_marked_from_candidates(prefix, marked);
        assert forall|i: int| 0 <= i < out.len() implies candidates.contains(#[trigger] out[i]) by {
            if i < rest.len() {
                assert(out[i] == rest[i]);
                assert(prefix.contains(rest[i]));
                let j = choose|j: int| 0 <= j < prefix.len() && prefix[j] == rest[i];
                assert(candidates[j] == prefix[j]);
            } else {
                assert(out[i] == candidates[candidates.len() - 1]);
            }
        }
    }
}

} // verus!
