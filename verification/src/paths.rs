use vstd::prelude::*;

verus! {

/// The path separator byte, `'/'`.
pub const SEP: u8 = 47;

/// The index of the last separator byte in `p`, or `-1` when `p` holds none.
pub open spec fn last_sep(p: Seq<u8>) -> int
    decreases p.len(),
{
    if p.len() == 0 {
        -1
    } else if p[p.len() - 1] == SEP {
        p.len() - 1
    } else {
        last_sep(p.drop_last())
    }
}

/// `last_sep` names the position of a separator, every later byte is no
/// separator, and it stays inside the sequence.
pub proof fn lemma_last_sep(p: Seq<u8>)
    ensures
        -1 <= last_sep(p) < p.len(),
        last_sep(p) >= 0 ==> p[last_sep(p)] == SEP,
        forall|j: int| last_sep(p) < j < p.len() ==> p[j] != SEP,
    decreases p.len(),
{
    if p.len() == 0 {
    } else if p[p.len() - 1] == SEP {
    } else {
        lemma_last_sep(p.drop_last());
        assert forall|j: int| last_sep(p) < j < p.len() implies p[j] != SEP by {
            if j < p.len() - 1 {
                assert(p.drop_last()[j] == p[j]);
            }
        }
    }
}

/// The parent directory of `path`: the prefix before the last `'/'`.
///
/// A path without any separator names a file in the current directory, so
/// there is no parent directory to create before writing to it.
pub fn parent_of(path: &Vec<u8>) -> (r: Option<Vec<u8>>)
    ensures
        last_sep(path@) < 0 ==> r is None,
        last_sep(path@) >= 0 ==> r is Some && r.unwrap()@ == path@.take(last_sep(path@)),
{
    proof {
        lemma_last_sep(path@);
    }
    let mut i: usize = path.len();
    while i > 0
        invariant
            i <= path@.len(),
            forall|j: int| i <= j < path@.len() ==> path@[j] != SEP,
        decreases i,
    {
        i = i - 1;
        if path[i] == SEP {
            proof {
                lemma_last_sep(path@);
                assert(last_sep(path@) == i);
            }
            let mut parent: Vec<u8> = Vec::new();
            let mut k: usize = 0;
            while k < i
                invariant
                    k <= i,
                    i < path@.len(),
                    parent@ == path@.take(k as int),
                decreases i - k,
            {
                let b = path[k];
                parent.push(b);
                assert(parent@ =~= path@.take(k + 1));
                k = k + 1;
            }
            return Some(parent);
        }
    }
    proof {
        lemma_last_sep(path@);
    }
    None
}

} // verus!
