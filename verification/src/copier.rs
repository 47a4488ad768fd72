use vstd::prelude::*;

verus! {

/// The stream copier: moves every byte of `src`, in order, onto the end of
/// `dst`, and returns how many bytes were moved.
///
/// This is the byte-moving primitive shared by both transfer roles. It
/// performs no transformation: the sink ends up holding exactly its old
/// contents followed by the whole source.
pub fn copy_stream(src: &Vec<u8>, dst: &mut Vec<u8>) -> (n: usize)
    ensures
        final(dst)@ == old(dst)@ + src@,
        n == src@.len(),
{
    let mut i: usize = 0;
    while i < src.len()
        invariant
            i <= src@.len(),
            dst@ == old(dst)@ + src@.take(i as int),
        decreases src@.len() - i,
    {
        let b = src[i];
        dst.push(b);
        assert(dst@ =~= old(dst)@ + src@.take(i + 1));
        i = i + 1;
    }
    assert(dst@ =~= old(dst)@ + src@);
    src.len()
}

} // verus!
