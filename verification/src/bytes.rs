use vstd::prelude::*;

verus! {

/// Copies a byte vector element by element.
pub(crate) fn copy_bytes(src: &Vec<u8>) -> (out: Vec<u8>)
    ensures
        out@ == src@,
{
    let mut out: Vec<u8> = Vec::new();
    let mut i: usize = 0;
    while i < src.len()
        invariant
            i <= src.len(),
            out.len() == i,
            forall|j: int| 0 <= j < i ==> out@[j] == src@[j],
        decreases src.len() - i,
    {
        out.push(src[i]);
        i = i + 1;
    }
    proof {
        assert(out@ =~= src@);
    }
    out
}

} // verus!
