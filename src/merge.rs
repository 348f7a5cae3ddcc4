//! The associative merge of stored values: appended writes to one key are
//! combined by concatenation, the value already held first.
use vstd::prelude::*;

verus! {

/// The concatenation of byte strings, in order.
pub open spec fn concat_all(parts: Seq<Seq<u8>>) -> Seq<u8>
    decreases parts.len(),
{
    if parts.len() == 0 {
        Seq::empty()
    } else {
        concat_all(parts.drop_last()) + parts.last()
    }
}

/// The views of a list of byte vectors.
pub open spec fn views(parts: Seq<Vec<u8>>) -> Seq<Seq<u8>> {
    parts.map_values(|v: Vec<u8>| v@)
}

/// Appends all of `bytes` to `out`.
fn append_bytes(out: &mut Vec<u8>, bytes: &[u8])
    ensures
        final(out)@ == old(out)@ + bytes@,
{
    let mut i: usize = 0;
    while i < bytes.len()
        invariant
            i <= bytes@.len(),
            out@ == old(out)@ + bytes@.subrange(0, i as int),
        decreases bytes@.len() - i,
    {
        out.push(bytes[i]);
        i = i + 1;
        assert(out@ =~= old(out)@ + bytes@.subrange(0, i as int));
    }
    assert(bytes@.subrange(0, bytes@.len() as int) =~= bytes@);
}

/// Merges the value already held under a key (if any) with the operands
/// written since, by concatenation in that order.
pub fn concat_merge(existing: Option<&[u8]>, operands: &Vec<Vec<u8>>) -> (r: Vec<u8>)
    ensures
        r@ == match existing {
            Some(v) => v@,
            None => Seq::<u8>::empty(),
        } + concat_all(views(operands@)),
{
    let mut result: Vec<u8> = Vec::new();
    if let Some(v) = existing {
        append_bytes(&mut result, v);
    }
    let ghost start = result@;
    assert(start == match existing {
        Some(v) => v@,
        None => Seq::<u8>::empty(),
    }) by {
        if existing is None {
            assert(start =~= Seq::<u8>::empty());
        }
    }
    let mut k: usize = 0;
    while k < operands.len()
        invariant
            k <= operands@.len(),
            result@ == start + concat_all(views(operands@.subrange(0, k as int))),
        decreases operands@.len() - k,
    {
        append_bytes(&mut result, operands[k].as_slice());
        proof {
            let before = views(operands@.subrange(0, k as int));
            let after = views(operands@.subrange(0, k + 1));
            assert(after.drop_last() =~= before);
            assert(after.last() == operands@[k as int]@);
        }
        k = k + 1;
        assert(result@ =~= start + concat_all(views(operands@.subrange(0, k as int))));
    }
    assert(operands@.subrange(0, operands@.len() as int) =~= operands@);
    result
}

} // verus!
