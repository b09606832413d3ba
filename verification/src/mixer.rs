use vstd::prelude::*;

verus! {

/// One step of the byte-mixing accumulator used by the reference
/// backend's key derivation and signing: rotate the accumulator left by
/// one bit, then fold in the next input byte.
pub open spec fn mix(acc: u8, b: u8) -> u8 {
    ((acc << 1) | (acc >> 7)) ^ b
}

/// Folds a whole byte sequence into the accumulator, last byte outermost.
pub open spec fn fold_mix(acc: u8, s: Seq<u8>) -> u8
    decreases s.len(),
{
    if s.len() == 0 {
        acc
    } else {
        mix(fold_mix(acc, s.drop_last()), s.last())
    }
}

/// Folds an optional byte sequence: absence leaves the accumulator alone.
pub open spec fn fold_mix_opt(acc: u8, s: Option<Seq<u8>>) -> u8 {
    match s {
        Option::Some(bytes) => fold_mix(acc, bytes),
        Option::None => acc,
    }
}

/// Executable form of one `mix` step.
pub fn mix_byte(acc: u8, b: u8) -> (r: u8)
    ensures
        r == mix(acc, b),
{
    ((acc << 1) | (acc >> 7)) ^ b
}

/// Executable fold of a byte vector into the accumulator.
pub fn fold_bytes(acc0: u8, data: &Vec<u8>) -> (r: u8)
    ensures
        r == fold_mix(acc0, data@),
{
    let mut acc = acc0;
    let mut i: usize = 0;
    while i < data.len()
        invariant
            i <= data@.len(),
            acc == fold_mix(acc0, data@.take(i as int)),
        decreases data@.len() - i,
    {
        proof {
            assert(data@.take(i + 1).drop_last() =~= data@.take(i as int));
            assert(data@.take(i + 1).last() == data@[i as int]);
        }
        acc = mix_byte(acc, data[i]);
        i = i + 1;
    }
    proof {
        assert(data@.take(data@.len() as int) =~= data@);
    }
    acc
}

/// The view of an optional byte vector as an optional byte sequence.
pub open spec fn opt_view(o: Option<Vec<u8>>) -> Option<Seq<u8>> {
    match o {
        Option::Some(bytes) => Option::Some(bytes@),
        Option::None => Option::None,
    }
}

/// Executable fold of an optional byte vector.
pub fn fold_bytes_opt(acc0: u8, data: &Option<Vec<u8>>) -> (r: u8)
    ensures
        r == fold_mix_opt(acc0, opt_view(*data)),
{
    match data {
        Option::Some(bytes) => fold_bytes(acc0, bytes),
        Option::None => acc0,
    }
}

} // verus!
