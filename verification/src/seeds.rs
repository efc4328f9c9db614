//! Derivation of parameter sets and fixed-size seeds from arbitrary bytes,
//! as used by the fuzzing harnesses to drive the library from raw input.

use vstd::prelude::*;

use crate::params::Algorithm;

verus! {

/// The parameter set chosen by a selector byte: the selector modulo three
/// indexes `Algorithm::ALL`.
pub open spec fn spec_algorithm(selector: u8) -> Algorithm {
    if selector % 3 == 0 {
        Algorithm::MlKem512
    } else if selector % 3 == 1 {
        Algorithm::MlKem768
    } else {
        Algorithm::MlKem1024
    }
}

/// Selects a parameter set from a selector byte.
pub fn algorithm(selector: u8) -> (selected: Algorithm)
    ensures
        selected == spec_algorithm(selector),
        selected == Algorithm::ALL@[(selector % 3) as int],
{
    let all = Algorithm::ALL;
    all[(selector % 3) as usize]
}

/// The 32 bytes read cyclically from `data`, starting at `offset`.
pub open spec fn spec_expand(data: Seq<u8>, offset: int) -> Seq<u8> {
    Seq::new(32, |i: int| data[(offset + i) % (data.len() as int)])
}

/// Fills a 32-byte seed by reading `data` cyclically from `offset`.
pub fn expand(data: &[u8], offset: usize) -> (output: [u8; 32])
    requires
        data@.len() > 0,
        offset + 31 <= usize::MAX,
    ensures
        output@ == spec_expand(data@, offset as int),
        forall|i: int| 0 <= i < 32 ==> output@[i] == data@[(offset + i) % (data@.len() as int)],
{
    let mut output = [0u8; 32];
    let mut index: usize = 0;
    while index < 32
        invariant
            data@.len() > 0,
            offset + 31 <= usize::MAX,
            index <= 32,
            output@.len() == 32,
            forall|j: int| 0 <= j < index ==> output@[j] == data@[(offset + j) % (data@.len() as int)],
        decreases 32 - index,
    {
        let byte = data[(offset + index) % data.len()];
        output[index] = byte;
        index = index + 1;
    }
    assert(output@ =~= spec_expand(data@, offset as int));
    output
}

} // verus!
