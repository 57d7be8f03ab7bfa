use vstd::prelude::*;

use crate::status::{call_result, check_call, CallError};

verus! {

/// Bytes in an authentication tag.
pub const TAG_LEN: usize = 16;

/// A ciphertext together with the tag that the compartment produced for it.
/// The ciphertext is as long as the plaintext it came from; the two parts are
/// only ever handed on together, to one decrypt call.
#[derive(Debug)]
pub struct Envelope {
    ciphertext: Vec<u8>,
    tag: [u8; 16],
}

/// A buffer of `n` zero bytes.
pub open spec fn zeros(n: nat) -> Seq<u8> {
    Seq::new(n, |k: int| 0u8)
}

impl Envelope {
    pub closed spec fn spec_ciphertext(&self) -> Seq<u8> {
        self.ciphertext@
    }

    pub closed spec fn spec_tag(&self) -> Seq<u8> {
        self.tag@
    }

    pub fn ciphertext(&self) -> (r: &[u8])
        ensures
            r@ == self.spec_ciphertext(),
    {
        self.ciphertext.as_slice()
    }

    pub fn tag(&self) -> (r: &[u8; 16])
        ensures
            r@ == self.spec_tag(),
            r@.len() == TAG_LEN,
    {
        &self.tag
    }
}

/// The output buffer for a cipher call: zeroed and exactly as long as the
/// input, so the compartment never writes past or short of it.
pub fn output_buffer(input: &[u8]) -> (r: Vec<u8>)
    ensures
        r@ == zeros(input@.len() as nat),
{
    let mut r: Vec<u8> = Vec::new();
    let mut k: usize = 0;
    while k < input.len()
        invariant
            k <= input@.len(),
            r@ == zeros(k as nat),
        decreases input@.len() - k,
    {
        r.push(0u8);
        k = k + 1;
        assert(r@ =~= zeros(k as nat));
    }
    r
}

/// A tag buffer for an encrypt call to fill.
pub fn empty_tag() -> (r: [u8; 16])
    ensures
        r@ == zeros(TAG_LEN as nat),
{
    let r: [u8; 16] = [0u8; 16];
    assert(r@ =~= zeros(TAG_LEN as nat));
    r
}

/// Completes an encrypt call: given the plaintext, the two statuses the call
/// reported and the ciphertext and tag buffers it filled, yields the envelope,
/// or the failure.
pub fn sealed(plaintext: &[u8], outer: u32, inner: u32, ciphertext: Vec<u8>, tag: [u8; 16]) -> (r:
    Result<Envelope, CallError>)
    requires
        ciphertext@.len() == plaintext@.len(),
    ensures
        call_result(outer, inner) is Ok ==> (r matches Ok(e) && e.spec_ciphertext() == ciphertext@
            && e.spec_tag() == tag@),
        call_result(outer, inner) matches Err(c) ==> r == Err::<Envelope, CallError>(c),
        r matches Ok(e) ==> e.spec_ciphertext().len() == plaintext@.len() && e.spec_tag().len()
            == TAG_LEN,
{
    match check_call(outer, inner) {
        Ok(()) => Ok(Envelope { ciphertext, tag }),
        Err(c) => Err(c),
    }
}

/// Completes a decrypt call, consuming the envelope it was made from: given
/// the two statuses the call reported and the plaintext buffer it filled,
/// yields the plaintext, or the failure (an authentication failure among
/// them).
pub fn opened(envelope: Envelope, outer: u32, inner: u32, plaintext: Vec<u8>) -> (r: Result<
    Vec<u8>,
    CallError,
>)
    requires
        plaintext@.len() == envelope.spec_ciphertext().len(),
    ensures
        call_result(outer, inner) is Ok ==> (r matches Ok(p) && p@ == plaintext@),
        call_result(outer, inner) matches Err(c) ==> r == Err::<Vec<u8>, CallError>(c),
        r matches Ok(p) ==> p@.len() == envelope.spec_ciphertext().len(),
{
    match check_call(outer, inner) {
        Ok(()) => Ok(plaintext),
        Err(c) => Err(c),
    }
}

} // verus!
