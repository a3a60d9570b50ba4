use vstd::prelude::*;

verus! {

/// The number of restore attempts a backup allows; never zero.
#[derive(Clone, Copy, Debug, PartialEq, Eq)]
pub struct MaxTries {
    value: u32,
}

impl View for MaxTries {
    type V = u32;

    closed spec fn view(&self) -> u32 {
        self.value
    }
}

impl MaxTries {
    #[verifier::type_invariant]
    spec fn positive(self) -> bool {
        self.value > 0
    }

    /// `Some` exactly when `value` is not zero.
    pub fn new(value: u32) -> (r: Option<MaxTries>)
        ensures
            r is Some <==> value > 0,
            r is Some ==> r->Some_0@ == value,
    {
        if value > 0 {
            Some(MaxTries { value })
        } else {
            None
        }
    }

    pub fn get(&self) -> (r: u32)
        ensures
            r == self@,
            r > 0,
    {
        proof {
            use_type_invariant(self);
        }
        self.value
    }
}

/// What a backup leaves with the caller: the masked shares, as bytes that
/// this layer stores and forwards but never reads.
#[derive(Clone, Debug, PartialEq, Eq)]
pub struct OpaqueMaskedShareSet {
    bytes: Vec<u8>,
}

impl View for OpaqueMaskedShareSet {
    type V = Seq<u8>;

    closed spec fn view(&self) -> Seq<u8> {
        self.bytes@
    }
}

impl OpaqueMaskedShareSet {
    pub fn from_bytes(bytes: Vec<u8>) -> (r: OpaqueMaskedShareSet)
        ensures
            r@ == bytes@,
    {
        OpaqueMaskedShareSet { bytes }
    }

    pub fn as_bytes(&self) -> (r: &[u8])
        ensures
            r@ == self@,
    {
        self.bytes.as_slice()
    }

    pub fn into_bytes(self) -> (r: Vec<u8>)
        ensures
            r@ == self@,
    {
        self.bytes
    }
}

/// The outcome of a successful restore: the recovered value and the
/// attempts that the servers still allow.
#[derive(Clone, Copy, Debug, PartialEq, Eq)]
pub struct EvaluationResult {
    pub value: [u8; 32],
    pub tries_remaining: u32,
}

} // verus!
