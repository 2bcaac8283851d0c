//! Energy, counted in billionths of what a ray sets out with.

use vstd::prelude::*;

verus! {

/// The whole of a ray's energy, counted in billionths.
pub const UNIT: u32 = 1_000_000_000;

/// What `share` billionths of `whole` come to, rounded down.
pub open spec fn share_of(whole: nat, share: nat) -> nat {
    whole * share / (UNIT as nat)
}

/// A share that is at most the whole stays within what it is taken of.
pub proof fn share_of_is_bounded(whole: nat, share: nat)
    requires
        share <= UNIT,
    ensures
        share_of(whole, share) <= whole,
        share == UNIT ==> share_of(whole, share) == whole,
        share == 0 ==> share_of(whole, share) == 0,
{
    assert(whole * share <= whole * (UNIT as nat)) by (nonlinear_arith)
        requires
            share <= UNIT,
    ;
    assert(whole * (UNIT as nat) / (UNIT as nat) == whole) by (nonlinear_arith);
    assert(whole * share / (UNIT as nat) <= whole * (UNIT as nat) / (UNIT as nat))
        by (nonlinear_arith)
        requires
            whole * share <= whole * (UNIT as nat),
    ;
    assert(whole * 0 == 0) by (nonlinear_arith);
}

/// A real number between zero and one, held in billionths: an emissivity, an
/// amount of energy, a view factor.
#[derive(Clone, Copy, Debug)]
pub struct Fraction {
    parts: u32,
}

impl View for Fraction {
    type V = nat;

    closed spec fn view(&self) -> nat {
        self.parts as nat
    }
}

impl Fraction {
    #[verifier::type_invariant]
    spec fn within_unit(self) -> bool {
        self.parts <= UNIT
    }

    /// The fraction of `parts` billionths, where that is at most one.
    pub fn new(parts: u32) -> (r: Option<Fraction>)
        ensures
            parts <= UNIT ==> r.is_some() && r.unwrap()@ == parts,
            parts > UNIT ==> r.is_none(),
    {
        if parts <= UNIT {
            Some(Fraction { parts })
        } else {
            None
        }
    }

    /// Nothing.
    pub fn zero() -> (r: Fraction)
        ensures
            r@ == 0,
    {
        Fraction { parts: 0 }
    }

    /// The whole.
    pub fn one() -> (r: Fraction)
        ensures
            r@ == UNIT,
    {
        Fraction { parts: UNIT }
    }

    /// The number of billionths.
    pub fn parts(&self) -> (p: u32)
        ensures
            p == self@,
            p <= UNIT,
    {
        proof {
            use_type_invariant(self);
        }
        self.parts
    }

    /// This share of `whole`, rounded down to a billionth.
    pub fn of(&self, whole: Fraction) -> (r: Fraction)
        ensures
            r@ == share_of(whole@, self@),
            r@ <= whole@,
    {
        proof {
            use_type_invariant(self);
            use_type_invariant(whole);
            share_of_is_bounded(whole@, self@);
            assert(whole.parts * self.parts <= UNIT * UNIT) by (nonlinear_arith)
                requires
                    whole.parts <= UNIT,
                    self.parts <= UNIT,
            ;
        }
        let product: u64 = (whole.parts as u64) * (self.parts as u64);
        let parts: u32 = (product / (UNIT as u64)) as u32;
        Fraction { parts }
    }

    /// This fraction and `other` together, where that is at most one.
    pub fn plus(&self, other: Fraction) -> (r: Fraction)
        requires
            self@ + other@ <= UNIT,
        ensures
            r@ == self@ + other@,
    {
        Fraction { parts: self.parts + other.parts }
    }

    /// What is left of this fraction when `part` of it is taken away.
    pub fn less(&self, part: Fraction) -> (r: Fraction)
        requires
            part@ <= self@,
        ensures
            r@ == self@ - part@,
    {
        proof {
            use_type_invariant(self);
        }
        Fraction { parts: self.parts - part.parts }
    }

    /// Whether this fraction is less than the other.
    pub fn is_below(&self, other: Fraction) -> (r: bool)
        ensures
            r == (self@ < other@),
    {
        self.parts < other.parts
    }
}

} // verus!
