//! The representation set and the real/complex association between its members.

use vstd::prelude::*;

verus! {

/// Whether a representation holds one real component or a real and an imaginary one.
#[derive(Clone, Copy, Debug, PartialEq, Eq, Structural)]
pub enum Kind {
    Real,
    Complex,
}

impl Kind {
    /// How many real components a value of this kind is made of: one for a
    /// real value, a real and an imaginary part for a complex one.
    pub open spec fn spec_components(self) -> nat {
        match self {
            Kind::Real => 1,
            Kind::Complex => 2,
        }
    }

    /// The number of real components of a value of this kind.
    pub fn components(self) -> (n: usize)
        ensures
            n == self.spec_components(),
    {
        match self {
            Kind::Real => 1,
            Kind::Complex => 2,
        }
    }
}

/// One of the four supported numeric representations.
#[derive(Clone, Copy, Debug, PartialEq, Eq, Structural)]
pub enum Representation {
    Real32,
    Real64,
    Complex32,
    Complex64,
}

impl Representation {
    /// The kind tag of a representation.
    pub open spec fn spec_kind(self) -> Kind {
        match self {
            Representation::Real32 | Representation::Real64 => Kind::Real,
            Representation::Complex32 | Representation::Complex64 => Kind::Complex,
        }
    }

    /// The bit width of one component of a representation.
    pub open spec fn spec_width(self) -> nat {
        match self {
            Representation::Real32 | Representation::Complex32 => 32,
            Representation::Real64 | Representation::Complex64 => 64,
        }
    }

    /// The representation with the given kind and component width, if the width is supported.
    pub open spec fn spec_from_parts(kind: Kind, width: nat) -> Option<Representation> {
        if width == 32 {
            Some(
                match kind {
                    Kind::Real => Representation::Real32,
                    Kind::Complex => Representation::Complex32,
                },
            )
        } else if width == 64 {
            Some(
                match kind {
                    Kind::Real => Representation::Real64,
                    Kind::Complex => Representation::Complex64,
                },
            )
        } else {
            None
        }
    }

    /// The real representation paired with `self`: same width, kind `Real`.
    pub open spec fn spec_real_partner(self) -> Representation {
        Self::spec_from_parts(Kind::Real, self.spec_width()).unwrap()
    }

    /// The complex representation paired with `self`: same width, kind `Complex`.
    pub open spec fn spec_complex_partner(self) -> Representation {
        Self::spec_from_parts(Kind::Complex, self.spec_width()).unwrap()
    }

    /// The kind tag: real or complex.
    pub fn kind(self) -> (k: Kind)
        ensures
            k == self.spec_kind(),
    {
        match self {
            Representation::Real32 => Kind::Real,
            Representation::Real64 => Kind::Real,
            Representation::Complex32 => Kind::Complex,
            Representation::Complex64 => Kind::Complex,
        }
    }

    /// The bit width of one component: 32 or 64.
    pub fn width(self) -> (w: u32)
        ensures
            w == self.spec_width(),
    {
        match self {
            Representation::Real32 => 32,
            Representation::Complex32 => 32,
            Representation::Real64 => 64,
            Representation::Complex64 => 64,
        }
    }

    /// Looks a representation up by kind and component width.
    pub fn from_parts(kind: Kind, width: u32) -> (r: Option<Representation>)
        ensures
            r == Self::spec_from_parts(kind, width as nat),
            r is Some <==> (width == 32 || width == 64),
            r is Some ==> r.unwrap().spec_kind() == kind && r.unwrap().spec_width() == width,
    {
        if width == 32 {
            match kind {
                Kind::Real => Some(Representation::Real32),
                Kind::Complex => Some(Representation::Complex32),
            }
        } else if width == 64 {
            match kind {
                Kind::Real => Some(Representation::Real64),
                Kind::Complex => Some(Representation::Complex64),
            }
        } else {
            None
        }
    }

    /// The real partner: the real representation of the same width.
    pub fn real_partner(self) -> (r: Representation)
        ensures
            r == self.spec_real_partner(),
            r.spec_kind() == Kind::Real,
            r.spec_width() == self.spec_width(),
    {
        match self {
            Representation::Real32 => Representation::Real32,
            Representation::Complex32 => Representation::Real32,
            Representation::Real64 => Representation::Real64,
            Representation::Complex64 => Representation::Real64,
        }
    }

    /// The complex partner: the complex representation of the same width.
    pub fn complex_partner(self) -> (c: Representation)
        ensures
            c == self.spec_complex_partner(),
            c.spec_kind() == Kind::Complex,
            c.spec_width() == self.spec_width(),
    {
        match self {
            Representation::Real32 => Representation::Complex32,
            Representation::Complex32 => Representation::Complex32,
            Representation::Real64 => Representation::Complex64,
            Representation::Complex64 => Representation::Complex64,
        }
    }

    /// A representation is determined by its kind and its width: two
    /// representations that agree on both are the same one.
    pub proof fn lemma_determined_by_kind_and_width(a: Representation, b: Representation)
        requires
            a.spec_kind() == b.spec_kind(),
            a.spec_width() == b.spec_width(),
        ensures
            a == b,
    {
    }

    /// Pairing never crosses widths: the real partner and the complex partner
    /// of a representation both have that representation's width.
    pub proof fn lemma_partners_keep_width(x: Representation)
        ensures
            x.spec_real_partner().spec_width() == x.spec_width(),
            x.spec_complex_partner().spec_width() == x.spec_width(),
    {
    }

    /// The real partner is always of kind `Real` and the complex partner
    /// always of kind `Complex`.
    pub proof fn lemma_partner_kinds(x: Representation)
        ensures
            x.spec_real_partner().spec_kind() == Kind::Real,
            x.spec_complex_partner().spec_kind() == Kind::Complex,
    {
    }

    /// A representation is its own partner of its own kind: a real one is its
    /// real partner, a complex one its complex partner.
    pub proof fn lemma_own_kind_partner_is_self(x: Representation)
        ensures
            x.spec_kind() == Kind::Real ==> x.spec_real_partner() == x,
            x.spec_kind() == Kind::Complex ==> x.spec_complex_partner() == x,
    {
    }

    /// The two pairings undo each other in the sense that taking partners
    /// never leaves the pair: the complex partner of the real partner is the
    /// complex partner, and the real partner of the complex partner is the
    /// real partner.
    pub proof fn lemma_partners_form_a_pair(x: Representation)
        ensures
            x.spec_real_partner().spec_complex_partner() == x.spec_complex_partner(),
            x.spec_complex_partner().spec_real_partner() == x.spec_real_partner(),
            x.spec_real_partner().spec_real_partner() == x.spec_real_partner(),
            x.spec_complex_partner().spec_complex_partner() == x.spec_complex_partner(),
    {
    }
}

} // verus!
