use vstd::prelude::*;

verus! {

/// The kernel's factor-request vocabulary, restricted to the two states this
/// driver uses: compute the full square factor, or do not compute it at all.
#[derive(Clone, Copy, Debug, PartialEq, Eq, Structural)]
pub enum FlagSVD {
    All,
    No,
}

impl FlagSVD {
    pub open spec fn from_bool_spec(calc_uv: bool) -> FlagSVD {
        if calc_uv {
            FlagSVD::All
        } else {
            FlagSVD::No
        }
    }

    /// `All` exactly when the corresponding factor was requested.
    pub fn from_bool(calc_uv: bool) -> (f: FlagSVD)
        ensures
            f == FlagSVD::from_bool_spec(calc_uv),
    {
        if calc_uv {
            FlagSVD::All
        } else {
            FlagSVD::No
        }
    }

    /// The one-byte code the kernel expects: ASCII `A` for the full factor,
    /// ASCII `N` for none.
    pub open spec fn lapack_char_spec(self) -> u8 {
        match self {
            FlagSVD::All => 65,
            FlagSVD::No => 78,
        }
    }

    pub fn lapack_char(&self) -> (c: u8)
        ensures
            c == self.lapack_char_spec(),
    {
        match self {
            FlagSVD::All => 65,
            FlagSVD::No => 78,
        }
    }
}

} // verus!
