//! Argument kinds of the basic linear-algebra call-throughs.

use vstd::prelude::*;

verus! {

/// Modified matrix transformation (for the mathematical field `F`), the
/// compact form a modified Givens rotation is returned and consumed in.
#[derive(Clone, Copy)]
pub enum H<F> {
    /// Specify that H is the matrix
    ///
    /// ⎧`h11`  `h12`⎫
    /// ⎩`h21`  `h22`⎭
    Full { h11: F, h21: F, h12: F, h22: F },
    /// Specify that H is the matrix
    ///
    /// ⎧1.0  `h12`⎫
    /// ⎩`h21`  1.0⎭
    OffDiag { h21: F, h12: F },
    /// Specify that H is the matrix
    ///
    /// ⎧`h11`   1.0⎫
    /// ⎩-1.0  `h22`⎭
    Diag { h11: F, h22: F },
    /// Specify that H is the identity matrix.
    Id,
}

/// Native flag announcing the full representation.
pub const H_FLAG_FULL: i32 = -1;
/// Native flag announcing the off-diagonal representation.
pub const H_FLAG_OFF_DIAGONAL: i32 = 0;
/// Native flag announcing the diagonal representation.
pub const H_FLAG_DIAGONAL: i32 = 1;
/// Native flag announcing the identity.
pub const H_FLAG_IDENTITY: i32 = -2;

impl<F> H<F> {
    /// Decode the flag and the four entry slots a modified-rotation
    /// routine hands back into the matching representation: the flag
    /// alone picks the variant and which of the slots are read.
    /// Returns `None` on a flag outside the closed set, which the fixed
    /// native ABI never produces.
    pub fn from_flag(flag: i32, h11: F, h21: F, h12: F, h22: F) -> (r: Option<H<F>>)
        ensures
            (flag == H_FLAG_FULL ==> r == Some(H::Full { h11, h21, h12, h22 })),
            (flag == H_FLAG_OFF_DIAGONAL ==> r == Some(H::OffDiag { h21, h12 })),
            (flag == H_FLAG_DIAGONAL ==> r == Some(H::Diag { h11, h22 })),
            (flag == H_FLAG_IDENTITY ==> r == Some(H::<F>::Id)),
            flag != H_FLAG_FULL && flag != H_FLAG_OFF_DIAGONAL && flag != H_FLAG_DIAGONAL && flag
                != H_FLAG_IDENTITY ==> r is None,
    {
        if flag == H_FLAG_FULL {
            Some(H::Full { h11, h21, h12, h22 })
        } else if flag == H_FLAG_OFF_DIAGONAL {
            Some(H::OffDiag { h21, h12 })
        } else if flag == H_FLAG_DIAGONAL {
            Some(H::Diag { h11, h22 })
        } else if flag == H_FLAG_IDENTITY {
            Some(H::Id)
        } else {
            None
        }
    }
}

} // verus!
