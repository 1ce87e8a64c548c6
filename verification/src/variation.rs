//! Object groups and variations that a master names in its requests.

use vstd::prelude::*;

verus! {

/// The kind of object that an object header announces.
#[derive(Copy, Clone, Debug, PartialEq, Eq, Structural)]
pub enum Variation {
    Group1Var0,
    Group1Var2,
    Group2Var1,
    Group12Var1,
    Group30Var0,
    Group30Var1,
    Group40Var0,
    Group41Var1,
    Group41Var2,
    Group41Var3,
    Group41Var4,
    Group60Var1,
    Group60Var2,
    Group60Var3,
    Group60Var4,
    Group80Var1,
}

impl Variation {
    /// Group and variation numbers.
    pub open spec fn group_var(self) -> (u8, u8) {
        match self {
            Variation::Group1Var0 => (1u8, 0u8),
            Variation::Group1Var2 => (1u8, 2u8),
            Variation::Group2Var1 => (2u8, 1u8),
            Variation::Group12Var1 => (12u8, 1u8),
            Variation::Group30Var0 => (30u8, 0u8),
            Variation::Group30Var1 => (30u8, 1u8),
            Variation::Group40Var0 => (40u8, 0u8),
            Variation::Group41Var1 => (41u8, 1u8),
            Variation::Group41Var2 => (41u8, 2u8),
            Variation::Group41Var3 => (41u8, 3u8),
            Variation::Group41Var4 => (41u8, 4u8),
            Variation::Group60Var1 => (60u8, 1u8),
            Variation::Group60Var2 => (60u8, 2u8),
            Variation::Group60Var3 => (60u8, 3u8),
            Variation::Group60Var4 => (60u8, 4u8),
            Variation::Group80Var1 => (80u8, 1u8),
        }
    }

    pub fn to_group_and_var(self) -> (r: (u8, u8))
        ensures
            r == self.group_var(),
    {
        match self {
            Variation::Group1Var0 => (1, 0),
            Variation::Group1Var2 => (1, 2),
            Variation::Group2Var1 => (2, 1),
            Variation::Group12Var1 => (12, 1),
            Variation::Group30Var0 => (30, 0),
            Variation::Group30Var1 => (30, 1),
            Variation::Group40Var0 => (40, 0),
            Variation::Group41Var1 => (41, 1),
            Variation::Group41Var2 => (41, 2),
            Variation::Group41Var3 => (41, 3),
            Variation::Group41Var4 => (41, 4),
            Variation::Group60Var1 => (60, 1),
            Variation::Group60Var2 => (60, 2),
            Variation::Group60Var3 => (60, 3),
            Variation::Group60Var4 => (60, 4),
            Variation::Group80Var1 => (80, 1),
        }
    }
}

} // verus!
