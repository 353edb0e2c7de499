//! A value, vector or matrix of random numbers whose type is chosen at run
//! time, with generation by kind and typed extraction.
use vstd::prelude::*;

use crate::error::{rerror, Re};
use crate::generators::{
    ran_ubits, ranvi64, ranvu16, ranvu64, ranvu8, ranvvi64, ranvvu16, ranvvu64, ranvvu8, xoshiu64,
};
use crate::model::{
    top_bits, xoshi_next, xoshi_out_at, xoshi_u64, xoshi_unit, xoshi_unit_at, xoshi_iter,
};
use crate::{ran_unit, ranv_unit, ranvv_unit, RanState};

verus! {

/// One random number of a kind chosen at run time. A value `x` in [0,1) is
/// held in `F64` as its numerator `x * 2^53`.
#[derive(Clone, Copy, Debug, PartialEq, Eq)]
pub enum Rnum {
    /// A value in [0,1), as its numerator over 2^53.
    F64(u64),
    /// A `u64`.
    U64(u64),
    /// An `i64`.
    I64(i64),
    /// A `u16`.
    U16(u16),
    /// A `u8`.
    U8(u8),
}

/// A vector of random numbers of a kind chosen at run time; `F64` holds
/// numerators over 2^53 of values in [0,1).
#[derive(Clone, Debug, PartialEq, Eq)]
pub enum Rv {
    /// Values in [0,1), as numerators over 2^53.
    F64(Vec<u64>),
    /// `u64` values.
    U64(Vec<u64>),
    /// `i64` values.
    I64(Vec<i64>),
    /// `u16` values.
    U16(Vec<u16>),
    /// `u8` values.
    U8(Vec<u8>),
}

/// A matrix (a vector of rows) of random numbers of a kind chosen at run
/// time; `F64` holds numerators over 2^53 of values in [0,1).
#[derive(Clone, Debug, PartialEq, Eq)]
pub enum Rvv {
    /// Values in [0,1), as numerators over 2^53.
    F64(Vec<Vec<u64>>),
    /// `u64` values.
    U64(Vec<Vec<u64>>),
    /// `i64` values.
    I64(Vec<Vec<i64>>),
    /// `u16` values.
    U16(Vec<Vec<u16>>),
    /// `u8` values.
    U8(Vec<Vec<u8>>),
}

/// The kind of a single number: its variant, whatever it holds.
pub open spec fn same_kind(a: Rnum, b: Rnum) -> bool {
    &&& a is F64 <==> b is F64
    &&& a is U64 <==> b is U64
    &&& a is I64 <==> b is I64
    &&& a is U16 <==> b is U16
    &&& a is U8 <==> b is U8
}

/// A vector holds the kind of `n`.
pub open spec fn rv_kind(n: Rnum, v: Rv) -> bool {
    &&& n is F64 <==> v is F64
    &&& n is U64 <==> v is U64
    &&& n is I64 <==> v is I64
    &&& n is U16 <==> v is U16
    &&& n is U8 <==> v is U8
}

/// A matrix holds the kind of `n`.
pub open spec fn rvv_kind(n: Rnum, m: Rvv) -> bool {
    &&& n is F64 <==> m is F64
    &&& n is U64 <==> m is U64
    &&& n is I64 <==> m is I64
    &&& n is U16 <==> m is U16
    &&& n is U8 <==> m is U8
}

impl Rnum {
    /// Receptacle for values in [0,1).
    pub fn newf64() -> (r: Self)
        ensures
            r == Rnum::F64(0),
    {
        Rnum::F64(0)
    }

    /// Receptacle for `u64` values.
    pub fn newu64() -> (r: Self)
        ensures
            r == Rnum::U64(0),
    {
        Rnum::U64(0)
    }

    /// Receptacle for `i64` values.
    pub fn newi64() -> (r: Self)
        ensures
            r == Rnum::I64(0),
    {
        Rnum::I64(0)
    }

    /// Receptacle for `u16` values.
    pub fn newu16() -> (r: Self)
        ensures
            r == Rnum::U16(0),
    {
        Rnum::U16(0)
    }

    /// Receptacle for `u8` values.
    pub fn newu8() -> (r: Self)
        ensures
            r == Rnum::U8(0),
    {
        Rnum::U8(0)
    }

    /// The `u64` held, or a `Type` error where another type is held.
    pub fn getu64(self) -> (r: Result<u64, Re>)
        ensures
            self matches Rnum::U64(x) ==> r == Ok::<u64, Re>(x),
            !(self is U64) ==> (r matches Err(e) && e.is_type()),
    {
        if let Rnum::U64(x) = self {
            Ok(x)
        } else {
            rerror("type", "getu64 found another type".to_string())
        }
    }

    /// The `i64` held, or a `Type` error where another type is held.
    pub fn geti64(self) -> (r: Result<i64, Re>)
        ensures
            self matches Rnum::I64(x) ==> r == Ok::<i64, Re>(x),
            !(self is I64) ==> (r matches Err(e) && e.is_type()),
    {
        if let Rnum::I64(x) = self {
            Ok(x)
        } else {
            rerror("type", "geti64 found another type".to_string())
        }
    }

    /// The `u16` held, or a `Type` error where another type is held.
    pub fn getu16(self) -> (r: Result<u16, Re>)
        ensures
            self matches Rnum::U16(x) ==> r == Ok::<u16, Re>(x),
            !(self is U16) ==> (r matches Err(e) && e.is_type()),
    {
        if let Rnum::U16(x) = self {
            Ok(x)
        } else {
            rerror("type", "getu16 found another type".to_string())
        }
    }

    /// The `u8` held, or a `Type` error where another type is held.
    pub fn getu8(self) -> (r: Result<u8, Re>)
        ensures
            self matches Rnum::U8(x) ==> r == Ok::<u8, Re>(x),
            !(self is U8) ==> (r matches Err(e) && e.is_type()),
    {
        if let Rnum::U8(x) = self {
            Ok(x)
        } else {
            rerror("type", "getu8 found another type".to_string())
        }
    }

    /// One random number of the kind of `self`, over its full range: `u64`
    /// and `i64` from xoshiro256**, `u16` and `u8` from its top bits, and
    /// `F64` from xoshiro256+.
    pub fn rannum(&self, g: &mut RanState) -> (r: Self)
        ensures
            same_kind(*self, r),
            final(g).seed == old(g).seed,
            final(g).xoshi@ == xoshi_next(old(g).xoshi@),
            r matches Rnum::F64(x) ==> x == xoshi_unit(old(g).xoshi@),
            r matches Rnum::U64(x) ==> x == xoshi_u64(old(g).xoshi@),
            r matches Rnum::I64(x) ==> x == xoshi_u64(old(g).xoshi@) as i64,
            r matches Rnum::U16(x) ==> x == top_bits(xoshi_u64(old(g).xoshi@), 16),
            r matches Rnum::U8(x) ==> x == top_bits(xoshi_u64(old(g).xoshi@), 8),
    {
        match self {
            Rnum::F64(_) => Rnum::F64(ran_unit(g)),
            Rnum::U64(_) => Rnum::U64(xoshiu64(g)),
            Rnum::I64(_) => Rnum::I64(xoshiu64(g) as i64),
            Rnum::U16(_) => {
                let ghost x = xoshi_u64(g.xoshi@);
                let w = ran_ubits(g, 16);
                assert(w < 65536) by (bit_vector)
                    requires
                        w == x >> 48u64,
                ;
                Rnum::U16(w as u16)
            },
            Rnum::U8(_) => {
                let ghost x = xoshi_u64(g.xoshi@);
                let w = ran_ubits(g, 8);
                assert(w < 256) by (bit_vector)
                    requires
                        w == x >> 56u64,
                ;
                Rnum::U8(w as u8)
            },
        }
    }

    /// A vector of `d` random numbers of the kind of `self`, over their full
    /// range. Fails with a `Dimensions` error where `d` is zero, leaving the
    /// state as it was.
    pub fn ranv(&self, g: &mut RanState, d: usize) -> (r: Result<Rv, Re>)
        ensures
            d == 0 ==> (r matches Err(e) && e.is_dimensions()) && *final(g) == *old(g),
            d > 0 ==> (r matches Ok(v) && rv_kind(*self, v)),
            r is Ok ==> final(g).xoshi@ == xoshi_iter(old(g).xoshi@, d as nat),
            final(g).seed == old(g).seed,
            r matches Ok(Rv::F64(x)) ==> x@.len() == d && forall|k: int|
                0 <= k < d ==> x@[k] == #[trigger] xoshi_unit_at(old(g).xoshi@, k),
            r matches Ok(Rv::U64(x)) ==> x@.len() == d && forall|k: int|
                0 <= k < d ==> x@[k] == #[trigger] xoshi_out_at(old(g).xoshi@, k),
            r matches Ok(Rv::I64(x)) ==> x@.len() == d && forall|k: int|
                0 <= k < d ==> x@[k] == #[trigger] xoshi_out_at(old(g).xoshi@, k) as i64,
            r matches Ok(Rv::U16(x)) ==> x@.len() == d && forall|k: int|
                0 <= k < d ==> x@[k] == #[trigger] top_bits(xoshi_out_at(old(g).xoshi@, k), 16),
            r matches Ok(Rv::U8(x)) ==> x@.len() == d && forall|k: int|
                0 <= k < d ==> x@[k] == #[trigger] top_bits(xoshi_out_at(old(g).xoshi@, k), 8),
    {
        match self {
            Rnum::F64(_) => match ranv_unit(g, d) {
                Ok(x) => Ok(Rv::F64(x)),
                Err(e) => Err(e),
            },
            Rnum::U64(_) => match ranvu64(g, d) {
                Ok(x) => Ok(Rv::U64(x)),
                Err(e) => Err(e),
            },
            Rnum::I64(_) => match ranvi64(g, d) {
                Ok(x) => Ok(Rv::I64(x)),
                Err(e) => Err(e),
            },
            Rnum::U16(_) => match ranvu16(g, d) {
                Ok(x) => Ok(Rv::U16(x)),
                Err(e) => Err(e),
            },
            Rnum::U8(_) => match ranvu8(g, d) {
                Ok(x) => Ok(Rv::U8(x)),
                Err(e) => Err(e),
            },
        }
    }

    /// `n` vectors of `d` random numbers each, of the kind of `self`, over
    /// their full range. Fails with a `Dimensions` error where `n * d <= 1`,
    /// leaving the state as it was.
    pub fn ranvv(&self, g: &mut RanState, d: usize, n: usize) -> (r: Result<Rvv, Re>)
        ensures
            (n as int) * (d as int) <= 1 ==> (r matches Err(e) && e.is_dimensions()) && *final(g)
                == *old(g),
            (n as int) * (d as int) > 1 ==> (r matches Ok(m) && rvv_kind(*self, m)),
            r is Ok ==> final(g).xoshi@ == xoshi_iter(old(g).xoshi@, (n * d) as nat),
            final(g).seed == old(g).seed,
            r matches Ok(Rvv::F64(m)) ==> m@.len() == n && (forall|i: int|
                0 <= i < n ==> (#[trigger] m@[i])@.len() == d) && forall|i: int, j: int|
                0 <= i < n && 0 <= j < d
                    ==> #[trigger] m@[i]@[j] == xoshi_unit_at(old(g).xoshi@, i * d + j),
            r matches Ok(Rvv::U64(m)) ==> m@.len() == n && (forall|i: int|
                0 <= i < n ==> (#[trigger] m@[i])@.len() == d) && forall|i: int, j: int|
                0 <= i < n && 0 <= j < d
                    ==> #[trigger] m@[i]@[j] == xoshi_out_at(old(g).xoshi@, i * d + j),
            r matches Ok(Rvv::I64(m)) ==> m@.len() == n && (forall|i: int|
                0 <= i < n ==> (#[trigger] m@[i])@.len() == d) && forall|i: int, j: int|
                0 <= i < n && 0 <= j < d
                    ==> #[trigger] m@[i]@[j] == xoshi_out_at(old(g).xoshi@, i * d + j) as i64,
            r matches Ok(Rvv::U16(m)) ==> m@.len() == n && (forall|i: int|
                0 <= i < n ==> (#[trigger] m@[i])@.len() == d) && forall|i: int, j: int|
                0 <= i < n && 0 <= j < d
                    ==> #[trigger] m@[i]@[j]
                        == top_bits(xoshi_out_at(old(g).xoshi@, i * d + j), 16),
            r matches Ok(Rvv::U8(m)) ==> m@.len() == n && (forall|i: int|
                0 <= i < n ==> (#[trigger] m@[i])@.len() == d) && forall|i: int, j: int|
                0 <= i < n && 0 <= j < d
                    ==> #[trigger] m@[i]@[j] == top_bits(xoshi_out_at(old(g).xoshi@, i * d + j), 8),
    {
        match self {
            Rnum::F64(_) => match ranvv_unit(g, n, d) {
                Ok(m) => Ok(Rvv::F64(m)),
                Err(e) => Err(e),
            },
            Rnum::U64(_) => match ranvvu64(g, d, n) {
                Ok(m) => Ok(Rvv::U64(m)),
                Err(e) => Err(e),
            },
            Rnum::I64(_) => match ranvvi64(g, d, n) {
                Ok(m) => Ok(Rvv::I64(m)),
                Err(e) => Err(e),
            },
            Rnum::U16(_) => match ranvvu16(g, d, n) {
                Ok(m) => Ok(Rvv::U16(m)),
                Err(e) => Err(e),
            },
            Rnum::U8(_) => match ranvvu8(g, d, n) {
                Ok(m) => Ok(Rvv::U8(m)),
                Err(e) => Err(e),
            },
        }
    }
}

impl Rv {

    /// The `Vec<u64>` held, or a `Type` error where another type is held.
    pub fn getvu64(self) -> (r: Result<Vec<u64>, Re>)
        ensures
            self matches Rv::U64(x) ==> r == Ok::<Vec<u64>, Re>(x),
            !(self is U64) ==> (r matches Err(e) && e.is_type()),
    {
        if let Rv::U64(x) = self {
            Ok(x)
        } else {
            rerror("type", "getvu64 found another type".to_string())
        }
    }

    /// The `Vec<i64>` held, or a `Type` error where another type is held.
    pub fn getvi64(self) -> (r: Result<Vec<i64>, Re>)
        ensures
            self matches Rv::I64(x) ==> r == Ok::<Vec<i64>, Re>(x),
            !(self is I64) ==> (r matches Err(e) && e.is_type()),
    {
        if let Rv::I64(x) = self {
            Ok(x)
        } else {
            rerror("type", "getvi64 found another type".to_string())
        }
    }

    /// The `Vec<u16>` held, or a `Type` error where another type is held.
    pub fn getvu16(self) -> (r: Result<Vec<u16>, Re>)
        ensures
            self matches Rv::U16(x) ==> r == Ok::<Vec<u16>, Re>(x),
            !(self is U16) ==> (r matches Err(e) && e.is_type()),
    {
        if let Rv::U16(x) = self {
            Ok(x)
        } else {
            rerror("type", "getvu16 found another type".to_string())
        }
    }

    /// The `Vec<u8>` held, or a `Type` error where another type is held.
    pub fn getvu8(self) -> (r: Result<Vec<u8>, Re>)
        ensures
            self matches Rv::U8(x) ==> r == Ok::<Vec<u8>, Re>(x),
            !(self is U8) ==> (r matches Err(e) && e.is_type()),
    {
        if let Rv::U8(x) = self {
            Ok(x)
        } else {
            rerror("type", "getvu8 found another type".to_string())
        }
    }
}

impl Rvv {

    /// The `Vec<Vec<u64>>` held, or a `Type` error where another type is held.
    pub fn getvvu64(self) -> (r: Result<Vec<Vec<u64>>, Re>)
        ensures
            self matches Rvv::U64(x) ==> r == Ok::<Vec<Vec<u64>>, Re>(x),
            !(self is U64) ==> (r matches Err(e) && e.is_type()),
    {
        if let Rvv::U64(x) = self {
            Ok(x)
        } else {
            rerror("type", "getvvu64 found another type".to_string())
        }
    }

    /// The `Vec<Vec<i64>>` held, or a `Type` error where another type is held.
    pub fn getvi64(self) -> (r: Result<Vec<Vec<i64>>, Re>)
        ensures
            self matches Rvv::I64(x) ==> r == Ok::<Vec<Vec<i64>>, Re>(x),
            !(self is I64) ==> (r matches Err(e) && e.is_type()),
    {
        if let Rvv::I64(x) = self {
            Ok(x)
        } else {
            rerror("type", "getvi64 found another type".to_string())
        }
    }

    /// The `Vec<Vec<u16>>` held, or a `Type` error where another type is held.
    pub fn getvvu16(self) -> (r: Result<Vec<Vec<u16>>, Re>)
        ensures
            self matches Rvv::U16(x) ==> r == Ok::<Vec<Vec<u16>>, Re>(x),
            !(self is U16) ==> (r matches Err(e) && e.is_type()),
    {
        if let Rvv::U16(x) = self {
            Ok(x)
        } else {
            rerror("type", "getvvu16 found another type".to_string())
        }
    }

    /// The `Vec<Vec<u8>>` held, or a `Type` error where another type is held.
    pub fn getvvu8(self) -> (r: Result<Vec<Vec<u8>>, Re>)
        ensures
            self matches Rvv::U8(x) ==> r == Ok::<Vec<Vec<u8>>, Re>(x),
            !(self is U8) ==> (r matches Err(e) && e.is_type()),
    {
        if let Rvv::U8(x) = self {
            Ok(x)
        } else {
            rerror("type", "getvvu8 found another type".to_string())
        }
    }
}

} // verus!
