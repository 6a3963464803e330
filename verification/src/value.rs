//! The capability set an arbitrary parameter's value type must provide:
//! a default instance, binary (flat) and text encodings that invert
//! exactly, interpolation, and a total-order comparison.
//!
//! The lifecycle dispatcher is generic over this trait.  Every law the
//! dispatcher's contract leans on is a proof obligation here, so an
//! implementor cannot claim the capabilities without proving them.

use vstd::prelude::*;

verus! {

/// Outcome of comparing two parameter values, as the host understands
/// it.  `NotEqual` is reserved for value types whose order is partial;
/// a total order never reports it.
#[derive(Clone, Copy, Debug, PartialEq, Eq, Structural)]
pub enum ArbCompare {
    Less,
    More,
    Equal,
    NotEqual,
}

/// One million, the denominator of an interpolation weight.
pub const WEIGHT_ONE: u32 = 1000000;

/// An interpolation weight: `millionths` parts in a million of the way
/// from the left operand to the right one.  Zero is the left end, and
/// `WEIGHT_ONE` the right end, of the host's 0.0 to 1.0 range.
#[derive(Clone, Copy, Debug, PartialEq, Eq, Structural)]
pub struct Weight {
    pub millionths: u32,
}

impl Weight {
    /// A weight the host may legally send: at most one whole.
    pub open spec fn wf(&self) -> bool {
        self.millionths <= WEIGHT_ONE
    }

    /// The left end of the range.
    pub fn zero() -> (w: Weight)
        ensures
            w.millionths == 0,
    {
        Weight { millionths: 0 }
    }

    /// The right end of the range.
    pub fn one() -> (w: Weight)
        ensures
            w.millionths == WEIGHT_ONE,
    {
        Weight { millionths: WEIGHT_ONE }
    }

    /// A weight in parts per million.
    pub fn from_millionths(m: u32) -> (w: Weight)
        requires
            m <= WEIGHT_ONE,
        ensures
            w.millionths == m,
            w.wf(),
    {
        Weight { millionths: m }
    }
}

/// What a value type must supply to serve as an arbitrary parameter:
/// the capability set the lifecycle dispatcher is generic over.
///
/// The spec functions fix the type's mathematical behaviour; the proof
/// functions are the laws the dispatcher's contract relies on; the
/// executable functions are what the dispatcher calls, each pinned to
/// its spec.
pub trait ArbitraryData: Sized {
    /// Well-formed values: what every operation hands out and accepts.
    spec fn inv(&self) -> bool;

    /// The value's flat (binary) form, stored behind handles.
    spec fn flat_spec(&self) -> Seq<u8>;

    /// The value a flat buffer decodes to, if any.
    spec fn unflat_spec(b: Seq<u8>) -> Option<Self>;

    /// The value's human-readable text form.
    spec fn text_spec(&self) -> Seq<u8>;

    /// The value a text buffer scans back to, if any.
    spec fn scan_spec(s: Seq<u8>) -> Option<Self>;

    /// The default instance.
    spec fn default_spec() -> Self;

    /// Interpolation between two values at a weight.
    spec fn interpolate_spec(&self, other: &Self, w: Weight) -> Self;

    /// Total-order comparison of two values.
    spec fn cmp_spec(&self, other: &Self) -> ArbCompare;

    /// The default instance is well formed.
    proof fn lemma_default_wf()
        ensures
            Self::default_spec().inv(),
    ;

    /// Binary round trip: decoding a value's flat form gives the value
    /// back.
    proof fn lemma_flat_round_trip(&self)
        requires
            self.inv(),
        ensures
            Self::unflat_spec(self.flat_spec()) == Some(*self),
    ;

    /// Whatever a flat buffer decodes to is well formed.
    proof fn lemma_unflat_wf(b: Seq<u8>)
        ensures
            Self::unflat_spec(b) is Some ==> Self::unflat_spec(b)->0.inv(),
    ;

    /// Text round trip: scanning a value's printed form gives the value
    /// back, though the text form need not resemble the flat form.
    proof fn lemma_text_round_trip(&self)
        requires
            self.inv(),
        ensures
            Self::scan_spec(self.text_spec()) == Some(*self),
    ;

    /// Whatever a text buffer scans to is well formed.
    proof fn lemma_scan_wf(s: Seq<u8>)
        ensures
            Self::scan_spec(s) is Some ==> Self::scan_spec(s)->0.inv(),
    ;

    /// The printed form of a value fits a host-sized (32-bit) buffer
    /// budget, terminator included.
    proof fn lemma_text_len(&self)
        requires
            self.inv(),
        ensures
            self.text_spec().len() < 0xffff_ffff,
    ;

    /// Comparing a value with itself always yields `Equal`.
    proof fn lemma_cmp_equal(&self)
        requires
            self.inv(),
        ensures
            self.cmp_spec(self) == ArbCompare::Equal,
    ;

    /// Interpolation yields well-formed values.
    proof fn lemma_interpolate_wf(&self, other: &Self, w: Weight)
        requires
            self.inv(),
            other.inv(),
            w.wf(),
        ensures
            self.interpolate_spec(other, w).inv(),
    ;

    /// Interpolation at weight zero is the left operand; at weight one,
    /// the right operand.
    proof fn lemma_interpolate_ends(&self, other: &Self)
        requires
            self.inv(),
            other.inv(),
        ensures
            self.interpolate_spec(other, Weight { millionths: 0 }) == *self,
            self.interpolate_spec(other, Weight { millionths: WEIGHT_ONE }) == *other,
    ;

    /// Produce the default instance.
    fn arb_default() -> (r: Self)
        ensures
            r == Self::default_spec(),
    ;

    /// Encode the value into its flat form.
    fn flatten(&self) -> (r: Vec<u8>)
        requires
            self.inv(),
        ensures
            r@ == self.flat_spec(),
    ;

    /// Decode a flat buffer, if it holds exactly one value.
    fn unflatten(b: &Vec<u8>) -> (r: Option<Self>)
        ensures
            r == Self::unflat_spec(b@),
    ;

    /// Render the value's text form.
    fn print_text(&self) -> (r: Vec<u8>)
        requires
            self.inv(),
        ensures
            r@ == self.text_spec(),
    ;

    /// Parse a text buffer, if it holds exactly one printed value.
    fn scan_text(s: &Vec<u8>) -> (r: Option<Self>)
        ensures
            r == Self::scan_spec(s@),
    ;

    /// Interpolate between this value and another at a weight.
    fn interpolate(&self, other: &Self, w: Weight) -> (r: Self)
        requires
            self.inv(),
            other.inv(),
            w.wf(),
        ensures
            r == self.interpolate_spec(other, w),
    ;

    /// Compare this value with another under the type's total order.
    fn compare(&self, other: &Self) -> (r: ArbCompare)
        requires
            self.inv(),
            other.inv(),
        ensures
            r == self.cmp_spec(other),
    ;
}

} // verus!
