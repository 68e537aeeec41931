//! Decoding of the modifier bitset.
//!
//! A play's modifiers arrive as one `u32` with one bit per named
//! modifier. The clock-rate and difficulty multipliers derived from
//! them are floating-point and live with the callers; the bit queries
//! themselves are exact.

use vstd::prelude::*;

verus! {

pub const NF: u32 = 1 << 0;

pub const EZ: u32 = 1 << 1;

pub const TD: u32 = 1 << 2;

pub const HD: u32 = 1 << 3;

pub const HR: u32 = 1 << 4;

pub const DT: u32 = 1 << 6;

pub const RX: u32 = 1 << 7;

pub const HT: u32 = 1 << 8;

pub const FL: u32 = 1 << 10;

pub const SO: u32 = 1 << 12;

pub const AP: u32 = 1 << 13;

pub const SV2: u32 = 1 << 29;

/// Whether the bit `mask` is set in `mods`.
pub open spec fn has_mod(mods: u32, mask: u32) -> bool {
    mods & mask > 0
}

/// Queries on a modifier bitset.
pub trait Mods: Sized + Copy {
    /// The raw bits of the modifier set.
    spec fn spec_bits(self) -> u32;

    /// If the clock rate is affected by the mods.
    fn change_speed(self) -> (r: bool)
        ensures
            r == (has_mod(self.spec_bits(), HT) || has_mod(self.spec_bits(), DT)),
    ;

    /// If object times or positions are affected by the mods.
    fn change_map(self) -> (r: bool)
        ensures
            r == (has_mod(self.spec_bits(), HT) || has_mod(self.spec_bits(), DT) || has_mod(
                self.spec_bits(),
                HR,
            ) || has_mod(self.spec_bits(), EZ)),
    ;

    fn nf(self) -> (r: bool)
        ensures
            r == has_mod(self.spec_bits(), NF),
    ;

    fn ez(self) -> (r: bool)
        ensures
            r == has_mod(self.spec_bits(), EZ),
    ;

    fn td(self) -> (r: bool)
        ensures
            r == has_mod(self.spec_bits(), TD),
    ;

    fn hd(self) -> (r: bool)
        ensures
            r == has_mod(self.spec_bits(), HD),
    ;

    fn hr(self) -> (r: bool)
        ensures
            r == has_mod(self.spec_bits(), HR),
    ;

    fn dt(self) -> (r: bool)
        ensures
            r == has_mod(self.spec_bits(), DT),
    ;

    fn rx(self) -> (r: bool)
        ensures
            r == has_mod(self.spec_bits(), RX),
    ;

    fn ht(self) -> (r: bool)
        ensures
            r == has_mod(self.spec_bits(), HT),
    ;

    fn fl(self) -> (r: bool)
        ensures
            r == has_mod(self.spec_bits(), FL),
    ;

    fn so(self) -> (r: bool)
        ensures
            r == has_mod(self.spec_bits(), SO),
    ;

    fn ap(self) -> (r: bool)
        ensures
            r == has_mod(self.spec_bits(), AP),
    ;

    fn sv2(self) -> (r: bool)
        ensures
            r == has_mod(self.spec_bits(), SV2),
    ;
}

impl Mods for u32 {
    open spec fn spec_bits(self) -> u32 {
        self
    }

    fn change_speed(self) -> (r: bool) {
        self & HT > 0 || self & DT > 0
    }

    fn change_map(self) -> (r: bool) {
        self & HT > 0 || self & DT > 0 || self & HR > 0 || self & EZ > 0
    }

    fn nf(self) -> (r: bool) {
        self & NF > 0
    }

    fn ez(self) -> (r: bool) {
        self & EZ > 0
    }

    fn td(self) -> (r: bool) {
        self & TD > 0
    }

    fn hd(self) -> (r: bool) {
        self & HD > 0
    }

    fn hr(self) -> (r: bool) {
        self & HR > 0
    }

    fn dt(self) -> (r: bool) {
        self & DT > 0
    }

    fn rx(self) -> (r: bool) {
        self & RX > 0
    }

    fn ht(self) -> (r: bool) {
        self & HT > 0
    }

    fn fl(self) -> (r: bool) {
        self & FL > 0
    }

    fn so(self) -> (r: bool) {
        self & SO > 0
    }

    fn ap(self) -> (r: bool) {
        self & AP > 0
    }

    fn sv2(self) -> (r: bool) {
        self & SV2 > 0
    }
}

} // verus!
