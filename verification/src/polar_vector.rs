//! Canonical polar vectors.
//!
//! A [`PolarVec`] is a radius in whole metres together with an azimuth `phi`
//! and a polar angle `theta`, both in whole degrees.  Every value of the type
//! is kept in the canonical form produced by [`canon_spec`], so two
//! constructions that describe the same physical point compare equal.
//! Equality is exact component equality on the canonical triple; the total
//! order compares `phi`, then `theta`, then the radius.

use vstd::prelude::*;

verus! {

use core::cmp::Ordering;
use crate::constants::{WORLD_ORIGIN_X, WORLD_ORIGIN_Y, WORLD_ORIGIN_Z};
use crate::ordering::{lex3_cmp, lemma_lex3_antisymmetric, lemma_lex3_equal_iff,
    lemma_lex3_transitive};
use vstd::arithmetic::div_mod::{lemma_fundamental_div_mod, lemma_mod_bound,
    lemma_mod_multiples_vanish, lemma_small_mod};
use vstd::std_specs::cmp::PartialOrdSpec;

/// The normalization that every stored triple has gone through, applied in
/// this order:
///
/// 1. wrap `phi` into `[0, 360)` and `theta` into `[0, 180)` by Euclidean
///    remainder (a `theta` of 180 therefore folds to 0 here);
/// 2. a zero radius has no direction: force both angles to 0;
/// 3. otherwise a vector along the polar axis (`theta == 0`) has no defined
///    azimuth: force `phi` to 0;
/// 4. a negative radius points the opposite way: replace the triple by the
///    antipodal one with the radius made non-negative.
pub open spec fn canon_spec(r: int, phi: int, theta: int) -> (int, int, int) {
    let phi_w = phi % 360;
    let theta_w = theta % 180;
    if r == 0 {
        (0int, 0int, 0int)
    } else {
        let phi_c: int = if theta_w == 0 {
            0
        } else {
            phi_w
        };
        if r < 0 {
            (-r, (phi_c + 180) % 360, 180 - theta_w)
        } else {
            (r, phi_c, theta_w)
        }
    }
}

/// The shapes a triple can have after normalization: the origin, a general
/// direction with both angles strictly inside their ranges, the positive
/// polar axis, or the negative polar axis (the one triple whose `theta` is
/// exactly 180, produced by rule 4 from a wrapped `theta` of 0).
pub open spec fn is_canonical(t: (int, int, int)) -> bool {
    ||| t == (0int, 0int, 0int)
    ||| (t.0 > 0 && 0 <= t.1 < 360 && 0 < t.2 < 180)
    ||| (t.0 > 0 && t.1 == 0 && t.2 == 0)
    ||| (t.0 > 0 && t.1 == 180 && t.2 == 180)
}

/// A polar vector in canonical form: radius `r` in metres, azimuth `phi` and
/// polar angle `theta` in degrees.
#[derive(Clone, Copy, Debug, PartialEq, Eq, Structural)]
pub struct PolarVec {
    r: i64,
    phi: i64,
    theta: i64,
}

impl View for PolarVec {
    type V = (int, int, int);

    closed spec fn view(&self) -> (int, int, int) {
        (self.r as int, self.phi as int, self.theta as int)
    }
}

impl PolarVec {
    #[verifier::type_invariant]
    spec fn wf(self) -> bool {
        is_canonical(self@)
    }

    /// The comparison key: azimuth first, then polar angle, then radius.
    pub open spec fn key(self) -> (int, int, int) {
        (self@.1, self@.2, self@.0)
    }

    /// Builds the canonical vector for the given triple.  Out-of-range or
    /// negative inputs are folded into range, never rejected.
    pub fn new(r: i64, phi: i64, theta: i64) -> (v: PolarVec)
        requires
            r > i64::MIN,
        ensures
            v@ == canon_spec(r as int, phi as int, theta as int),
    {
        let phi_w: i64 = phi.checked_rem_euclid(360).unwrap();
        let theta_w: i64 = theta.checked_rem_euclid(180).unwrap();
        proof {
            lemma_mod_bound(phi as int, 360);
            lemma_mod_bound(theta as int, 180);
        }
        let mut rr: i64 = r;
        let mut pp: i64 = phi_w;
        let mut tt: i64 = theta_w;
        if rr == 0 {
            pp = 0;
            tt = 0;
        } else if tt == 0 {
            pp = 0;
        }
        if rr < 0 {
            rr = -rr;
            pp = (pp + 180) % 360;
            tt = 180 - tt;
        }
        let v = PolarVec { r: rr, phi: pp, theta: tt };
        proof {
            lemma_canon_canonical(r as int, phi as int, theta as int);
        }
        v
    }

    /// The world origin read as a polar triple and canonicalized.
    pub fn get_world_origin() -> (v: PolarVec)
        ensures
            v@ == canon_spec(WORLD_ORIGIN_X as int, WORLD_ORIGIN_Y as int, WORLD_ORIGIN_Z as int),
    {
        PolarVec::new(WORLD_ORIGIN_X, WORLD_ORIGIN_Y, WORLD_ORIGIN_Z)
    }

    /// The radius, in metres.
    pub fn get_radius_in_m(&self) -> (r: i64)
        ensures
            r == self@.0,
    {
        self.r
    }

    /// The radius, in metres, under its shorter name.
    pub fn get_radius(&self) -> (r: i64)
        ensures
            r == self@.0,
    {
        self.r
    }

    /// The azimuth, in degrees.
    pub fn get_phi_in_deg(&self) -> (r: i64)
        ensures
            r == self@.1,
    {
        self.phi
    }

    /// The polar angle, in degrees.
    pub fn get_theta_in_deg(&self) -> (r: i64)
        ensures
            r == self@.2,
    {
        self.theta
    }

    /// The signed raw azimuth difference `other.phi - self.phi`, with no
    /// wraparound correction: a difference near the 0/360 boundary is not
    /// shortest-path.
    pub fn get_angle_difference_phi(&self, other: &Self) -> (r: i64)
        ensures
            r == other@.1 - self@.1,
    {
        proof {
            use_type_invariant(&*self);
            use_type_invariant(&*other);
        }
        other.phi - self.phi
    }

    /// The signed raw polar-angle difference `other.theta - self.theta`.
    pub fn get_angle_difference_theta(&self, other: &Self) -> (r: i64)
        ensures
            r == other@.2 - self@.2,
    {
        proof {
            use_type_invariant(&*self);
            use_type_invariant(&*other);
        }
        other.theta - self.theta
    }

    /// Total comparison: equality first, then `phi`, `theta` and the radius
    /// in turn.
    pub fn cmp(&self, other: &Self) -> (r: Ordering)
        ensures
            r == lex3_cmp(self.key(), other.key()),
    {
        if *self == *other {
            Ordering::Equal
        } else if self.phi != other.phi {
            if self.phi > other.phi {
                Ordering::Greater
            } else {
                Ordering::Less
            }
        } else if self.theta != other.theta {
            if self.theta > other.theta {
                Ordering::Greater
            } else {
                Ordering::Less
            }
        } else {
            if self.r > other.r {
                Ordering::Greater
            } else {
                Ordering::Less
            }
        }
    }
}

impl PartialOrd for PolarVec {
    /// Agrees with [`PolarVec::cmp`] on every pair of vectors.
    fn partial_cmp(&self, other: &Self) -> (r: Option<Ordering>) {
        Some(self.cmp(other))
    }
}

impl vstd::std_specs::cmp::PartialOrdSpecImpl for PolarVec {
    open spec fn obeys_partial_cmp_spec() -> bool {
        true
    }

    open spec fn partial_cmp_spec(&self, other: &Self) -> Option<Ordering> {
        Some(lex3_cmp(self.key(), other.key()))
    }
}

/// Two polar vectors are equal exactly when their canonical triples are.
pub proof fn lemma_polar_eq_is_triple_eq(a: PolarVec, b: PolarVec)
    ensures
        a == b <==> a@ == b@,
{
}

/// The normalization always lands in canonical form.
pub proof fn lemma_canon_canonical(r: int, phi: int, theta: int)
    ensures
        is_canonical(canon_spec(r, phi, theta)),
{
    lemma_mod_bound(phi, 360);
    lemma_mod_bound(theta, 180);
    if r != 0 {
        let theta_w = theta % 180;
        let phi_c: int = if theta_w == 0 {
            0
        } else {
            phi % 360
        };
        if r < 0 {
            lemma_mod_bound(phi_c + 180, 360);
            if theta_w == 0 {
                lemma_small_mod(180nat, 360nat);
            }
        }
    }
}

/// Normalizing an already normalized triple changes nothing.  The one
/// exception is the negative polar axis: its canonical triple has `theta`
/// exactly 180, which rule 1 would fold back to the positive axis, so inputs
/// that canonicalize there (a negative radius with a wrapped `theta` of 0)
/// are left out.
pub proof fn lemma_canon_idempotent(r: int, phi: int, theta: int)
    requires
        !(r < 0 && theta % 180 == 0),
    ensures
        ({
            let c = canon_spec(r, phi, theta);
            canon_spec(c.0, c.1, c.2) == c
        }),
{
    lemma_canon_canonical(r, phi, theta);
    let c = canon_spec(r, phi, theta);
    if c.0 > 0 {
        lemma_small_mod(c.1 as nat, 360nat);
        lemma_small_mod(c.2 as nat, 180nat);
    }
}

/// Shifting the azimuth by whole turns does not change the canonical triple.
pub proof fn lemma_canon_phi_period(r: int, phi: int, theta: int, k: int)
    ensures
        canon_spec(r, phi + 360 * k, theta) == canon_spec(r, phi, theta),
{
    lemma_mod_multiples_vanish(k, phi, 360);
}

/// Shifting the polar angle by whole turns does not change the canonical
/// triple.
pub proof fn lemma_canon_theta_period(r: int, phi: int, theta: int, k: int)
    ensures
        canon_spec(r, phi, theta + 360 * k) == canon_spec(r, phi, theta),
{
    assert(theta + 360 * k == 180 * (2 * k) + theta) by (nonlinear_arith);
    lemma_mod_multiples_vanish(2 * k, theta, 180);
}

/// A negative radius means the antipodal point: negating the radius is the
/// same as turning the azimuth half a circle and reflecting the polar angle.
/// The polar axis itself is left out: there the reflected triple lands on
/// the opposite axis form and the two canonical triples differ.
pub proof fn lemma_canon_negation(r: int, phi: int, theta: int)
    requires
        theta % 180 != 0,
    ensures
        canon_spec(-r, phi, theta) == canon_spec(r, phi + 180, 180 - theta),
{
    lemma_mod_bound(phi, 360);
    lemma_mod_bound(theta, 180);
    let w = theta % 180;
    // (180 - theta) % 180 == 180 - w
    lemma_fundamental_div_mod(theta, 180);
    let q = theta / 180;
    assert(180 - theta == 180 * (-q) + (180 - w)) by (nonlinear_arith)
        requires
            theta == 180 * q + w,
    ;
    lemma_mod_multiples_vanish(-q, 180 - w, 180);
    lemma_small_mod((180 - w) as nat, 180nat);
    assert((180 - theta) % 180 == 180 - w);
    // (phi + 180) % 360 == ((phi % 360) + 180) % 360
    lemma_fundamental_div_mod(phi, 360);
    let m = phi % 360;
    let p = phi / 360;
    assert(phi + 180 == 360 * p + (m + 180)) by (nonlinear_arith)
        requires
            phi == 360 * p + m,
    ;
    lemma_mod_multiples_vanish(p, m + 180, 360);
    assert((phi + 180) % 360 == (m + 180) % 360);
    if r < 0 {
        // flipping on the right-hand side undoes the half turn
        let n = (m + 180) % 360;
        lemma_small_mod(m as nat, 360nat);
        if m < 180 {
            lemma_small_mod((m + 180) as nat, 360nat);
            assert(n == m + 180);
            lemma_mod_multiples_vanish(1, m, 360);
            assert((n + 180) % 360 == m);
        } else {
            lemma_mod_multiples_vanish(1, m - 180, 360);
            lemma_small_mod((m - 180) as nat, 360nat);
            assert(n == m - 180);
            assert((n + 180) % 360 == m);
        }
    }
}

/// Pole collapse: with a non-negative radius, any azimuth at either pole
/// canonicalizes to azimuth 0, so all triples naming a pole agree.
pub proof fn lemma_canon_pole_collapse(r: int, phi: int)
    requires
        r >= 0,
    ensures
        canon_spec(r, phi, 0) == canon_spec(r, 0, 0),
        canon_spec(r, phi, 180) == canon_spec(r, 0, 0),
        canon_spec(r, phi, 0).1 == 0,
        canon_spec(r, phi, 180).1 == 0,
{
    lemma_small_mod(0nat, 180nat);
    lemma_mod_multiples_vanish(1, 0, 180);
    lemma_small_mod(0nat, 360nat);
}

/// Zero collapse: the origin has no direction, whatever angles are offered.
pub proof fn lemma_canon_zero_collapse(phi: int, theta: int)
    ensures
        canon_spec(0, phi, theta) == (0int, 0int, 0int),
{
}

/// `cmp` and `partial_cmp` agree: on any two polar vectors, `partial_cmp`
/// is bound by its contract to return `Some` of exactly the ordering that
/// `cmp` returns.
pub proof fn lemma_polar_cmp_partial_cmp_agree(a: PolarVec, b: PolarVec)
    ensures
        PolarVec::obeys_partial_cmp_spec(),
        a.partial_cmp_spec(&b) == Some(lex3_cmp(a.key(), b.key())),
{
}

/// The comparison reports `Equal` exactly on equal polar vectors.
pub proof fn lemma_polar_cmp_equal_iff(a: PolarVec, b: PolarVec)
    ensures
        lex3_cmp(a.key(), b.key()) == Ordering::Equal <==> a == b,
{
    lemma_lex3_equal_iff(a.key(), b.key());
}

/// Antisymmetry of the polar order.
pub proof fn lemma_polar_cmp_antisymmetric(a: PolarVec, b: PolarVec)
    ensures
        lex3_cmp(a.key(), b.key()) == Ordering::Less <==> lex3_cmp(b.key(), a.key())
            == Ordering::Greater,
{
    lemma_lex3_antisymmetric(a.key(), b.key());
}

/// Transitivity of the polar order.
pub proof fn lemma_polar_cmp_transitive(a: PolarVec, b: PolarVec, c: PolarVec)
    requires
        lex3_cmp(a.key(), b.key()) == Ordering::Less,
        lex3_cmp(b.key(), c.key()) == Ordering::Less,
    ensures
        lex3_cmp(a.key(), c.key()) == Ordering::Less,
{
    lemma_lex3_transitive(a.key(), b.key(), c.key());
}

} // verus!
