//! The global laws of the library, proved once and for all: the
//! effective-property guarantees for non-dynamic bodies, and the exactness of
//! the mass-property algebra under a combine/remove round trip.

use crate::components::{Dominance, LockedAxes, RigidBody};
use crate::rational::{
    lemma_pos_mul, lemma_q_norm_some, lemma_rat_add_cong, lemma_rat_div_cong,
    lemma_rat_div_mul_cancel, lemma_rat_eq_sign, lemma_rat_eq_trans,
    lemma_rat_lt_cong, lemma_rat_mul_cong, lemma_rat_recip_cong, lemma_rat_sub_cong,
    q_sub_clamped, qadd, qdiv, qmul, qsub, rat_add, rat_div, rat_eps, rat_eq, rat_int, rat_le,
    rat_lt, rat_mul, rat_recip_or_zero, rat_sub, rat_wf, Rat,
};
use crate::vector::{vec_eq, vec_zero};
use crate::world_query::{
    combine_degenerate, combine_steps, mass_props_wf, remove_steps, spec_dominance,
    spec_effective_inv_inertia, spec_effective_inv_mass, MassProps,
};
use vstd::prelude::*;

verus! {

/// For every non-dynamic body kind and every locked-axes and dominance
/// configuration, the effective inverse mass and the effective inverse
/// inertia are exactly zero, and the dominance resolves to the maximum
/// representable priority.
pub proof fn lemma_non_dynamic_effective_properties(
    rb: RigidBody,
    inv_mass: Rat,
    inv_inertia: Rat,
    locked: Option<LockedAxes>,
    dom: Option<Dominance>,
)
    requires
        rb != RigidBody::Dynamic,
    ensures
        spec_effective_inv_mass(rb, inv_mass, locked) == vec_zero(),
        spec_effective_inv_inertia(rb, inv_inertia, locked) == rat_int(0),
        spec_dominance(rb, dom) == i8::MAX as int,
{
}

// ---------------------------------------------------------------------------
// Bridging one normalized step back to the exact arithmetic it performs.

proof fn lemma_wf_ops(a: Rat, b: Rat)
    requires
        rat_wf(a),
        rat_wf(b),
    ensures
        rat_wf(rat_add(a, b)),
        rat_wf(rat_sub(a, b)),
        rat_wf(rat_mul(a, b)),
{
    lemma_pos_mul(a.d, b.d);
}

proof fn lemma_wf_div(a: Rat, b: Rat)
    requires
        rat_wf(a),
        rat_wf(b),
        b.n != 0,
    ensures
        rat_wf(rat_div(a, b)),
{
    if b.n > 0 {
        lemma_pos_mul(a.d, b.n);
    } else {
        lemma_pos_mul(a.d, -b.n);
        assert(-(a.d * b.n) == a.d * (-b.n)) by (nonlinear_arith);
    }
}

proof fn lemma_qadd_val(a: Rat, b: Rat)
    requires
        rat_wf(a),
        rat_wf(b),
        qadd(Some(a), Some(b)) is Some,
    ensures
        rat_wf(qadd(Some(a), Some(b))->Some_0),
        rat_eq(qadd(Some(a), Some(b))->Some_0, rat_add(a, b)),
        qadd(Some(a), Some(b))->Some_0.n > 0 <==> rat_add(a, b).n > 0,
{
    lemma_wf_ops(a, b);
    lemma_q_norm_some(rat_add(a, b));
}

proof fn lemma_qsub_val(a: Rat, b: Rat)
    requires
        rat_wf(a),
        rat_wf(b),
        qsub(Some(a), Some(b)) is Some,
    ensures
        rat_wf(qsub(Some(a), Some(b))->Some_0),
        rat_eq(qsub(Some(a), Some(b))->Some_0, rat_sub(a, b)),
{
    lemma_wf_ops(a, b);
    lemma_q_norm_some(rat_sub(a, b));
}

proof fn lemma_qmul_val(a: Rat, b: Rat)
    requires
        rat_wf(a),
        rat_wf(b),
        qmul(Some(a), Some(b)) is Some,
    ensures
        rat_wf(qmul(Some(a), Some(b))->Some_0),
        rat_eq(qmul(Some(a), Some(b))->Some_0, rat_mul(a, b)),
{
    lemma_wf_ops(a, b);
    lemma_q_norm_some(rat_mul(a, b));
}

proof fn lemma_qdiv_val(a: Rat, b: Rat)
    requires
        rat_wf(a),
        rat_wf(b),
        b.n != 0,
        qdiv(Some(a), Some(b)) is Some,
    ensures
        rat_wf(qdiv(Some(a), Some(b))->Some_0),
        rat_eq(qdiv(Some(a), Some(b))->Some_0, rat_div(a, b)),
{
    lemma_wf_div(a, b);
    lemma_q_norm_some(rat_div(a, b));
}

proof fn lemma_q_sub_clamped_val(a: Rat, b: Rat)
    requires
        rat_wf(a),
        rat_wf(b),
        q_sub_clamped(Some(a), Some(b)) is Some,
        rat_sub(a, b).n >= 0,
    ensures
        rat_wf(q_sub_clamped(Some(a), Some(b))->Some_0),
        rat_eq(q_sub_clamped(Some(a), Some(b))->Some_0, rat_sub(a, b)),
{
    lemma_wf_ops(a, b);
    if rat_sub(a, b).n >= 0 {
        lemma_q_norm_some(rat_sub(a, b));
    }
}

// ---------------------------------------------------------------------------
// Small exact-arithmetic identities.

/// `(a + b) - b == a`.
proof fn lemma_add_sub_cancel(a: Rat, b: Rat) by (nonlinear_arith)
    requires
        rat_wf(a),
        rat_wf(b),
    ensures
        rat_eq(rat_sub(rat_add(a, b), b), a),
{
}

/// `(a * b) / b == a` for non-zero `b`.
proof fn lemma_mul_div_cancel(a: Rat, b: Rat) by (nonlinear_arith)
    requires
        rat_wf(a),
        rat_wf(b),
        b.n != 0,
    ensures
        rat_eq(rat_div(rat_mul(a, b), b), a),
{
}

// ---------------------------------------------------------------------------
// The round trip of the mass-property algebra.

/// Attaching a contribution and then detaching the same contribution
/// reproduces the original aggregate exactly in its mass, its cached inverse
/// mass, and its center of mass.
///
/// `p2` must be non-degenerate (non-negative mass) and the aggregate mass
/// must exceed the epsilon guard, so that both operations take their live
/// paths; the two `is Some` premises say the exact intermediate results stay
/// representable, which is what the executable operations require to apply.
pub proof fn lemma_combine_remove_round_trip(p1: MassProps, p2: MassProps)
    requires
        mass_props_wf(p1),
        mass_props_wf(p2),
        rat_lt(rat_eps(), p1.mass),
        rat_le(rat_int(0), p2.mass),
        combine_steps(p1, p2) is Some,
        remove_steps(combine_steps(p1, p2)->Some_0, p2) is Some,
    ensures
        !combine_degenerate(p1, p2),
        !combine_degenerate(combine_steps(p1, p2)->Some_0, p2),
        rat_eq(remove_steps(combine_steps(p1, p2)->Some_0, p2)->Some_0.mass, p1.mass),
        rat_eq(
            rat_recip_or_zero(remove_steps(combine_steps(p1, p2)->Some_0, p2)->Some_0.mass),
            rat_recip_or_zero(p1.mass),
        ),
        vec_eq(remove_steps(combine_steps(p1, p2)->Some_0, p2)->Some_0.com, p1.com),
{
    let m1 = p1.mass;
    let m2 = p2.mass;
    let msum = rat_add(m1, m2);
    let q = combine_steps(p1, p2)->Some_0;
    let r = remove_steps(q, p2)->Some_0;

    // The masses are positive (m1) and non-negative (m2), so their sum is
    // positive and neither guard fires.
    assert(m1.n > 0);
    assert(m2.n >= 0);
    lemma_wf_ops(m1, m2);
    assert(msum.n > 0) by (nonlinear_arith)
        requires
            msum.n == m1.n * m2.d + m2.n * m1.d,
            m1.n > 0,
            m2.n >= 0,
            m1.d > 0,
            m2.d > 0,
    ;

    // The combined mass.
    lemma_qadd_val(m1, m2);
    assert(rat_eq(q.mass, msum));
    assert(q.mass.n > 0);
    assert(rat_wf(q.mass));

    // The remaining mass after removal: `q.mass - m2`, equal in value to
    // `m1`, positive, and above the epsilon guard.
    lemma_wf_ops(q.mass, m2);
    lemma_wf_ops(msum, m2);
    lemma_rat_sub_cong(q.mass, m2, msum, m2);
    lemma_add_sub_cancel(m1, m2);
    lemma_rat_eq_trans(rat_sub(q.mass, m2), rat_sub(msum, m2), m1);
    assert(rat_eq(rat_sub(q.mass, m2), m1));
    lemma_rat_eq_sign(rat_sub(q.mass, m2), m1);
    assert(rat_sub(q.mass, m2).n > 0);
    lemma_q_sub_clamped_val(q.mass, m2);
    assert(rat_eq(r.mass, rat_sub(q.mass, m2)));
    lemma_rat_eq_trans(r.mass, rat_sub(q.mass, m2), m1);
    assert(rat_eq(r.mass, p1.mass));
    lemma_rat_recip_cong(r.mass, p1.mass);

    // Guards: the sums `m1 + m2` and `q.mass + m2` are both positive.
    assert(!combine_degenerate(p1, p2));
    lemma_wf_ops(msum, m2);
    lemma_rat_add_cong(q.mass, m2, msum, m2);
    let qsum = rat_add(q.mass, m2);
    lemma_wf_ops(q.mass, m2);
    assert(rat_add(msum, m2).n > 0) by (nonlinear_arith)
        requires
            msum.n > 0,
            msum.d > 0,
            m2.n >= 0,
            m2.d > 0,
            rat_add(msum, m2).n == msum.n * m2.d + m2.n * msum.d,
    ;
    lemma_rat_eq_sign(qsum, rat_add(msum, m2));
    assert(qsum.n > 0);
    assert(!combine_degenerate(q, p2));

    // The epsilon branch of the removal is taken: `nm > eps`.
    let nm = q_sub_clamped(Some(q.mass), Some(m2))->Some_0;
    assert(rat_eq(nm, m1) && rat_wf(nm)) by {
        lemma_q_sub_clamped_val(q.mass, m2);
        lemma_rat_eq_trans(nm, rat_sub(q.mass, m2), m1);
    };
    lemma_rat_lt_cong(rat_eps(), nm, rat_eps(), m1);
    assert(rat_lt(rat_eps(), nm));
    lemma_rat_eq_sign(nm, m1);
    assert(nm.n > 0);

    // The center of mass comes back exactly: per component,
    // `(C * M - c2 * m2) / nm == c1`.
    lemma_com_component(p1.com.x, p2.com.x, m1, m2, q.mass, q.com.x, nm, r.com.x);
    lemma_com_component(p1.com.y, p2.com.y, m1, m2, q.mass, q.com.y, nm, r.com.y);
}

/// One component of the center-of-mass round trip:
/// if `qc` is the stored combined center `(c1 m1 + c2 m2) / qm` and `rc` the
/// stored removed center `(qc qm - c2 m2) / nm`, with `qm == m1 + m2` and
/// `nm == m1` in value, then `rc == c1` in value.
proof fn lemma_com_component(
    c1: Rat,
    c2: Rat,
    m1: Rat,
    m2: Rat,
    qm: Rat,
    qc: Rat,
    nm: Rat,
    rc: Rat,
)
    requires
        rat_wf(c1),
        rat_wf(c2),
        rat_wf(m1),
        rat_wf(m2),
        rat_wf(qm),
        rat_wf(qc),
        rat_wf(nm),
        rat_wf(rc),
        m1.n > 0,
        qm.n > 0,
        nm.n > 0,
        rat_eq(qm, rat_add(m1, m2)),
        rat_eq(nm, m1),
        qmul(Some(c1), Some(m1)) is Some,
        qmul(Some(c2), Some(m2)) is Some,
        qadd(qmul(Some(c1), Some(m1)), qmul(Some(c2), Some(m2))) is Some,
        qc == qdiv(qadd(qmul(Some(c1), Some(m1)), qmul(Some(c2), Some(m2))), Some(qm))->Some_0,
        qdiv(qadd(qmul(Some(c1), Some(m1)), qmul(Some(c2), Some(m2))), Some(qm)) is Some,
        qmul(Some(qc), Some(qm)) is Some,
        qsub(qmul(Some(qc), Some(qm)), qmul(Some(c2), Some(m2))) is Some,
        rc == qdiv(qsub(qmul(Some(qc), Some(qm)), qmul(Some(c2), Some(m2))), Some(nm))->Some_0,
        qdiv(qsub(qmul(Some(qc), Some(qm)), qmul(Some(c2), Some(m2))), Some(nm)) is Some,
    ensures
        rat_eq(rc, c1),
{
    let u1 = qmul(Some(c1), Some(m1))->Some_0;
    let u2 = qmul(Some(c2), Some(m2))->Some_0;
    let t = qadd(qmul(Some(c1), Some(m1)), qmul(Some(c2), Some(m2)))->Some_0;
    lemma_qmul_val(c1, m1);
    lemma_qmul_val(c2, m2);
    lemma_qadd_val(u1, u2);
    lemma_qdiv_val(t, qm);
    // qc == t / qm in value.
    assert(rat_eq(qc, rat_div(t, qm)));

    // qc * qm == t in value.
    let w = qmul(Some(qc), Some(qm))->Some_0;
    lemma_qmul_val(qc, qm);
    lemma_wf_div(t, qm);
    lemma_wf_ops(qc, qm);
    lemma_rat_mul_cong(qc, qm, rat_div(t, qm), qm);
    lemma_rat_div_mul_cancel(t, qm);
    lemma_wf_ops(rat_div(t, qm), qm);
    lemma_rat_eq_trans(w, rat_mul(qc, qm), rat_mul(rat_div(t, qm), qm));
    lemma_rat_eq_trans(w, rat_mul(rat_div(t, qm), qm), t);
    assert(rat_eq(w, t));

    // w - u2 == u1 in value: t == u1 + u2 in value, and (x + y) - y == x.
    let s = qsub(qmul(Some(qc), Some(qm)), qmul(Some(c2), Some(m2)))->Some_0;
    lemma_qsub_val(w, u2);
    lemma_wf_ops(u1, u2);
    lemma_wf_ops(rat_add(u1, u2), u2);
    lemma_rat_eq_trans(w, t, rat_add(u1, u2));
    lemma_rat_sub_cong(w, u2, rat_add(u1, u2), u2);
    lemma_add_sub_cancel(u1, u2);
    lemma_wf_ops(w, u2);
    lemma_rat_eq_trans(s, rat_sub(w, u2), rat_sub(rat_add(u1, u2), u2));
    lemma_rat_eq_trans(s, rat_sub(rat_add(u1, u2), u2), u1);
    assert(rat_eq(s, u1));

    // rc == s / nm == (c1 m1) / m1 == c1 in value.
    lemma_qdiv_val(s, nm);
    lemma_wf_ops(c1, m1);
    lemma_rat_eq_trans(s, u1, rat_mul(c1, m1));
    lemma_rat_div_cong(s, nm, rat_mul(c1, m1), m1);
    lemma_wf_div(s, nm);
    lemma_wf_ops(c1, m1);
    lemma_wf_div(rat_mul(c1, m1), m1);
    lemma_mul_div_cancel(c1, m1);
    lemma_rat_eq_trans(rc, rat_div(s, nm), rat_div(rat_mul(c1, m1), m1));
    lemma_rat_eq_trans(rc, rat_div(rat_mul(c1, m1), m1), c1);
}

} // verus!
