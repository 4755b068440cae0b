//! Laws of the script executor: save/restore balance with a defined
//! underflow, the cycle guard, immediate-draw flag dispatch, paint
//! mutual-exclusion, and silent degradation on missing references.

use vstd::prelude::*;

use crate::canvas::{CallV, PaintV};
use crate::color::Color;
use crate::ops::OpV;
use crate::render::{fill_paint, run_ops, run_script, step_op};
use crate::resources::CachesV;
use crate::state::{GfxV, default_gfx, gfx_push, lemma_pop_of_push};

verus! {

/// `n` copies of one operation.
pub open spec fn reps(op: OpV, n: nat) -> Seq<OpV> {
    Seq::new(n, |k: int| op)
}

/// `n` state saves followed by `m` restores.
pub open spec fn saves_then_restores(n: nat, m: nat) -> Seq<OpV> {
    reps(OpV::PushState, n) + reps(OpV::PopState, m)
}

/// Running a concatenation runs the first part, then the second from the
/// state the first left behind.
pub proof fn lemma_run_append(
    scripts: Map<Seq<u8>, Seq<OpV>>,
    c: CachesV,
    stack: Seq<Seq<u8>>,
    g: GfxV,
    a: Seq<OpV>,
    b: Seq<OpV>,
)
    requires
        scripts.dom().finite(),
    ensures
        ({
            let first = run_ops(scripts, c, stack, g, a);
            let second = run_ops(scripts, c, stack, first.0, b);
            run_ops(scripts, c, stack, g, a + b) == (second.0, first.1 + second.1)
        }),
    decreases a.len(),
{
    let first = run_ops(scripts, c, stack, g, a);
    let second = run_ops(scripts, c, stack, first.0, b);
    if a.len() == 0 {
        assert(a + b =~= b);
        assert(Seq::<CallV>::empty() + second.1 =~= second.1);
    } else {
        assert((a + b)[0] == a[0]);
        assert((a + b).drop_first() =~= a.drop_first() + b);
        match a[0] {
            OpV::DrawScript(id) => {
                let (g1, c1) = run_script(scripts, c, stack, g, id);
                lemma_run_append(scripts, c, stack, g1, a.drop_first(), b);
                let rest_first = run_ops(scripts, c, stack, g1, a.drop_first());
                assert(c1 + (rest_first.1 + second.1) =~= (c1 + rest_first.1) + second.1);
            },
            _ => {
                let (g1, c1) = step_op(c, g, a[0]);
                lemma_run_append(scripts, c, stack, g1, a.drop_first(), b);
                let rest_first = run_ops(scripts, c, stack, g1, a.drop_first());
                assert(c1 + (rest_first.1 + second.1) =~= (c1 + rest_first.1) + second.1);
            },
        }
    }
}

/// With no snapshot saved, any number of restores changes nothing and
/// issues no canvas call.
pub proof fn lemma_restores_are_noops_when_empty(
    scripts: Map<Seq<u8>, Seq<OpV>>,
    c: CachesV,
    stack: Seq<Seq<u8>>,
    g: GfxV,
    m: nat,
)
    requires
        scripts.dom().finite(),
        g.stack.len() == 0,
    ensures
        run_ops(scripts, c, stack, g, reps(OpV::PopState, m)) == (g, Seq::<CallV>::empty()),
    decreases m,
{
    if m > 0 {
        assert(reps(OpV::PopState, m)[0] == OpV::PopState);
        assert(reps(OpV::PopState, m).drop_first() =~= reps(OpV::PopState, (m - 1) as nat));
        lemma_restores_are_noops_when_empty(scripts, c, stack, g, (m - 1) as nat);
        assert(Seq::<CallV>::empty() + Seq::<CallV>::empty() =~= Seq::<CallV>::empty());
    }
}

/// `n` saves followed by exactly `n` restores return the graphics state to
/// where it started, issuing `n` canvas saves then `n` canvas restores.
#[verifier::rlimit(100)]
pub proof fn lemma_balanced_saves_restores(
    scripts: Map<Seq<u8>, Seq<OpV>>,
    c: CachesV,
    stack: Seq<Seq<u8>>,
    g: GfxV,
    n: nat,
)
    requires
        scripts.dom().finite(),
    ensures
        run_ops(scripts, c, stack, g, reps(OpV::PushState, n) + reps(OpV::PopState, n)) == (
            g,
            reps_call(CallV::Save, n) + reps_call(CallV::Restore, n),
        ),
    decreases n,
{
    reveal_with_fuel(run_ops, 2);
    let ops = reps(OpV::PushState, n) + reps(OpV::PopState, n);
    if n == 0 {
        assert(ops =~= Seq::<OpV>::empty());
        assert(reps_call(CallV::Save, 0) + reps_call(CallV::Restore, 0) =~= Seq::<
            CallV,
        >::empty());
    } else {
        let inner = reps(OpV::PushState, (n - 1) as nat) + reps(OpV::PopState, (n - 1) as nat);
        assert(ops =~= seq![OpV::PushState] + (inner + seq![OpV::PopState]));
        lemma_run_append(
            scripts,
            c,
            stack,
            g,
            seq![OpV::PushState],
            inner + seq![OpV::PopState],
        );
        assert(run_ops(scripts, c, stack, g, seq![OpV::PushState]) == (
            gfx_push(g),
            seq![CallV::Save],
        )) by {
            assert(seq![OpV::PushState].drop_first() =~= Seq::<OpV>::empty());
            assert(seq![CallV::Save] + Seq::<CallV>::empty() =~= seq![CallV::Save]);
        }
        lemma_run_append(scripts, c, stack, gfx_push(g), inner, seq![OpV::PopState]);
        lemma_balanced_saves_restores(scripts, c, stack, gfx_push(g), (n - 1) as nat);
        assert(run_ops(scripts, c, stack, gfx_push(g), seq![OpV::PopState]) == (
            g,
            seq![CallV::Restore],
        )) by {
            lemma_pop_of_push(g);
            assert(gfx_push(g).stack.len() > 0);
            assert(seq![OpV::PopState].drop_first() =~= Seq::<OpV>::empty());
            assert(seq![CallV::Restore] + Seq::<CallV>::empty() =~= seq![CallV::Restore]);
        }
        assert(seq![CallV::Save] + ((reps_call(CallV::Save, (n - 1) as nat) + reps_call(
            CallV::Restore,
            (n - 1) as nat,
        )) + seq![CallV::Restore]) =~= reps_call(CallV::Save, n) + reps_call(
            CallV::Restore,
            n,
        ));
    }
}

/// `n` copies of one canvas call.
pub open spec fn reps_call(call: CallV, n: nat) -> Seq<CallV> {
    Seq::new(n, |k: int| call)
}

/// From a fresh graphics state, `n` saves followed by `m >= n` restores
/// never fail: the extra restores are no-ops, every state field settles
/// back to the default state, and the canvas sees exactly `n` saves and
/// `n` restores.
pub proof fn lemma_save_restore_underflow(
    scripts: Map<Seq<u8>, Seq<OpV>>,
    c: CachesV,
    stack: Seq<Seq<u8>>,
    n: nat,
    m: nat,
)
    requires
        scripts.dom().finite(),
        m >= n,
    ensures
        run_ops(scripts, c, stack, default_gfx(), saves_then_restores(n, m)) == (
            default_gfx(),
            reps_call(CallV::Save, n) + reps_call(CallV::Restore, n),
        ),
{
    let balanced = reps(OpV::PushState, n) + reps(OpV::PopState, n);
    let extra = reps(OpV::PopState, (m - n) as nat);
    assert(saves_then_restores(n, m) =~= balanced + extra);
    lemma_run_append(scripts, c, stack, default_gfx(), balanced, extra);
    lemma_balanced_saves_restores(scripts, c, stack, default_gfx(), n);
    lemma_restores_are_noops_when_empty(scripts, c, stack, default_gfx(), (m - n) as nat);
    assert((reps_call(CallV::Save, n) + reps_call(CallV::Restore, n)) + Seq::<CallV>::empty()
        =~= reps_call(CallV::Save, n) + reps_call(CallV::Restore, n));
}

/// No operation in the list references another script.
pub open spec fn no_script(ops: Seq<OpV>) -> bool {
    forall|k: int| 0 <= k < ops.len() ==> !(#[trigger] ops[k] is DrawScript)
}

/// A script-reference-free operation list runs the same whatever scripts
/// are stored and whatever is on the "currently executing" stack.
pub proof fn lemma_no_script_runs_anywhere(
    s1: Map<Seq<u8>, Seq<OpV>>,
    s2: Map<Seq<u8>, Seq<OpV>>,
    c: CachesV,
    st1: Seq<Seq<u8>>,
    st2: Seq<Seq<u8>>,
    g: GfxV,
    ops: Seq<OpV>,
)
    requires
        s1.dom().finite(),
        s2.dom().finite(),
        no_script(ops),
    ensures
        run_ops(s1, c, st1, g, ops) == run_ops(s2, c, st2, g, ops),
    decreases ops.len(),
{
    if ops.len() > 0 {
        assert(!(ops[0] is DrawScript));
        let (g1, c1) = step_op(c, g, ops[0]);
        assert(no_script(ops.drop_first())) by {
            assert(forall|k: int|
                0 <= k < ops.drop_first().len() ==> ops.drop_first()[k] == ops[k + 1]);
        }
        lemma_no_script_runs_anywhere(s1, s2, c, st1, st2, g1, ops.drop_first());
    }
}

/// The cycle guard: a script that references a second script which
/// references the first back terminates and renders exactly the non-cyclic
/// portion once.  The back-reference contributes no state change and no
/// canvas call.
pub proof fn lemma_cycle_renders_once(
    scripts: Map<Seq<u8>, Seq<OpV>>,
    c: CachesV,
    g: GfxV,
    a: Seq<u8>,
    b: Seq<u8>,
    body: Seq<OpV>,
)
    requires
        scripts.dom().finite(),
        a != b,
        scripts.dom().contains(a),
        scripts.dom().contains(b),
        scripts[a] == seq![OpV::DrawScript(b)],
        scripts[b] == body + seq![OpV::DrawScript(a)],
        no_script(body),
    ensures
        run_script(scripts, c, Seq::empty(), g, a) == run_ops(
            scripts,
            c,
            Seq::empty(),
            g,
            body,
        ),
{
    reveal_with_fuel(run_ops, 3);
    reveal_with_fuel(run_script, 2);
    let empty_stack = Seq::<Seq<u8>>::empty();
    let st_a = empty_stack.push(a);
    let st_ab = st_a.push(b);
    assert(!empty_stack.contains(a));
    // Running `a` runs its single reference to `b`.
    assert(run_script(scripts, c, empty_stack, g, a) == run_ops(
        scripts,
        c,
        st_a,
        g,
        seq![OpV::DrawScript(b)],
    ));
    // Running `b` runs its body, then the guarded back-reference to `a`.
    assert(!st_a.contains(b)) by {
        assert(st_a.len() == 1);
        assert(st_a[0] == a);
    }
    lemma_run_append(scripts, c, st_ab, g, body, seq![OpV::DrawScript(a)]);
    let after_body = run_ops(scripts, c, st_ab, g, body);
    assert(st_ab.contains(a)) by {
        assert(st_ab[0] == a);
    }
    // The back-reference is skipped: `a` is already executing.
    assert(run_ops(scripts, c, st_ab, after_body.0, seq![OpV::DrawScript(a)]) == (
        after_body.0,
        Seq::<CallV>::empty(),
    )) by {
        assert(seq![OpV::DrawScript(a)].drop_first() =~= Seq::<OpV>::empty());
        assert(Seq::<CallV>::empty() + Seq::<CallV>::empty() =~= Seq::<CallV>::empty());
    }
    assert(scripts[b] =~= body + seq![OpV::DrawScript(a)]);
    assert(run_script(scripts, c, st_a, g, b) == (
        after_body.0,
        after_body.1 + Seq::<CallV>::empty(),
    ));
    assert(after_body.1 + Seq::<CallV>::empty() =~= after_body.1);
    // One reference op in `a`'s program, then nothing after it.
    assert(run_ops(scripts, c, st_a, g, seq![OpV::DrawScript(b)]) == (
        after_body.0,
        after_body.1 + Seq::<CallV>::empty(),
    )) by {
        assert(seq![OpV::DrawScript(b)].drop_first() =~= Seq::<OpV>::empty());
    }
    lemma_no_script_runs_anywhere(scripts, scripts, c, st_ab, empty_stack, g, body);
}

/// A rectangle draw with the fill-only flag issues exactly one canvas
/// call, a fill, and no stroke call; the fill-and-stroke flag issues
/// exactly the fill call then the stroke call.  Neither changes the
/// graphics state.
pub proof fn lemma_rect_flag_dispatch(c: CachesV, g: GfxV, width: u32, height: u32)
    ensures
        step_op(c, g, OpV::DrawRect { width, height, flag: 0x01 }) == (
            g,
            seq![CallV::DrawRect { width, height, paint: fill_paint(g) }],
        ),
        step_op(c, g, OpV::DrawRect { width, height, flag: 0x03 }) == (
            g,
            seq![
                CallV::DrawRect { width, height, paint: fill_paint(g) },
                CallV::DrawRect { width, height, paint: crate::render::stroke_paint(g) },
            ],
        ),
{
    assert(0x01u16 & 0x01 == 0x01 && 0x01u16 & 0x02 != 0x02 && 0x03u16 & 0x01 == 0x01
        && 0x03u16 & 0x02 == 0x02) by (bit_vector);
    assert(seq![CallV::DrawRect { width, height, paint: fill_paint(g) }] + Seq::<
        CallV,
    >::empty() =~= seq![CallV::DrawRect { width, height, paint: fill_paint(g) }]);
    assert(seq![CallV::DrawRect { width, height, paint: fill_paint(g) }] + seq![
        CallV::DrawRect { width, height, paint: crate::render::stroke_paint(g) },
    ] =~= seq![
        CallV::DrawRect { width, height, paint: fill_paint(g) },
        CallV::DrawRect { width, height, paint: crate::render::stroke_paint(g) },
    ]);
}

/// Assigning a flat fill color clears any fill shader: every later fill
/// resolves to the flat color alone, whatever paint was assigned before.
pub proof fn lemma_flat_fill_clears_shader(c: CachesV, g: GfxV, color: Color)
    ensures
        step_op(c, g, OpV::FillColor(color)).0.fill_shader is None,
        step_op(c, g, OpV::FillColor(color)).0.fill_color == color,
        fill_paint(step_op(c, g, OpV::FillColor(color)).0) == (PaintV::Fill {
            color,
            shader: None,
        }),
{
}

/// A reference to an identifier that is not stored draws nothing and
/// leaves the graphics state untouched.
pub proof fn lemma_missing_script_is_skipped(
    scripts: Map<Seq<u8>, Seq<OpV>>,
    c: CachesV,
    stack: Seq<Seq<u8>>,
    g: GfxV,
    id: Seq<u8>,
)
    requires
        scripts.dom().finite(),
        !scripts.dom().contains(id),
    ensures
        run_script(scripts, c, stack, g, id) == (g, Seq::<CallV>::empty()),
{
}

} // verus!
