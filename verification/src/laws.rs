use vstd::prelude::*;
use crate::controller::Phase;
use crate::errors::FatalError;
use crate::pipeline::{
    countdown_steps, match_outcome, match_trace, prepare_error, scan_outcome, scan_trace,
    spec_outcome, spec_trace, LoadVariant, Step, VolumeModel,
};

verus! {

/// How many steps of `t` satisfy `pred`.
pub open spec fn count_matching(t: Seq<Step>, pred: spec_fn(Step) -> bool) -> int
    decreases t.len(),
{
    if t.len() == 0 {
        0
    } else {
        (if pred(t[0]) {
            1int
        } else {
            0int
        }) + count_matching(t.skip(1), pred)
    }
}

/// The step is an inspection of some volume.
pub open spec fn is_inspect() -> spec_fn(Step) -> bool {
    |s: Step| s is Inspect
}

/// The step is a load of some volume's image.
pub open spec fn is_load() -> spec_fn(Step) -> bool {
    |s: Step| s is Load
}

/// The step is a fatal report.
pub open spec fn is_fatal() -> spec_fn(Step) -> bool {
    |s: Step| s is Fatal
}

/// Which volume an inspection step touched.
pub open spec fn inspect_index(s: Step) -> int
    recommends
        s is Inspect,
{
    match s {
        Step::Inspect { index } => index as int,
        _ => 0,
    }
}

/// The error a halted pipeline stopped with.
pub open spec fn halted_error(p: Phase) -> FatalError
    recommends
        p is Halted,
{
    match p {
        Phase::Halted { error } => error,
        _ => FatalError::NotFound,
    }
}

pub proof fn lemma_count_matching_nonneg(t: Seq<Step>, pred: spec_fn(Step) -> bool)
    ensures
        count_matching(t, pred) >= 0,
    decreases t.len(),
{
    if t.len() > 0 {
        lemma_count_matching_nonneg(t.skip(1), pred);
    }
}

pub proof fn lemma_count_matching_add(a: Seq<Step>, b: Seq<Step>, pred: spec_fn(Step) -> bool)
    ensures
        count_matching(a + b, pred) == count_matching(a, pred) + count_matching(b, pred),
    decreases a.len(),
{
    if a.len() == 0 {
        assert(a + b =~= b);
    } else {
        assert((a + b).skip(1) =~= a.skip(1) + b);
        lemma_count_matching_add(a.skip(1), b, pred);
    }
}

pub proof fn lemma_count_matching_one(s: Step, pred: spec_fn(Step) -> bool)
    ensures
        count_matching(seq![s], pred) == (if pred(s) {
            1int
        } else {
            0int
        }),
{
    assert(seq![s].skip(1) =~= Seq::<Step>::empty());
    assert(count_matching(Seq::<Step>::empty(), pred) == 0);
}

pub proof fn lemma_count_matching_two(s0: Step, s1: Step, pred: spec_fn(Step) -> bool)
    ensures
        count_matching(seq![s0, s1], pred) == (if pred(s0) {
            1int
        } else {
            0int
        }) + (if pred(s1) {
            1int
        } else {
            0int
        }),
{
    assert(seq![s0, s1] =~= seq![s0] + seq![s1]);
    lemma_count_matching_add(seq![s0], seq![s1], pred);
    lemma_count_matching_one(s0, pred);
    lemma_count_matching_one(s1, pred);
}

/// A count is zero exactly when no step matches.
pub proof fn lemma_count_matching_zero(t: Seq<Step>, pred: spec_fn(Step) -> bool)
    ensures
        (count_matching(t, pred) == 0) <==> (forall|k: int|
            0 <= k < t.len() ==> !pred(#[trigger] t[k])),
    decreases t.len(),
{
    if t.len() > 0 {
        lemma_count_matching_nonneg(t.skip(1), pred);
        lemma_count_matching_zero(t.skip(1), pred);
        if count_matching(t, pred) == 0 {
            assert forall|k: int| 0 <= k < t.len() implies !pred(t[k]) by {
                if k > 0 {
                    assert(t.skip(1)[k - 1] == t[k]);
                }
            }
        } else {
            if forall|k: int| 0 <= k < t.len() ==> !pred(#[trigger] t[k]) {
                assert forall|k: int| 0 <= k < t.skip(1).len() implies !pred(t.skip(1)[k]) by {
                    assert(t.skip(1)[k] == t[k + 1]);
                    assert(!pred(t[k + 1]));
                }
                assert(count_matching(t.skip(1), pred) == 0);
                assert(false);
            }
        }
    }
}

/// No step of the countdown is an inspection, a load, or a fatal report.
pub proof fn lemma_countdown_steps_counts(pred: spec_fn(Step) -> bool)
    requires
        forall|k: int| 0 <= k < 6 ==> !pred(#[trigger] countdown_steps()[k]),
    ensures
        count_matching(countdown_steps(), pred) == 0,
{
    lemma_count_matching_zero(countdown_steps(), pred);
}

/// The step profile of the handoff tail for a matched volume: no inspections,
/// one load exactly when preparation and loading both succeed, one fatal
/// report exactly when the handoff does not go through.
pub proof fn lemma_match_trace_counts(v: VolumeModel, index: int, variant: LoadVariant)
    ensures
        count_matching(match_trace(v, index, variant), is_inspect()) == 0,
        count_matching(match_trace(v, index, variant), is_load()) == (if v.prepare_ok
            && v.load_ok {
            1int
        } else {
            0int
        }),
        count_matching(match_trace(v, index, variant), is_fatal()) == (if v.handoff_ok() {
            0int
        } else {
            1int
        }),
{
    let t = match_trace(v, index, variant);
    let found = Step::Found { index: index as usize };
    if !v.prepare_ok {
        let tail = seq![Step::Fatal { error: prepare_error(variant) }];
        assert(t == seq![found] + tail);
        lemma_count_matching_add(seq![found], tail, is_inspect());
        lemma_count_matching_add(seq![found], tail, is_load());
        lemma_count_matching_add(seq![found], tail, is_fatal());
        lemma_count_matching_one(found, is_inspect());
        lemma_count_matching_one(found, is_load());
        lemma_count_matching_one(found, is_fatal());
        lemma_count_matching_one(tail[0], is_inspect());
        lemma_count_matching_one(tail[0], is_load());
        lemma_count_matching_one(tail[0], is_fatal());
        assert(tail =~= seq![tail[0]]);
    } else {
        let ld = Step::Load { index: index as usize };
        let st = Step::Start { index: index as usize };
        let tail2 = if !v.load_ok {
            seq![Step::Fatal { error: FatalError::Load }]
        } else {
            seq![ld, st] + (if v.start_ok {
                Seq::<Step>::empty()
            } else {
                seq![Step::Fatal { error: FatalError::Start }]
            })
        };
        let inner = countdown_steps() + tail2;
        assert(t == seq![found] + inner);
        lemma_count_matching_one(found, is_inspect());
        lemma_count_matching_one(found, is_load());
        lemma_count_matching_one(found, is_fatal());
        lemma_count_matching_add(seq![found], inner, is_inspect());
        lemma_count_matching_add(seq![found], inner, is_load());
        lemma_count_matching_add(seq![found], inner, is_fatal());
        lemma_count_matching_add(countdown_steps(), tail2, is_inspect());
        lemma_count_matching_add(countdown_steps(), tail2, is_load());
        lemma_count_matching_add(countdown_steps(), tail2, is_fatal());
        lemma_countdown_steps_counts(is_inspect());
        lemma_countdown_steps_counts(is_load());
        lemma_countdown_steps_counts(is_fatal());
        if !v.load_ok {
            assert(tail2 =~= seq![tail2[0]]);
            lemma_count_matching_one(tail2[0], is_inspect());
            lemma_count_matching_one(tail2[0], is_load());
            lemma_count_matching_one(tail2[0], is_fatal());
        } else {
            let after = if v.start_ok {
                Seq::<Step>::empty()
            } else {
                seq![Step::Fatal { error: FatalError::Start }]
            };
            lemma_count_matching_add(seq![ld, st], after, is_inspect());
            lemma_count_matching_add(seq![ld, st], after, is_load());
            lemma_count_matching_add(seq![ld, st], after, is_fatal());
            lemma_count_matching_two(ld, st, is_inspect());
            lemma_count_matching_two(ld, st, is_load());
            lemma_count_matching_two(ld, st, is_fatal());
            if !v.start_ok {
                assert(after =~= seq![after[0]]);
                lemma_count_matching_one(after[0], is_inspect());
                lemma_count_matching_one(after[0], is_load());
                lemma_count_matching_one(after[0], is_fatal());
            }
        }
    }
}

/// Scanning up to the first matching volume: the outcome is decided by that
/// volume alone, exactly the volumes up to and including it are inspected,
/// and the loads and fatal reports are those of its handoff tail.
pub proof fn lemma_scan_first_match(
    vols: Seq<VolumeModel>,
    base: int,
    variant: LoadVariant,
    k: int,
)
    requires
        0 <= k < vols.len(),
        vols[k].has_file,
        forall|j: int| 0 <= j < k ==> !(#[trigger] vols[j]).has_file,
        forall|j: int| 0 <= j <= k ==> (#[trigger] vols[j]).healthy(),
    ensures
        scan_outcome(vols, base, variant) == match_outcome(vols[k], base + k, variant),
        count_matching(scan_trace(vols, base, variant), is_inspect()) == k + 1,
        count_matching(scan_trace(vols, base, variant), is_load()) == count_matching(
            match_trace(vols[k], base + k, variant),
            is_load(),
        ),
        count_matching(scan_trace(vols, base, variant), is_fatal()) == count_matching(
            match_trace(vols[k], base + k, variant),
            is_fatal(),
        ),
    decreases k,
{
    let t = scan_trace(vols, base, variant);
    let v = vols[0];
    let ins = Step::Inspect { index: base as usize };
    assert(v.healthy());
    if k == 0 {
        let mt = match_trace(v, base, variant);
        assert(t == seq![ins] + mt);
        lemma_count_matching_one(ins, is_inspect());
        lemma_count_matching_one(ins, is_load());
        lemma_count_matching_one(ins, is_fatal());
        lemma_count_matching_add(seq![ins], mt, is_inspect());
        lemma_count_matching_add(seq![ins], mt, is_load());
        lemma_count_matching_add(seq![ins], mt, is_fatal());
        lemma_match_trace_counts(v, base, variant);
    } else {
        let rest = vols.skip(1);
        assert(rest[k - 1] == vols[k]);
        assert forall|j: int| 0 <= j < k - 1 implies !(#[trigger] rest[j]).has_file by {
            assert(rest[j] == vols[j + 1]);
        }
        assert forall|j: int| 0 <= j <= k - 1 implies (#[trigger] rest[j]).healthy() by {
            assert(rest[j] == vols[j + 1]);
        }
        lemma_scan_first_match(rest, base + 1, variant, k - 1);
        let abs = Step::Absent { index: base as usize };
        let rec = scan_trace(rest, base + 1, variant);
        assert(t == seq![ins] + (seq![abs] + rec));
        lemma_count_matching_one(ins, is_inspect());
        lemma_count_matching_one(ins, is_load());
        lemma_count_matching_one(ins, is_fatal());
        lemma_count_matching_one(abs, is_inspect());
        lemma_count_matching_one(abs, is_load());
        lemma_count_matching_one(abs, is_fatal());
        lemma_count_matching_add(seq![abs], rec, is_inspect());
        lemma_count_matching_add(seq![abs], rec, is_load());
        lemma_count_matching_add(seq![abs], rec, is_fatal());
        lemma_count_matching_add(seq![ins], seq![abs] + rec, is_inspect());
        lemma_count_matching_add(seq![ins], seq![abs] + rec, is_load());
        lemma_count_matching_add(seq![ins], seq![abs] + rec, is_fatal());
    }
}

/// Scanning volumes none of which holds the target: every volume is
/// inspected once, nothing is ever loaded, and the scan ends in the
/// `NotFound` halt with its single fatal report.
pub proof fn lemma_scan_no_match(vols: Seq<VolumeModel>, base: int, variant: LoadVariant)
    requires
        forall|j: int| 0 <= j < vols.len() ==> (#[trigger] vols[j]).healthy(),
        forall|j: int| 0 <= j < vols.len() ==> !(#[trigger] vols[j]).has_file,
    ensures
        scan_outcome(vols, base, variant) == (Phase::Halted { error: FatalError::NotFound }),
        count_matching(scan_trace(vols, base, variant), is_inspect()) == vols.len(),
        count_matching(scan_trace(vols, base, variant), is_load()) == 0,
        count_matching(scan_trace(vols, base, variant), is_fatal()) == 1,
    decreases vols.len(),
{
    let t = scan_trace(vols, base, variant);
    let nf = Step::Fatal { error: FatalError::NotFound };
    if vols.len() == 0 {
        assert(t == seq![nf]);
        lemma_count_matching_one(nf, is_inspect());
        lemma_count_matching_one(nf, is_load());
        lemma_count_matching_one(nf, is_fatal());
    } else {
        let v = vols[0];
        let ins = Step::Inspect { index: base as usize };
        let abs = Step::Absent { index: base as usize };
        let rest = vols.skip(1);
        assert forall|j: int| 0 <= j < rest.len() implies (#[trigger] rest[j]).healthy()
            && !rest[j].has_file by {
            assert(rest[j] == vols[j + 1]);
        }
        lemma_scan_no_match(rest, base + 1, variant);
        let rec = scan_trace(rest, base + 1, variant);
        assert(t == seq![ins] + (seq![abs] + rec));
        lemma_count_matching_one(ins, is_inspect());
        lemma_count_matching_one(ins, is_load());
        lemma_count_matching_one(ins, is_fatal());
        lemma_count_matching_one(abs, is_inspect());
        lemma_count_matching_one(abs, is_load());
        lemma_count_matching_one(abs, is_fatal());
        lemma_count_matching_add(seq![abs], rec, is_inspect());
        lemma_count_matching_add(seq![abs], rec, is_load());
        lemma_count_matching_add(seq![abs], rec, is_fatal());
        lemma_count_matching_add(seq![ins], seq![abs] + rec, is_inspect());
        lemma_count_matching_add(seq![ins], seq![abs] + rec, is_load());
        lemma_count_matching_add(seq![ins], seq![abs] + rec, is_fatal());
    }
}

/// However a scan goes, it emits at most one fatal report; it emits exactly
/// one precisely when it halts, and then the report is its very last step
/// and names the error the scan halted with.
pub proof fn lemma_scan_single_fatal(vols: Seq<VolumeModel>, base: int, variant: LoadVariant)
    ensures
        count_matching(scan_trace(vols, base, variant), is_fatal()) <= 1,
        (scan_outcome(vols, base, variant) is Halted) <==> (count_matching(
            scan_trace(vols, base, variant),
            is_fatal(),
        ) == 1),
        scan_outcome(vols, base, variant) is Halted ==> scan_trace(vols, base, variant).last()
            == (Step::Fatal { error: halted_error(scan_outcome(vols, base, variant)) }),
    decreases vols.len(),
{
    let t = scan_trace(vols, base, variant);
    let nf = Step::Fatal { error: FatalError::NotFound };
    if vols.len() == 0 {
        assert(t == seq![nf]);
        lemma_count_matching_one(nf, is_fatal());
    } else {
        let v = vols[0];
        let ins = Step::Inspect { index: base as usize };
        lemma_count_matching_one(ins, is_fatal());
        if !v.open_ok || !v.render_ok || !v.query_ok {
            let e = if !v.open_ok {
                FatalError::CapabilityOpen
            } else if !v.render_ok {
                FatalError::PathRender
            } else {
                FatalError::FilesystemQuery
            };
            let f = Step::Fatal { error: e };
            assert(t == seq![ins] + seq![f]);
            lemma_count_matching_add(seq![ins], seq![f], is_fatal());
            lemma_count_matching_one(f, is_fatal());
            assert(t.last() == f);
        } else if v.has_file {
            let mt = match_trace(v, base, variant);
            assert(t == seq![ins] + mt);
            lemma_count_matching_add(seq![ins], mt, is_fatal());
            lemma_match_trace_counts(v, base, variant);
            if !v.handoff_ok() {
                let e = if !v.prepare_ok {
                    prepare_error(variant)
                } else if !v.load_ok {
                    FatalError::Load
                } else {
                    FatalError::Start
                };
                assert(mt.last() == (Step::Fatal { error: e }));
                assert(t.last() == mt.last());
            }
        } else {
            let abs = Step::Absent { index: base as usize };
            let rest = vols.skip(1);
            lemma_scan_single_fatal(rest, base + 1, variant);
            let rec = scan_trace(rest, base + 1, variant);
            assert(t == seq![ins] + (seq![abs] + rec));
            lemma_count_matching_one(abs, is_fatal());
            lemma_count_matching_add(seq![abs], rec, is_fatal());
            lemma_count_matching_add(seq![ins], seq![abs] + rec, is_fatal());
            lemma_count_matching_nonneg(rec, is_fatal());
            if scan_outcome(vols, base, variant) is Halted {
                assert(count_matching(rec, is_fatal()) == 1);
                if rec.len() == 0 {
                    assert(count_matching(rec, is_fatal()) == 0);
                }
                assert(t.last() == rec.last());
            }
        }
    }
}

/// However a scan goes, the image loader is invoked at most once, and a
/// scan that reaches the handoff invoked it exactly once.
pub proof fn lemma_scan_single_load(vols: Seq<VolumeModel>, base: int, variant: LoadVariant)
    ensures
        count_matching(scan_trace(vols, base, variant), is_load()) <= 1,
        (scan_outcome(vols, base, variant) is Handoff) ==> count_matching(
            scan_trace(vols, base, variant),
            is_load(),
        ) == 1,
    decreases vols.len(),
{
    let t = scan_trace(vols, base, variant);
    let nf = Step::Fatal { error: FatalError::NotFound };
    if vols.len() == 0 {
        assert(t == seq![nf]);
        lemma_count_matching_one(nf, is_load());
    } else {
        let v = vols[0];
        let ins = Step::Inspect { index: base as usize };
        lemma_count_matching_one(ins, is_load());
        if !v.open_ok || !v.render_ok || !v.query_ok {
            let e = if !v.open_ok {
                FatalError::CapabilityOpen
            } else if !v.render_ok {
                FatalError::PathRender
            } else {
                FatalError::FilesystemQuery
            };
            let f = Step::Fatal { error: e };
            assert(t == seq![ins] + seq![f]);
            lemma_count_matching_add(seq![ins], seq![f], is_load());
            lemma_count_matching_one(f, is_load());
        } else if v.has_file {
            let mt = match_trace(v, base, variant);
            assert(t == seq![ins] + mt);
            lemma_count_matching_add(seq![ins], mt, is_load());
            lemma_match_trace_counts(v, base, variant);
        } else {
            let abs = Step::Absent { index: base as usize };
            let rest = vols.skip(1);
            lemma_scan_single_load(rest, base + 1, variant);
            let rec = scan_trace(rest, base + 1, variant);
            assert(t == seq![ins] + (seq![abs] + rec));
            lemma_count_matching_one(abs, is_load());
            lemma_count_matching_add(seq![abs], rec, is_load());
            lemma_count_matching_add(seq![ins], seq![abs] + rec, is_load());
        }
    }
}

/// Wherever a load step occurs in a scan, the six countdown steps — three
/// announcements, each with its one fixed stall — stand immediately before
/// it.
pub proof fn lemma_scan_countdown_before_load(
    vols: Seq<VolumeModel>,
    base: int,
    variant: LoadVariant,
    p: int,
)
    requires
        0 <= p < scan_trace(vols, base, variant).len(),
        scan_trace(vols, base, variant)[p] is Load,
    ensures
        p >= 6,
        scan_trace(vols, base, variant).subrange(p - 6, p) =~= countdown_steps(),
    decreases vols.len(),
{
    let t = scan_trace(vols, base, variant);
    if vols.len() == 0 {
        assert(false);
    } else {
        let v = vols[0];
        let ins = Step::Inspect { index: base as usize };
        if !v.open_ok || !v.render_ok || !v.query_ok {
            assert(false);
        } else if v.has_file {
            let mt = match_trace(v, base, variant);
            assert(t == seq![ins] + mt);
            if !v.prepare_ok {
                assert(false);
            } else if !v.load_ok {
                assert(t == seq![ins] + (seq![Step::Found { index: base as usize }] + (
                countdown_steps() + seq![Step::Fatal { error: FatalError::Load }])));
                assert(false);
            } else {
                let after = if v.start_ok {
                    Seq::<Step>::empty()
                } else {
                    seq![Step::Fatal { error: FatalError::Start }]
                };
                assert(t == seq![ins] + (seq![Step::Found { index: base as usize }] + (
                countdown_steps() + (seq![
                    Step::Load { index: base as usize },
                    Step::Start { index: base as usize },
                ] + after))));
                assert(t[8] is Load);
                if p != 8 {
                    assert(!(t[p] is Load));
                    assert(false);
                }
                assert(t.subrange(2, 8) =~= countdown_steps());
            }
        } else {
            let abs = Step::Absent { index: base as usize };
            let rest = vols.skip(1);
            let rec = scan_trace(rest, base + 1, variant);
            assert(t == seq![ins] + (seq![abs] + rec));
            if p < 2 {
                assert(false);
            }
            assert(t[p] == rec[p - 2]);
            lemma_scan_countdown_before_load(rest, base + 1, variant, p - 2);
            assert forall|m: int| 0 <= m < 6 implies t.subrange(p - 6, p)[m] == countdown_steps()[m] by {
                assert(t.subrange(p - 6, p)[m] == t[p - 6 + m]);
                assert(t[p - 6 + m] == rec[p - 8 + m]);
                assert(rec.subrange(p - 8, p - 2)[m] == rec[p - 8 + m]);
            }
            assert(t.subrange(p - 6, p) =~= countdown_steps());
        }
    }
}

/// Every inspection step of a scan touches one of the scanned volumes.
pub proof fn lemma_scan_inspect_bounds(
    vols: Seq<VolumeModel>,
    base: int,
    variant: LoadVariant,
    p: int,
)
    requires
        0 <= base,
        base + vols.len() <= usize::MAX,
        0 <= p < scan_trace(vols, base, variant).len(),
        scan_trace(vols, base, variant)[p] is Inspect,
    ensures
        base <= inspect_index(scan_trace(vols, base, variant)[p]) < base + vols.len(),
    decreases vols.len(),
{
    let t = scan_trace(vols, base, variant);
    if vols.len() == 0 {
        assert(false);
    } else {
        let v = vols[0];
        let ins = Step::Inspect { index: base as usize };
        if p == 0 {
            assert(t[0] == ins);
        } else if !v.open_ok || !v.render_ok || !v.query_ok {
            assert(false);
        } else if v.has_file {
            let mt = match_trace(v, base, variant);
            assert(t == seq![ins] + mt);
            lemma_match_trace_counts(v, base, variant);
            lemma_count_matching_zero(mt, is_inspect());
            assert(t[p] == mt[p - 1]);
            assert(false);
        } else {
            let abs = Step::Absent { index: base as usize };
            let rest = vols.skip(1);
            let rec = scan_trace(rest, base + 1, variant);
            assert(t == seq![ins] + (seq![abs] + rec));
            if p == 1 {
                assert(false);
            }
            assert(t[p] == rec[p - 2]);
            lemma_scan_inspect_bounds(rest, base + 1, variant, p - 2);
        }
    }
}

/// Later inspection steps touch strictly later volumes: no volume is ever
/// inspected twice, and inspections follow enumeration order.
pub proof fn lemma_scan_no_reinspection(
    vols: Seq<VolumeModel>,
    base: int,
    variant: LoadVariant,
    p: int,
    q: int,
)
    requires
        0 <= base,
        base + vols.len() <= usize::MAX,
        0 <= p < q < scan_trace(vols, base, variant).len(),
        scan_trace(vols, base, variant)[p] is Inspect,
        scan_trace(vols, base, variant)[q] is Inspect,
    ensures
        inspect_index(scan_trace(vols, base, variant)[p]) < inspect_index(
            scan_trace(vols, base, variant)[q],
        ),
    decreases vols.len(),
{
    let t = scan_trace(vols, base, variant);
    if vols.len() == 0 {
        assert(false);
    } else {
        let v = vols[0];
        let ins = Step::Inspect { index: base as usize };
        if !v.open_ok || !v.render_ok || !v.query_ok {
            assert(false);
        } else if v.has_file {
            let mt = match_trace(v, base, variant);
            assert(t == seq![ins] + mt);
            lemma_match_trace_counts(v, base, variant);
            lemma_count_matching_zero(mt, is_inspect());
            assert(t[q] == mt[q - 1]);
            assert(false);
        } else {
            let abs = Step::Absent { index: base as usize };
            let rest = vols.skip(1);
            let rec = scan_trace(rest, base + 1, variant);
            assert(t == seq![ins] + (seq![abs] + rec));
            if q == 1 {
                assert(false);
            }
            assert(t[q] == rec[q - 2]);
            if p == 0 {
                lemma_scan_inspect_bounds(rest, base + 1, variant, q - 2);
            } else if p == 1 {
                assert(false);
            } else {
                assert(t[p] == rec[p - 2]);
                lemma_scan_no_reinspection(rest, base + 1, variant, p - 2, q - 2);
            }
        }
    }
}

/// In a scan that ends at the first matching volume, no inspection ever
/// touches a volume past the match.
pub proof fn lemma_scan_first_match_inspect_bounds(
    vols: Seq<VolumeModel>,
    base: int,
    variant: LoadVariant,
    k: int,
    p: int,
)
    requires
        0 <= base,
        base + vols.len() <= usize::MAX,
        0 <= k < vols.len(),
        vols[k].has_file,
        forall|j: int| 0 <= j < k ==> !(#[trigger] vols[j]).has_file,
        forall|j: int| 0 <= j <= k ==> (#[trigger] vols[j]).healthy(),
        0 <= p < scan_trace(vols, base, variant).len(),
        scan_trace(vols, base, variant)[p] is Inspect,
    ensures
        base <= inspect_index(scan_trace(vols, base, variant)[p]) <= base + k,
    decreases vols.len(),
{
    let t = scan_trace(vols, base, variant);
    let v = vols[0];
    let ins = Step::Inspect { index: base as usize };
    assert(v.healthy());
    if k == 0 {
        let mt = match_trace(v, base, variant);
        assert(t == seq![ins] + mt);
        if p == 0 {
            assert(t[0] == ins);
        } else {
            lemma_match_trace_counts(v, base, variant);
            lemma_count_matching_zero(mt, is_inspect());
            assert(t[p] == mt[p - 1]);
            assert(false);
        }
    } else {
        let abs = Step::Absent { index: base as usize };
        let rest = vols.skip(1);
        let rec = scan_trace(rest, base + 1, variant);
        assert(t == seq![ins] + (seq![abs] + rec));
        if p == 0 {
            assert(t[0] == ins);
        } else if p == 1 {
            assert(false);
        } else {
            assert(rest[k - 1] == vols[k]);
            assert forall|j: int| 0 <= j < k - 1 implies !(#[trigger] rest[j]).has_file by {
                assert(rest[j] == vols[j + 1]);
            }
            assert forall|j: int| 0 <= j <= k - 1 implies (#[trigger] rest[j]).healthy() by {
                assert(rest[j] == vols[j + 1]);
            }
            assert(t[p] == rec[p - 2]);
            lemma_scan_first_match_inspect_bounds(rest, base + 1, variant, k - 1, p - 2);
        }
    }
}

/// Law: with a healthy world in which exactly one volume holds the target
/// file and its handoff goes through, the pipeline hands control to that
/// volume's image, wherever the volume sits in enumeration order, and emits
/// no fatal report.
pub proof fn law_unique_match_hands_off(
    init_ok: bool,
    enumeration_ok: bool,
    vols: Seq<VolumeModel>,
    variant: LoadVariant,
    k: int,
)
    requires
        init_ok,
        enumeration_ok,
        0 <= k < vols.len(),
        vols[k].has_file,
        vols[k].handoff_ok(),
        forall|j: int| 0 <= j < vols.len() && j != k ==> !(#[trigger] vols[j]).has_file,
        forall|j: int| 0 <= j < vols.len() ==> (#[trigger] vols[j]).healthy(),
    ensures
        spec_outcome(init_ok, enumeration_ok, vols, variant) == (Phase::Handoff {
            index: k as usize,
        }),
        count_matching(spec_trace(init_ok, enumeration_ok, vols, variant), is_fatal()) == 0,
{
    lemma_scan_first_match(vols, 0, variant, k);
    lemma_match_trace_counts(vols[k], k, variant);
}

/// Law: with a healthy world in which no volume holds the target file, the
/// pipeline inspects every volume once, never invokes the image loader, and
/// halts with `NotFound`.
pub proof fn law_no_match_halts_not_found(
    init_ok: bool,
    enumeration_ok: bool,
    vols: Seq<VolumeModel>,
    variant: LoadVariant,
)
    requires
        init_ok,
        enumeration_ok,
        forall|j: int| 0 <= j < vols.len() ==> (#[trigger] vols[j]).healthy(),
        forall|j: int| 0 <= j < vols.len() ==> !(#[trigger] vols[j]).has_file,
    ensures
        spec_outcome(init_ok, enumeration_ok, vols, variant) == (Phase::Halted {
            error: FatalError::NotFound,
        }),
        count_matching(spec_trace(init_ok, enumeration_ok, vols, variant), is_load()) == 0,
        count_matching(spec_trace(init_ok, enumeration_ok, vols, variant), is_inspect())
            == vols.len(),
{
    lemma_scan_no_match(vols, 0, variant);
}

/// Law: with a healthy world in which several volumes hold the target file,
/// the pipeline selects the first of them in enumeration order and inspects
/// exactly the volumes up to and including it — index-of-first-match plus
/// one inspections — never the later ones.
pub proof fn law_first_match_wins(
    init_ok: bool,
    enumeration_ok: bool,
    vols: Seq<VolumeModel>,
    variant: LoadVariant,
    k: int,
)
    requires
        init_ok,
        enumeration_ok,
        vols.len() <= usize::MAX,
        0 <= k < vols.len(),
        vols[k].has_file,
        forall|j: int| 0 <= j < k ==> !(#[trigger] vols[j]).has_file,
        forall|j: int| 0 <= j <= k ==> (#[trigger] vols[j]).healthy(),
    ensures
        spec_outcome(init_ok, enumeration_ok, vols, variant) == match_outcome(
            vols[k],
            k,
            variant,
        ),
        vols[k].handoff_ok() ==> spec_outcome(init_ok, enumeration_ok, vols, variant) == (
        Phase::Handoff { index: k as usize }),
        count_matching(spec_trace(init_ok, enumeration_ok, vols, variant), is_inspect()) == k
            + 1,
        forall|p: int|
            0 <= p < spec_trace(init_ok, enumeration_ok, vols, variant).len() && spec_trace(
                init_ok,
                enumeration_ok,
                vols,
                variant,
            )[p] is Inspect ==> inspect_index(
                #[trigger] spec_trace(init_ok, enumeration_ok, vols, variant)[p],
            ) <= k,
{
    lemma_scan_first_match(vols, 0, variant, k);
    let t = spec_trace(init_ok, enumeration_ok, vols, variant);
    assert forall|p: int| 0 <= p < t.len() && t[p] is Inspect implies inspect_index(t[p])
        <= k by {
        lemma_scan_first_match_inspect_bounds(vols, 0, variant, k, p);
    }
}

/// Law: whatever the world does, wherever a load step occurs in the
/// pipeline's trace, the full fixed countdown — three announcements, each
/// with its one equal stall — stands immediately before it.
pub proof fn law_countdown_precedes_load(
    init_ok: bool,
    enumeration_ok: bool,
    vols: Seq<VolumeModel>,
    variant: LoadVariant,
    p: int,
)
    requires
        0 <= p < spec_trace(init_ok, enumeration_ok, vols, variant).len(),
        spec_trace(init_ok, enumeration_ok, vols, variant)[p] is Load,
    ensures
        p >= 6,
        spec_trace(init_ok, enumeration_ok, vols, variant).subrange(p - 6, p)
            =~= countdown_steps(),
{
    if !init_ok || !enumeration_ok {
        assert(false);
    } else {
        lemma_scan_countdown_before_load(vols, 0, variant, p);
    }
}

/// Law: whatever the world does, the pipeline emits at most one fatal
/// report; it emits exactly one precisely when it halts, the report is the
/// very last step of the trace, it names the error the pipeline halted
/// with, no volume is ever inspected a second time, and the image loader is
/// invoked at most once.
pub proof fn law_failure_halts_once(
    init_ok: bool,
    enumeration_ok: bool,
    vols: Seq<VolumeModel>,
    variant: LoadVariant,
)
    requires
        vols.len() <= usize::MAX,
    ensures
        count_matching(spec_trace(init_ok, enumeration_ok, vols, variant), is_fatal()) <= 1,
        (spec_outcome(init_ok, enumeration_ok, vols, variant) is Halted) <==> (count_matching(
            spec_trace(init_ok, enumeration_ok, vols, variant),
            is_fatal(),
        ) == 1),
        spec_outcome(init_ok, enumeration_ok, vols, variant) is Halted ==> spec_trace(
            init_ok,
            enumeration_ok,
            vols,
            variant,
        ).last() == (Step::Fatal {
            error: halted_error(spec_outcome(init_ok, enumeration_ok, vols, variant)),
        }),
        forall|p: int, q: int|
            0 <= p < q < spec_trace(init_ok, enumeration_ok, vols, variant).len() && spec_trace(
                init_ok,
                enumeration_ok,
                vols,
                variant,
            )[p] is Inspect && spec_trace(init_ok, enumeration_ok, vols, variant)[q] is Inspect
                ==> inspect_index(#[trigger] spec_trace(init_ok, enumeration_ok, vols, variant)[p])
                < inspect_index(#[trigger] spec_trace(init_ok, enumeration_ok, vols, variant)[q]),
        count_matching(spec_trace(init_ok, enumeration_ok, vols, variant), is_load()) <= 1,
{
    let t = spec_trace(init_ok, enumeration_ok, vols, variant);
    if !init_ok {
        lemma_count_matching_one(Step::Fatal { error: FatalError::Init }, is_fatal());
        lemma_count_matching_one(Step::Fatal { error: FatalError::Init }, is_load());
    } else if !enumeration_ok {
        lemma_count_matching_one(Step::Fatal { error: FatalError::Enumeration }, is_fatal());
        lemma_count_matching_one(Step::Fatal { error: FatalError::Enumeration }, is_load());
    } else {
        lemma_scan_single_fatal(vols, 0, variant);
        lemma_scan_single_load(vols, 0, variant);
        assert forall|p: int, q: int|
            0 <= p < q < t.len() && t[p] is Inspect && t[q] is Inspect implies inspect_index(
            t[p],
        ) < inspect_index(t[q]) by {
            lemma_scan_no_reinspection(vols, 0, variant, p, q);
        }
    }
}

} // verus!
