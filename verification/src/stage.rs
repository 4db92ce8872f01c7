//! The master stage table and the Pipeline Composer.
//!
//! The pipeline's stages form a fixed, hand-authored master list; the
//! composer filters it by each stage's predicate over the Option Set and
//! never reorders.  The read-correction stage is a mutually exclusive
//! branch: its two variants share one output name, and exactly one of
//! them is selected per run.  The merge-branch stages are emitted only
//! when the run is paired-end and merging was requested.  The cleanup,
//! full-reset and master stages close every plan, in that fixed order.

use vstd::prelude::*;

use crate::opts::{assoc_get, spec_normalize, OptionSet, RawOptions};

verus! {

/// A stage of the generated pipeline.  The identifier also addresses the
/// stage's template in the catalog.
#[derive(Clone, Copy, PartialEq, Eq, Structural, Debug)]
pub enum StageId {
    Fastqc,
    Kmergenie,
    Trim,
    StatReads,
    Quorum,
    NoQuorum,
    DownSampling,
    Unitigs,
    Anchors,
    StatAnchors,
    Merge,
    MrDownSampling,
    MrUnitigs,
    MrAnchors,
    StatMrAnchors,
    Cleanup,
    RealClean,
    Master,
}

/// When a stage belongs to the Emission Plan: unconditionally, on one of
/// the quality-check flags, on one side of the read-correction branch, or
/// behind the conjunctive merge gate (paired-end reads and merge
/// requested).
#[derive(Clone, Copy, PartialEq, Eq, Structural, Debug)]
pub enum Predicate {
    Always,
    IfFastqc,
    IfKmergenie,
    IfQuorum,
    IfNoQuorum,
    IfMergeBranch,
}

/// One row of the master stage table.
pub struct StageDescriptor {
    pub id: StageId,
    pub output_name: String,
    pub predicate: Predicate,
}

/// The mathematical value of a [`StageDescriptor`].
pub struct DescView {
    pub id: StageId,
    pub output_name: Seq<char>,
    pub predicate: Predicate,
}

impl View for StageDescriptor {
    type V = DescView;

    open spec fn view(&self) -> DescView {
        DescView { id: self.id, output_name: self.output_name@, predicate: self.predicate }
    }
}

/// The sequence of row values of a descriptor list.
pub open spec fn descs_view(s: Seq<StageDescriptor>) -> Seq<DescView> {
    s.map(|i: int, d: StageDescriptor| d@)
}

/// Whether the Option Set holds the named boolean flag as `"1"`.
pub open spec fn flag_set(opts: Seq<(Seq<char>, Seq<char>)>, name: Seq<char>) -> bool {
    assoc_get(opts, name) == Some("1"@)
}

/// Whether a stage predicate holds of the Option Set.
pub open spec fn pred_holds(p: Predicate, opts: Seq<(Seq<char>, Seq<char>)>) -> bool {
    match p {
        Predicate::Always => true,
        Predicate::IfFastqc => flag_set(opts, "fastqc"@),
        Predicate::IfKmergenie => flag_set(opts, "kmergenie"@),
        Predicate::IfQuorum => flag_set(opts, "quorum"@),
        Predicate::IfNoQuorum => !flag_set(opts, "quorum"@),
        Predicate::IfMergeBranch => !flag_set(opts, "se"@) && flag_set(opts, "merge"@),
    }
}

/// The master stage table: the fixed total order every plan is filtered
/// from.
pub open spec fn spec_master() -> Seq<DescView> {
    seq![
        (DescView { id: StageId::Fastqc, output_name: "2_fastqc.sh"@, predicate: Predicate::IfFastqc }),
        (DescView { id: StageId::Kmergenie, output_name: "2_kmergenie.sh"@, predicate: Predicate::IfKmergenie }),
        (DescView { id: StageId::Trim, output_name: "2_trim.sh"@, predicate: Predicate::Always }),
        (DescView { id: StageId::StatReads, output_name: "9_stat_reads.sh"@, predicate: Predicate::Always }),
        (DescView { id: StageId::Quorum, output_name: "2_quorum.sh"@, predicate: Predicate::IfQuorum }),
        (DescView { id: StageId::NoQuorum, output_name: "2_quorum.sh"@, predicate: Predicate::IfNoQuorum }),
        (DescView { id: StageId::DownSampling, output_name: "4_down_sampling.sh"@, predicate: Predicate::Always }),
        (DescView { id: StageId::Unitigs, output_name: "4_unitigs.sh"@, predicate: Predicate::Always }),
        (DescView { id: StageId::Anchors, output_name: "4_anchors.sh"@, predicate: Predicate::Always }),
        (DescView { id: StageId::StatAnchors, output_name: "9_stat_anchors.sh"@, predicate: Predicate::Always }),
        (DescView { id: StageId::Merge, output_name: "2_merge.sh"@, predicate: Predicate::IfMergeBranch }),
        (DescView { id: StageId::MrDownSampling, output_name: "6_down_sampling.sh"@, predicate: Predicate::IfMergeBranch }),
        (DescView { id: StageId::MrUnitigs, output_name: "6_unitigs.sh"@, predicate: Predicate::IfMergeBranch }),
        (DescView { id: StageId::MrAnchors, output_name: "6_anchors.sh"@, predicate: Predicate::IfMergeBranch }),
        (DescView { id: StageId::StatMrAnchors, output_name: "9_stat_mr_anchors.sh"@, predicate: Predicate::IfMergeBranch }),
        (DescView { id: StageId::Cleanup, output_name: "0_cleanup.sh"@, predicate: Predicate::Always }),
        (DescView { id: StageId::RealClean, output_name: "0_real_clean.sh"@, predicate: Predicate::Always }),
        (DescView { id: StageId::Master, output_name: "0_master.sh"@, predicate: Predicate::Always }),
    ]
}

/// The rows of `s` from position `i` on whose predicates hold, in order.
pub open spec fn filter_from(s: Seq<DescView>, opts: Seq<(Seq<char>, Seq<char>)>, i: int) -> Seq<
    DescView,
>
    decreases s.len() - i,
    when 0 <= i
{
    if i >= s.len() {
        Seq::<DescView>::empty()
    } else if pred_holds(s[i].predicate, opts) {
        seq![s[i]] + filter_from(s, opts, i + 1)
    } else {
        filter_from(s, opts, i + 1)
    }
}

/// The Emission Plan owed for an Option Set: the master rows whose
/// predicates hold, in the master list's fixed relative order.
pub open spec fn plan_spec(opts: Seq<(Seq<char>, Seq<char>)>) -> Seq<DescView> {
    filter_from(spec_master(), opts, 0)
}

impl StageDescriptor {
    /// An equal copy of the row.
    fn duplicate(&self) -> (r: StageDescriptor)
        ensures
            r@ == self@,
    {
        StageDescriptor {
            id: self.id,
            output_name: self.output_name.clone(),
            predicate: self.predicate,
        }
    }
}

/// Builds one row of the master table.
fn row(id: StageId, output_name: &str, predicate: Predicate) -> (r: StageDescriptor)
    ensures
        r@ == (DescView { id, output_name: output_name@, predicate }),
{
    StageDescriptor { id, output_name: output_name.to_owned(), predicate }
}

/// The master stage table as a value.
pub fn master_list() -> (r: Vec<StageDescriptor>)
    ensures
        descs_view(r@) == spec_master(),
{
    let mut v: Vec<StageDescriptor> = Vec::new();
    v.push(row(StageId::Fastqc, "2_fastqc.sh", Predicate::IfFastqc));
    v.push(row(StageId::Kmergenie, "2_kmergenie.sh", Predicate::IfKmergenie));
    v.push(row(StageId::Trim, "2_trim.sh", Predicate::Always));
    v.push(row(StageId::StatReads, "9_stat_reads.sh", Predicate::Always));
    v.push(row(StageId::Quorum, "2_quorum.sh", Predicate::IfQuorum));
    v.push(row(StageId::NoQuorum, "2_quorum.sh", Predicate::IfNoQuorum));
    v.push(row(StageId::DownSampling, "4_down_sampling.sh", Predicate::Always));
    v.push(row(StageId::Unitigs, "4_unitigs.sh", Predicate::Always));
    v.push(row(StageId::Anchors, "4_anchors.sh", Predicate::Always));
    v.push(row(StageId::StatAnchors, "9_stat_anchors.sh", Predicate::Always));
    v.push(row(StageId::Merge, "2_merge.sh", Predicate::IfMergeBranch));
    v.push(row(StageId::MrDownSampling, "6_down_sampling.sh", Predicate::IfMergeBranch));
    v.push(row(StageId::MrUnitigs, "6_unitigs.sh", Predicate::IfMergeBranch));
    v.push(row(StageId::MrAnchors, "6_anchors.sh", Predicate::IfMergeBranch));
    v.push(row(StageId::StatMrAnchors, "9_stat_mr_anchors.sh", Predicate::IfMergeBranch));
    v.push(row(StageId::Cleanup, "0_cleanup.sh", Predicate::Always));
    v.push(row(StageId::RealClean, "0_real_clean.sh", Predicate::Always));
    v.push(row(StageId::Master, "0_master.sh", Predicate::Always));
    proof {
        assert(descs_view(v@) =~= spec_master());
    }
    v
}

/// Evaluates whether the Option Set holds the named flag as `"1"`.
fn flag(opts: &OptionSet, name: &str) -> (b: bool)
    ensures
        b == flag_set(opts@, name@),
{
    let one: String = String::from_str("1");
    match opts.get(name) {
        Some(v) => *v == one,
        None => false,
    }
}

/// Evaluates a stage predicate against the Option Set.
fn eval_predicate(p: &Predicate, opts: &OptionSet) -> (b: bool)
    ensures
        b == pred_holds(*p, opts@),
{
    match p {
        Predicate::Always => true,
        Predicate::IfFastqc => flag(opts, "fastqc"),
        Predicate::IfKmergenie => flag(opts, "kmergenie"),
        Predicate::IfQuorum => flag(opts, "quorum"),
        Predicate::IfNoQuorum => !flag(opts, "quorum"),
        Predicate::IfMergeBranch => !flag(opts, "se") && flag(opts, "merge"),
    }
}

/// The Pipeline Composer: selects the Emission Plan from the master
/// table and the Option Set.  A pure, total function of the set: it
/// filters the fixed master order and never reorders.
#[verifier::loop_isolation(false)]
pub fn compose(opts: &OptionSet) -> (r: Vec<StageDescriptor>)
    ensures
        descs_view(r@) == plan_spec(opts@),
{
    let master = master_list();
    let mut out: Vec<StageDescriptor> = Vec::new();
    let mut i: usize = 0;
    proof {
        assert(descs_view(out@) =~= Seq::<DescView>::empty());
        assert(descs_view(out@) + filter_from(spec_master(), opts@, 0) =~= plan_spec(opts@));
    }
    while i < master.len()
        invariant
            i <= master@.len(),
            descs_view(master@) == spec_master(),
            plan_spec(opts@) == descs_view(out@) + filter_from(spec_master(), opts@, i as int),
        decreases master@.len() - i,
    {
        proof {
            assert(master@[i as int]@ == spec_master()[i as int]);
        }
        let d = &master[i];
        if eval_predicate(&d.predicate, opts) {
            let ghost pre = out@;
            out.push(d.duplicate());
            proof {
                assert(descs_view(out@) =~= descs_view(pre).push(spec_master()[i as int]));
                assert(descs_view(pre).push(spec_master()[i as int]) + filter_from(
                    spec_master(),
                    opts@,
                    i as int + 1,
                ) =~= descs_view(pre) + (seq![spec_master()[i as int]] + filter_from(
                    spec_master(),
                    opts@,
                    i as int + 1,
                )));
            }
        }
        i = i + 1;
    }
    proof {
        assert(filter_from(spec_master(), opts@, i as int).len() == 0);
        assert(descs_view(out@) + filter_from(spec_master(), opts@, i as int) =~= descs_view(
            out@,
        ));
    }
    out
}

/// Normalization encodes each boolean flag faithfully: the plan flags of
/// a normalized Option Set are exactly the raw booleans.
#[verifier::rlimit(100)]
pub proof fn lemma_normalize_flags(raw: RawOptions)
    ensures
        flag_set(spec_normalize(raw), "se"@) == raw.se,
        flag_set(spec_normalize(raw), "fastqc"@) == raw.fastqc,
        flag_set(spec_normalize(raw), "kmergenie"@) == raw.kmergenie,
        flag_set(spec_normalize(raw), "quorum"@) == raw.quorum,
        flag_set(spec_normalize(raw), "merge"@) == raw.merge,
{
    reveal_strlit("genome");
    reveal_strlit("se");
    reveal_strlit("xmx");
    reveal_strlit("parallel");
    reveal_strlit("queue");
    reveal_strlit("fastqc");
    reveal_strlit("kmergenie");
    reveal_strlit("trim");
    reveal_strlit("sample");
    reveal_strlit("qual");
    reveal_strlit("len");
    reveal_strlit("filter");
    reveal_strlit("quorum");
    reveal_strlit("merge");
    reveal_strlit("0");
    reveal_strlit("1");
    let s = spec_normalize(raw);
    assert forall|j: int| 0 <= j < 1 implies s[j].0 != "se"@ by {
        assert(s[0].0 == "genome"@);
    }
    lemma_assoc_get_at(s, "se"@, 1);
    assert(s[0].0 == "genome"@);
    assert(s[1].0 == "se"@);
    assert(s[2].0 == "xmx"@);
    assert(s[3].0 == "parallel"@);
    assert(s[4].0 == "queue"@);
    assert(s[5].0 == "fastqc"@);
    assert(s[6].0 == "kmergenie"@);
    assert(s[7].0 == "trim"@);
    assert(s[8].0 == "sample"@);
    assert(s[9].0 == "qual"@);
    assert(s[10].0 == "len"@);
    assert(s[11].0 == "filter"@);
    assert(s[12].0 == "quorum"@);
    assert(s[13].0 == "merge"@);
    assert("genome"@[0] == 'g');
    assert("fastqc"@[0] == 'f');
    assert("sample"@[0] == 's');
    assert("filter"@[0] == 'f');
    assert("quorum"@[0] == 'q');
    assert("queue"@[0] == 'q');
    assert("merge"@[0] == 'm');
    assert("0"@[0] == '0');
    assert("1"@[0] == '1');
    assert forall|j: int| 0 <= j < 5 implies s[j].0 != "fastqc"@ by {
        assert(s[j] == s[0] || s[j] == s[1] || s[j] == s[2] || s[j] == s[3] || s[j] == s[4]);
    }
    lemma_assoc_get_at(s, "fastqc"@, 5);
    assert forall|j: int| 0 <= j < 6 implies s[j].0 != "kmergenie"@ by {
        assert(s[j] == s[0] || s[j] == s[1] || s[j] == s[2] || s[j] == s[3] || s[j] == s[4] || s[j]
            == s[5]);
    }
    lemma_assoc_get_at(s, "kmergenie"@, 6);
    assert forall|j: int| 0 <= j < 12 implies s[j].0 != "quorum"@ by {
        assert(s[j] == s[0] || s[j] == s[1] || s[j] == s[2] || s[j] == s[3] || s[j] == s[4] || s[j]
            == s[5] || s[j] == s[6] || s[j] == s[7] || s[j] == s[8] || s[j] == s[9] || s[j] == s[10]
            || s[j] == s[11]);
    }
    lemma_assoc_get_at(s, "quorum"@, 12);
    assert forall|j: int| 0 <= j < 13 implies s[j].0 != "merge"@ by {
        assert(s[j] == s[0] || s[j] == s[1] || s[j] == s[2] || s[j] == s[3] || s[j] == s[4] || s[j]
            == s[5] || s[j] == s[6] || s[j] == s[7] || s[j] == s[8] || s[j] == s[9] || s[j] == s[10]
            || s[j] == s[11] || s[j] == s[12]);
    }
    lemma_assoc_get_at(s, "merge"@, 13);
}

/// First-match lookup resolves to position `i` when `i` holds the key
/// and no earlier entry does.
proof fn lemma_assoc_get_at(s: Seq<(Seq<char>, Seq<char>)>, k: Seq<char>, i: int)
    requires
        0 <= i < s.len(),
        s[i].0 == k,
        forall|j: int| 0 <= j < i ==> (#[trigger] s[j]).0 != k,
    ensures
        assoc_get(s, k) == Some(s[i].1),
    decreases i,
{
    if i == 0 {
    } else {
        assert(s[0].0 != k);
        assert(s.drop_first()[i - 1] == s[i]);
        assert forall|j: int| 0 <= j < i - 1 implies (#[trigger] s.drop_first()[j]).0 != k by {
            assert(s.drop_first()[j] == s[j + 1]);
        }
        lemma_assoc_get_at(s.drop_first(), k, i - 1);
    }
}

/// A stage of the merge branch: the merge-based down-sampling chain and
/// its statistics stage.
pub open spec fn is_merge_stage(id: StageId) -> bool {
    match id {
        StageId::Merge => true,
        StageId::MrDownSampling => true,
        StageId::MrUnitigs => true,
        StageId::MrAnchors => true,
        StageId::StatMrAnchors => true,
        _ => false,
    }
}

/// One of the two read-correction variants.
pub open spec fn is_quorum_stage(id: StageId) -> bool {
    id == StageId::Quorum || id == StageId::NoQuorum
}

proof fn lemma_filter_congruent(
    s: Seq<DescView>,
    o1: Seq<(Seq<char>, Seq<char>)>,
    o2: Seq<(Seq<char>, Seq<char>)>,
    i: int,
)
    requires
        0 <= i,
        flag_set(o1, "se"@) == flag_set(o2, "se"@),
        flag_set(o1, "fastqc"@) == flag_set(o2, "fastqc"@),
        flag_set(o1, "kmergenie"@) == flag_set(o2, "kmergenie"@),
        flag_set(o1, "quorum"@) == flag_set(o2, "quorum"@),
        flag_set(o1, "merge"@) == flag_set(o2, "merge"@),
    ensures
        filter_from(s, o1, i) == filter_from(s, o2, i),
    decreases s.len() - i,
{
    if i < s.len() {
        lemma_filter_congruent(s, o1, o2, i + 1);
    }
}

/// The Emission Plan is a pure function of the Option Set and differs
/// only along the documented predicates: two sets that agree on the five
/// plan flags yield the same plan, whatever their other entries hold.
pub proof fn lemma_plan_depends_only_on_flags(
    o1: Seq<(Seq<char>, Seq<char>)>,
    o2: Seq<(Seq<char>, Seq<char>)>,
)
    requires
        flag_set(o1, "se"@) == flag_set(o2, "se"@),
        flag_set(o1, "fastqc"@) == flag_set(o2, "fastqc"@),
        flag_set(o1, "kmergenie"@) == flag_set(o2, "kmergenie"@),
        flag_set(o1, "quorum"@) == flag_set(o2, "quorum"@),
        flag_set(o1, "merge"@) == flag_set(o2, "merge"@),
    ensures
        plan_spec(o1) == plan_spec(o2),
{
    lemma_filter_congruent(spec_master(), o1, o2, 0);
}

/// The plan, written out branch by branch: the optional quality checks,
/// the unconditional trim and read statistics, exactly one side of the
/// read-correction branch, the unconditional primary-assembly chain, the
/// merge branch behind its conjunctive gate, and the unconditional tail.
#[verifier::rlimit(60)]
pub proof fn lemma_plan_shape(opts: Seq<(Seq<char>, Seq<char>)>)
    ensures
        plan_spec(opts) == (if flag_set(opts, "fastqc"@) {
            seq![spec_master()[0]]
        } else {
            Seq::<DescView>::empty()
        }) + (if flag_set(opts, "kmergenie"@) {
            seq![spec_master()[1]]
        } else {
            Seq::<DescView>::empty()
        }) + seq![spec_master()[2], spec_master()[3]] + (if flag_set(opts, "quorum"@) {
            seq![spec_master()[4]]
        } else {
            seq![spec_master()[5]]
        }) + spec_master().subrange(6, 10) + (if !flag_set(opts, "se"@) && flag_set(
            opts,
            "merge"@,
        ) {
            spec_master().subrange(10, 15)
        } else {
            Seq::<DescView>::empty()
        }) + spec_master().subrange(15, 18),
{
    reveal_with_fuel(filter_from, 7);
    let m = spec_master();
    assert(filter_from(m, opts, 15) =~= m.subrange(15, 18));
    assert(filter_from(m, opts, 10) =~= (if !flag_set(opts, "se"@) && flag_set(opts, "merge"@) {
        m.subrange(10, 15)
    } else {
        Seq::<DescView>::empty()
    }) + filter_from(m, opts, 15));
    assert(filter_from(m, opts, 6) =~= m.subrange(6, 10) + filter_from(m, opts, 10));
    assert(filter_from(m, opts, 4) =~= (if flag_set(opts, "quorum"@) {
        seq![m[4]]
    } else {
        seq![m[5]]
    }) + filter_from(m, opts, 6));
    assert(filter_from(m, opts, 2) =~= seq![m[2], m[3]] + filter_from(m, opts, 4));
    assert(filter_from(m, opts, 0) =~= (if flag_set(opts, "fastqc"@) {
        seq![m[0]]
    } else {
        Seq::<DescView>::empty()
    }) + ((if flag_set(opts, "kmergenie"@) {
        seq![m[1]]
    } else {
        Seq::<DescView>::empty()
    }) + filter_from(m, opts, 2)));
    assert(plan_spec(opts) =~= (if flag_set(opts, "fastqc"@) {
        seq![spec_master()[0]]
    } else {
        Seq::<DescView>::empty()
    }) + (if flag_set(opts, "kmergenie"@) {
        seq![spec_master()[1]]
    } else {
        Seq::<DescView>::empty()
    }) + seq![spec_master()[2], spec_master()[3]] + (if flag_set(opts, "quorum"@) {
        seq![spec_master()[4]]
    } else {
        seq![spec_master()[5]]
    }) + spec_master().subrange(6, 10) + (if !flag_set(opts, "se"@) && flag_set(opts, "merge"@) {
        spec_master().subrange(10, 15)
    } else {
        Seq::<DescView>::empty()
    }) + spec_master().subrange(15, 18));
}

/// Single-end mode excludes every merge-branch stage from the plan,
/// whatever the merge flag holds.
pub proof fn lemma_single_end_excludes_merge(opts: Seq<(Seq<char>, Seq<char>)>)
    requires
        flag_set(opts, "se"@),
    ensures
        forall|i: int|
            0 <= i < plan_spec(opts).len() ==> !is_merge_stage(#[trigger] plan_spec(opts)[i].id),
{
    lemma_plan_shape(opts);
}

/// Exactly one read-correction row stands in every plan; it carries the
/// shared output name, and it is the quorum variant exactly when the
/// quorum flag is set.
#[verifier::rlimit(100)]
pub proof fn lemma_quorum_exclusive(opts: Seq<(Seq<char>, Seq<char>)>)
    ensures
        exists|i: int|
            0 <= i < plan_spec(opts).len() && is_quorum_stage(#[trigger] plan_spec(opts)[i].id),
        forall|i: int, j: int|
            0 <= i < plan_spec(opts).len() && 0 <= j < plan_spec(opts).len() && is_quorum_stage(
                #[trigger] plan_spec(opts)[i].id,
            ) && is_quorum_stage(#[trigger] plan_spec(opts)[j].id) ==> i == j,
        forall|i: int|
            0 <= i < plan_spec(opts).len() && is_quorum_stage(#[trigger] plan_spec(opts)[i].id)
                ==> plan_spec(opts)[i].output_name == "2_quorum.sh"@ && ((plan_spec(opts)[i].id
                == StageId::Quorum) <==> flag_set(opts, "quorum"@)),
{
    lemma_plan_shape(opts);
    let w: int = (if flag_set(opts, "fastqc"@) {
        1int
    } else {
        0int
    }) + (if flag_set(opts, "kmergenie"@) {
        1int
    } else {
        0int
    }) + 2;
    assert(0 <= w < plan_spec(opts).len() && is_quorum_stage(plan_spec(opts)[w].id));
}

/// The master row that plan position `i` selects, given the flags.
pub open spec fn plan_row_index(opts: Seq<(Seq<char>, Seq<char>)>, i: int) -> int {
    let c1: int = if flag_set(opts, "fastqc"@) {
        1
    } else {
        0
    };
    let c2: int = c1 + (if flag_set(opts, "kmergenie"@) {
        1int
    } else {
        0int
    });
    let c6: int = c2 + 7 + (if !flag_set(opts, "se"@) && flag_set(opts, "merge"@) {
        5int
    } else {
        0int
    });
    if i < c1 {
        0
    } else if i < c2 {
        1
    } else if i < c2 + 2 {
        2 + (i - c2)
    } else if i == c2 + 2 {
        if flag_set(opts, "quorum"@) {
            4
        } else {
            5
        }
    } else if i < c2 + 7 {
        6 + (i - (c2 + 3))
    } else if i < c6 {
        10 + (i - (c2 + 7))
    } else {
        15 + (i - c6)
    }
}

/// Each plan position holds its selected master row, and later positions
/// select strictly later rows: the composer filters the fixed order and
/// never reorders.
#[verifier::rlimit(100)]
pub proof fn lemma_plan_rows(opts: Seq<(Seq<char>, Seq<char>)>)
    ensures
        forall|i: int|
            0 <= i < plan_spec(opts).len() ==> 0 <= plan_row_index(opts, i) < 18 && plan_spec(
                opts,
            )[i] == spec_master()[plan_row_index(opts, i)],
        forall|i: int, j: int|
            0 <= i < j < plan_spec(opts).len() ==> plan_row_index(opts, i) < plan_row_index(
                opts,
                j,
            ),
{
    lemma_plan_shape(opts);
}

/// No two planned stages share an output name: the shared
/// read-correction name is claimed by exactly one variant per run, and
/// every other master name is unique.
#[verifier::rlimit(100)]
pub proof fn lemma_plan_names_unique(opts: Seq<(Seq<char>, Seq<char>)>)
    ensures
        forall|i: int, j: int|
            0 <= i < plan_spec(opts).len() && 0 <= j < plan_spec(opts).len() && i != j
                ==> #[trigger] plan_spec(opts)[i].output_name != #[trigger] plan_spec(
                opts,
            )[j].output_name,
{
    lemma_plan_rows(opts);
    reveal_strlit("2_fastqc.sh");
    reveal_strlit("2_kmergenie.sh");
    reveal_strlit("2_trim.sh");
    reveal_strlit("9_stat_reads.sh");
    reveal_strlit("2_quorum.sh");
    reveal_strlit("4_down_sampling.sh");
    reveal_strlit("4_unitigs.sh");
    reveal_strlit("4_anchors.sh");
    reveal_strlit("9_stat_anchors.sh");
    reveal_strlit("2_merge.sh");
    reveal_strlit("6_down_sampling.sh");
    reveal_strlit("6_unitigs.sh");
    reveal_strlit("6_anchors.sh");
    reveal_strlit("9_stat_mr_anchors.sh");
    reveal_strlit("0_cleanup.sh");
    reveal_strlit("0_real_clean.sh");
    reveal_strlit("0_master.sh");
    let m = spec_master();
    assert(m[0].output_name == "2_fastqc.sh"@ && m[1].output_name == "2_kmergenie.sh"@
        && m[2].output_name == "2_trim.sh"@ && m[3].output_name == "9_stat_reads.sh"@
        && m[4].output_name == "2_quorum.sh"@ && m[5].output_name == "2_quorum.sh"@
        && m[6].output_name == "4_down_sampling.sh"@ && m[7].output_name == "4_unitigs.sh"@
        && m[8].output_name == "4_anchors.sh"@ && m[9].output_name == "9_stat_anchors.sh"@
        && m[10].output_name == "2_merge.sh"@ && m[11].output_name == "6_down_sampling.sh"@
        && m[12].output_name == "6_unitigs.sh"@ && m[13].output_name == "6_anchors.sh"@
        && m[14].output_name == "9_stat_mr_anchors.sh"@ && m[15].output_name == "0_cleanup.sh"@
        && m[16].output_name == "0_real_clean.sh"@ && m[17].output_name == "0_master.sh"@);
    assert("2_fastqc.sh"@[2] == 'f');
    assert("2_quorum.sh"@[2] == 'q');
    assert("0_master.sh"@[0] == '0');
    assert("2_fastqc.sh"@[0] == '2');
    assert("2_quorum.sh"@[0] == '2');
    assert("2_kmergenie.sh"@[0] == '2');
    assert("0_real_clean.sh"@[0] == '0');
    assert("4_down_sampling.sh"@[0] == '4');
    assert("6_down_sampling.sh"@[0] == '6');
    assert("4_unitigs.sh"@[0] == '4');
    assert("4_anchors.sh"@[0] == '4');
    assert("6_unitigs.sh"@[0] == '6');
    assert("6_anchors.sh"@[0] == '6');
    assert("0_cleanup.sh"@[0] == '0');
    assert("4_unitigs.sh"@[2] == 'u');
    assert("4_anchors.sh"@[2] == 'a');
    assert("6_unitigs.sh"@[2] == 'u');
    assert("6_anchors.sh"@[2] == 'a');
    assert forall|a: int, b: int|
        0 <= a < 18 && 0 <= b < 18 && a < b && !(a == 4 && b == 5) implies (#[trigger] m[a]).output_name
        != (#[trigger] m[b]).output_name by {
        assert(m[a] == m[0] || m[a] == m[1] || m[a] == m[2] || m[a] == m[3] || m[a] == m[4] || m[a]
            == m[5] || m[a] == m[6] || m[a] == m[7] || m[a] == m[8] || m[a] == m[9] || m[a] == m[10]
            || m[a] == m[11] || m[a] == m[12] || m[a] == m[13] || m[a] == m[14] || m[a] == m[15]
            || m[a] == m[16] || m[a] == m[17]);
        assert(m[b] == m[0] || m[b] == m[1] || m[b] == m[2] || m[b] == m[3] || m[b] == m[4] || m[b]
            == m[5] || m[b] == m[6] || m[b] == m[7] || m[b] == m[8] || m[b] == m[9] || m[b] == m[10]
            || m[b] == m[11] || m[b] == m[12] || m[b] == m[13] || m[b] == m[14] || m[b] == m[15]
            || m[b] == m[16] || m[b] == m[17]);
    }
    assert forall|i: int, j: int|
        0 <= i < plan_spec(opts).len() && 0 <= j < plan_spec(opts).len() && i != j implies (
    #[trigger] plan_spec(opts)[i].output_name) != (#[trigger] plan_spec(opts)[j].output_name) by {
        let a = plan_row_index(opts, i);
        let b = plan_row_index(opts, j);
        if i < j {
            assert(a < b);
            assert(!(a == 4 && b == 5)) by {
                if a == 4 && b == 5 {
                    assert(flag_set(opts, "quorum"@) && !flag_set(opts, "quorum"@));
                }
            }
            assert(m[a].output_name != m[b].output_name);
        } else {
            assert(b < a);
            assert(!(b == 4 && a == 5)) by {
                if b == 4 && a == 5 {
                    assert(flag_set(opts, "quorum"@) && !flag_set(opts, "quorum"@));
                }
            }
            assert(m[b].output_name != m[a].output_name);
        }
    }
}

} // verus!
