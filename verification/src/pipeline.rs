//! Emission: rendering the planned stages into artifacts.
//!
//! Each planned stage is rendered from the shared header fragment
//! followed by its body fragment, bound to the Option Set.  Rendering is
//! a pure function of the set and the fixed catalog, so re-running with
//! an identical set yields byte-identical artifacts.  Any failure aborts
//! the remainder of the plan; a failed stage produces no artifact.

use vstd::prelude::*;

use crate::catalog::{
    body_source, header_source, quorum_source, spec_body_source, spec_header_source,
    spec_quorum_source,
};
use crate::opts::OptionSet;
use crate::stage::{compose, descs_view, plan_spec, DescView, StageDescriptor, StageId};
use crate::template::{
    first_missing, parse, spec_parse, spec_render, SegView, TemplateError,
};

verus! {

/// One rendered stage: its text and the output name it is owed under.
pub struct Artifact {
    pub name: String,
    pub text: String,
}

/// The mathematical value of an [`Artifact`].
pub struct ArtView {
    pub name: Seq<char>,
    pub text: Seq<char>,
}

impl View for Artifact {
    type V = ArtView;

    open spec fn view(&self) -> ArtView {
        ArtView { name: self.name@, text: self.text@ }
    }
}

/// The sequence of artifact values of an artifact list.
pub open spec fn arts_view(s: Seq<Artifact>) -> Seq<ArtView> {
    s.map(|i: int, a: Artifact| a@)
}

/// The segments of a stage's full template: the shared header, then the
/// stage's own body.  `None` when either fragment is malformed.
pub open spec fn stage_segs(id: StageId) -> Option<Seq<SegView>> {
    match (spec_parse(spec_header_source()), spec_parse(spec_body_source(id))) {
        (Some(h), Some(b)) => Some(h + b),
        _ => None,
    }
}

/// Whether a stage renders against the Option Set: its template is
/// well-formed and binds every placeholder.
pub open spec fn stage_ok(id: StageId, opts: Seq<(Seq<char>, Seq<char>)>) -> bool {
    match stage_segs(id) {
        Some(segs) => first_missing(segs, opts) is None,
        None => false,
    }
}

/// The text a stage renders to.  Meaningful when `stage_ok` holds.
pub open spec fn stage_text(id: StageId, opts: Seq<(Seq<char>, Seq<char>)>) -> Seq<char> {
    match stage_segs(id) {
        Some(segs) => spec_render(segs, opts, Seq::<Seq<char>>::empty()),
        None => Seq::<char>::empty(),
    }
}

/// Renders one planned stage against the Option Set.  Succeeds exactly
/// when the stage's template is well-formed and every placeholder is
/// bound; on a missing option the first missing name is reported and no
/// artifact is produced.
pub fn render_stage(d: &StageDescriptor, opts: &OptionSet) -> (r: Result<Artifact, TemplateError>)
    ensures
        match r {
            Ok(a) => stage_ok(d.id, opts@) && a@.name == d@.output_name && a@.text == stage_text(
                d.id,
                opts@,
            ),
            Err(e) => match e {
                TemplateError::Syntax => stage_segs(d.id) is None,
                TemplateError::MissingKey(k) => stage_segs(d.id) matches Some(segs)
                    && first_missing(segs, opts@) == Some(k@),
            },
        },
        r is Ok <==> stage_ok(d.id, opts@),
{
    let mut t = match parse(header_source()) {
        Ok(t) => t,
        Err(_) => {
            return Err(TemplateError::Syntax);
        },
    };
    let mut bt = match parse(body_source(d.id)) {
        Ok(t) => t,
        Err(_) => {
            return Err(TemplateError::Syntax);
        },
    };
    let ghost hsegs = t@;
    let ghost bsegs = bt@;
    t.segments.append(&mut bt.segments);
    proof {
        assert(t@ =~= hsegs + bsegs);
    }
    let no_args: Vec<String> = Vec::new();
    proof {
        assert(no_args.deep_view() =~= Seq::<Seq<char>>::empty());
    }
    match t.render(opts, &no_args) {
        Ok(text) => Ok(Artifact { name: d.output_name.clone(), text }),
        Err(e) => Err(e),
    }
}

/// The artifact values owed for a plan: each row's output name with the
/// text its stage renders to.
pub open spec fn emit_texts(plan: Seq<DescView>, opts: Seq<(Seq<char>, Seq<char>)>) -> Seq<
    ArtView,
> {
    plan.map(|i: int, d: DescView| ArtView { name: d.output_name, text: stage_text(d.id, opts) })
}

/// Whether every stage of a plan renders against the Option Set.
pub open spec fn plan_ok(plan: Seq<DescView>, opts: Seq<(Seq<char>, Seq<char>)>) -> bool {
    forall|i: int| 0 <= i < plan.len() ==> stage_ok(#[trigger] plan[i].id, opts)
}

/// The first planned stage from position `i` on that does not render.
pub open spec fn first_bad_from(
    plan: Seq<DescView>,
    opts: Seq<(Seq<char>, Seq<char>)>,
    i: int,
) -> Option<int>
    decreases plan.len() - i,
    when 0 <= i
{
    if i >= plan.len() {
        None
    } else if !stage_ok(plan[i].id, opts) {
        Some(i)
    } else {
        first_bad_from(plan, opts, i + 1)
    }
}

/// Renders the whole Emission Plan, in plan order.  Succeeds exactly
/// when every planned stage renders; on the first failing stage the
/// remainder is abandoned and that stage's error is surfaced.
#[verifier::loop_isolation(false)]
pub fn emit_plan(opts: &OptionSet) -> (r: Result<Vec<Artifact>, TemplateError>)
    ensures
        match r {
            Ok(arts) => plan_ok(plan_spec(opts@), opts@) && arts_view(arts@) == emit_texts(
                plan_spec(opts@),
                opts@,
            ),
            Err(e) => first_bad_from(plan_spec(opts@), opts@, 0) matches Some(i) && {
                let id = plan_spec(opts@)[i].id;
                match e {
                    TemplateError::Syntax => stage_segs(id) is None,
                    TemplateError::MissingKey(k) => stage_segs(id) matches Some(segs)
                        && first_missing(segs, opts@) == Some(k@),
                }
            },
        },
        r is Ok <==> plan_ok(plan_spec(opts@), opts@),
{
    let plan = compose(opts);
    let mut arts: Vec<Artifact> = Vec::new();
    let mut i: usize = 0;
    proof {
        assert(arts_view(arts@) =~= emit_texts(plan_spec(opts@).take(0), opts@));
    }
    while i < plan.len()
        invariant
            i <= plan@.len(),
            descs_view(plan@) == plan_spec(opts@),
            forall|j: int| 0 <= j < i ==> stage_ok(#[trigger] plan_spec(opts@)[j].id, opts@),
            first_bad_from(plan_spec(opts@), opts@, 0) == first_bad_from(
                plan_spec(opts@),
                opts@,
                i as int,
            ),
            arts_view(arts@) == emit_texts(plan_spec(opts@).take(i as int), opts@),
        decreases plan@.len() - i,
    {
        proof {
            assert(plan@[i as int]@ == plan_spec(opts@)[i as int]);
        }
        match render_stage(&plan[i], opts) {
            Ok(a) => {
                let ghost pre = arts@;
                let ghost ga = a@;
                arts.push(a);
                proof {
                    assert(arts@ == pre.push(a));
                    assert(forall|j: int|
                        0 <= j < i + 1 ==> plan_spec(opts@).take(i as int + 1)[j] == plan_spec(
                            opts@,
                        )[j]);
                    assert(forall|j: int|
                        0 <= j < i ==> plan_spec(opts@).take(i as int)[j] == plan_spec(opts@)[j]);
                    assert(forall|j: int|
                        0 <= j < i ==> arts_view(arts@)[j] == arts_view(pre)[j]);
                    assert(arts_view(arts@)[i as int] == ga);
                    assert(ga.name == plan_spec(opts@)[i as int].output_name);
                    assert(ga.text == stage_text(plan_spec(opts@)[i as int].id, opts@));
                    assert(emit_texts(plan_spec(opts@).take(i as int + 1), opts@)[i as int]
                        == (ArtView {
                        name: plan_spec(opts@)[i as int].output_name,
                        text: stage_text(plan_spec(opts@)[i as int].id, opts@),
                    }));
                    assert(arts_view(arts@).len() == emit_texts(
                        plan_spec(opts@).take(i as int + 1),
                        opts@,
                    ).len());
                    assert forall|j: int| 0 <= j < arts_view(arts@).len() implies arts_view(
                        arts@,
                    )[j] == emit_texts(plan_spec(opts@).take(i as int + 1), opts@)[j] by {
                        assert(emit_texts(plan_spec(opts@).take(i as int + 1), opts@)[j]
                            == (ArtView {
                            name: plan_spec(opts@).take(i as int + 1)[j].output_name,
                            text: stage_text(plan_spec(opts@).take(i as int + 1)[j].id, opts@),
                        }));
                        assert(plan_spec(opts@).take(i as int + 1)[j] == plan_spec(opts@)[j]);
                        if j < i {
                            assert(arts_view(arts@)[j] == arts_view(pre)[j]);
                            assert(arts_view(pre)[j] == emit_texts(
                                plan_spec(opts@).take(i as int),
                                opts@,
                            )[j]);
                            assert(emit_texts(plan_spec(opts@).take(i as int), opts@)[j]
                                == (ArtView {
                                name: plan_spec(opts@).take(i as int)[j].output_name,
                                text: stage_text(plan_spec(opts@).take(i as int)[j].id, opts@),
                            }));
                            assert(plan_spec(opts@).take(i as int)[j] == plan_spec(opts@)[j]);
                        } else {
                            assert(j == i);
                        }
                    }
                    assert(arts_view(arts@) =~= emit_texts(
                        plan_spec(opts@).take(i as int + 1),
                        opts@,
                    ));
                }
            },
            Err(e) => {
                proof {
                    assert(first_bad_from(plan_spec(opts@), opts@, i as int) == Some(i as int));
                }
                return Err(e);
            },
        }
        i = i + 1;
    }
    proof {
        assert(plan_spec(opts@).take(i as int) =~= plan_spec(opts@));
        assert(first_bad_from(plan_spec(opts@), opts@, i as int) is None);
    }
    Ok(arts)
}

/// The segments of the standalone read-correction script's template.
pub open spec fn quorum_segs() -> Option<Seq<SegView>> {
    match (spec_parse(spec_header_source()), spec_parse(spec_quorum_source())) {
        (Some(h), Some(b)) => Some(h + b),
        _ => None,
    }
}

/// Renders the standalone read-correction script: the shared header and
/// the command body, bound to the quorum Option Set and to the ordered
/// positional input-file names.
pub fn quorum_script(opts: &OptionSet, infiles: &Vec<String>) -> (r: Result<String, TemplateError>)
    ensures
        match r {
            Ok(text) => quorum_segs() matches Some(segs) && first_missing(segs, opts@) is None
                && text@ == spec_render(segs, opts@, infiles.deep_view()),
            Err(e) => match e {
                TemplateError::Syntax => quorum_segs() is None,
                TemplateError::MissingKey(k) => quorum_segs() matches Some(segs) && first_missing(
                    segs,
                    opts@,
                ) == Some(k@),
            },
        },
{
    let mut t = match parse(header_source()) {
        Ok(t) => t,
        Err(_) => {
            return Err(TemplateError::Syntax);
        },
    };
    let mut bt = match parse(quorum_source()) {
        Ok(t) => t,
        Err(_) => {
            return Err(TemplateError::Syntax);
        },
    };
    let ghost hsegs = t@;
    let ghost bsegs = bt@;
    t.segments.append(&mut bt.segments);
    proof {
        assert(t@ =~= hsegs + bsegs);
    }
    t.render(opts, infiles)
}

/// Re-running with an identical Option Set and the fixed catalog yields
/// identical artifacts: the emitted names and texts are a pure function
/// of the set.
pub proof fn lemma_emit_deterministic(
    o1: Seq<(Seq<char>, Seq<char>)>,
    o2: Seq<(Seq<char>, Seq<char>)>,
)
    requires
        o1 == o2,
    ensures
        emit_texts(plan_spec(o1), o1) == emit_texts(plan_spec(o2), o2),
{
}

} // verus!
