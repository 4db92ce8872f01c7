//! Templates and their parser.
//!
//! A template is a text blueprint with named placeholders.  A placeholder
//! is written `[%name%]`, where the name is one or more of `a`-`z`, `0`-`9`
//! and `_`; the reserved placeholder `[%*%]` stands for the run's ordered
//! list of positional input-file names, joined by single spaces.  All other
//! text is kept verbatim.  A `[%` with no closing `%]`, an empty name, or a
//! name with any other character is a syntax error.

use vstd::prelude::*;

use crate::opts::{assoc_get, OptionSet};

verus! {

/// Why a template could not be rendered.
#[derive(Debug)]
pub enum TemplateError {
    /// A placeholder names an option that the Option Set does not hold.
    MissingKey(String),
    /// The template text itself is malformed.
    Syntax,
}

/// One piece of a parsed template: verbatim text, a placeholder to be
/// bound to an option value, or the positional-arguments placeholder.
pub enum Segment {
    Lit(String),
    Key(String),
    Args,
}

/// The mathematical value of a [`Segment`].
pub enum SegView {
    Lit(Seq<char>),
    Key(Seq<char>),
    Args,
}

impl View for Segment {
    type V = SegView;

    open spec fn view(&self) -> SegView {
        match self {
            Segment::Lit(t) => SegView::Lit(t@),
            Segment::Key(k) => SegView::Key(k@),
            Segment::Args => SegView::Args,
        }
    }
}

/// The sequence of segment values of a parsed template.
pub open spec fn segs_view(s: Seq<Segment>) -> Seq<SegView> {
    s.map(|i: int, e: Segment| e@)
}

/// A parsed template, ready to render.
pub struct Template {
    pub segments: Vec<Segment>,
}

impl View for Template {
    type V = Seq<SegView>;

    open spec fn view(&self) -> Seq<SegView> {
        segs_view(self.segments@)
    }
}

/// A character allowed in a placeholder name.
pub open spec fn is_name_char(c: char) -> bool {
    ('a' <= c && c <= 'z') || ('0' <= c && c <= '9') || c == '_'
}

/// A well-formed placeholder name: nonempty, name characters only.
pub open spec fn is_name(s: Seq<char>) -> bool {
    s.len() > 0 && (forall|i: int| 0 <= i < s.len() ==> is_name_char(s[i]))
}

/// The position of the first `%]` at or after `i`, or `s.len()` when
/// there is none.
pub open spec fn find_closer(s: Seq<char>, i: int) -> int
    decreases s.len() - i,
{
    if i + 1 >= s.len() {
        s.len() as int
    } else if s[i] == '%' && s[i + 1] == ']' {
        i
    } else {
        find_closer(s, i + 1)
    }
}

/// The position of the first `[%` at or after `i`, or `s.len()` when
/// there is none.
pub open spec fn find_opener(s: Seq<char>, i: int) -> int
    decreases s.len() - i,
{
    if i + 1 >= s.len() {
        s.len() as int
    } else if s[i] == '[' && s[i + 1] == '%' {
        i
    } else {
        find_opener(s, i + 1)
    }
}

/// `find_closer` yields either `s.len()` or the position of a first
/// genuine match at or after `i`.
pub proof fn lemma_find_closer(s: Seq<char>, i: int)
    requires
        0 <= i <= s.len(),
    ensures
        i <= find_closer(s, i) <= s.len(),
        find_closer(s, i) < s.len() ==> find_closer(s, i) + 1 < s.len() && s[find_closer(s, i)]
            == '%' && s[find_closer(s, i) + 1] == ']',
    decreases s.len() - i,
{
    if i + 1 >= s.len() {
    } else if s[i] == '%' && s[i + 1] == ']' {
    } else {
        lemma_find_closer(s, i + 1);
    }
}

/// `find_opener` yields either `s.len()` or the position of a first
/// genuine match at or after `i`.
pub proof fn lemma_find_opener(s: Seq<char>, i: int)
    requires
        0 <= i <= s.len(),
    ensures
        i <= find_opener(s, i) <= s.len(),
        find_opener(s, i) < s.len() ==> find_opener(s, i) + 1 < s.len() && s[find_opener(s, i)]
            == '[' && s[find_opener(s, i) + 1] == '%',
    decreases s.len() - i,
{
    if i + 1 >= s.len() {
    } else if s[i] == '[' && s[i + 1] == '%' {
    } else {
        lemma_find_opener(s, i + 1);
    }
}

/// The parse of the template text from position `i` on: the segment
/// values, or `None` when the text is malformed.
pub open spec fn parse_from(s: Seq<char>, i: int) -> Option<Seq<SegView>>
    decreases s.len() - i,
    when 0 <= i
    via parse_from_dec
{
    if i >= s.len() {
        Some(Seq::<SegView>::empty())
    } else if i + 1 < s.len() && s[i] == '[' && s[i + 1] == '%' {
        let j = find_closer(s, i + 2);
        if j == s.len() {
            None
        } else {
            let name = s.subrange(i + 2, j);
            if name == seq!['*'] || is_name(name) {
                let seg = if name == seq!['*'] {
                    SegView::Args
                } else {
                    SegView::Key(name)
                };
                match parse_from(s, j + 2) {
                    Some(t) => Some(seq![seg] + t),
                    None => None,
                }
            } else {
                None
            }
        }
    } else {
        let k = find_opener(s, i + 1);
        match parse_from(s, k) {
            Some(t) => Some(seq![SegView::Lit(s.subrange(i, k))] + t),
            None => None,
        }
    }
}

#[via_fn]
proof fn parse_from_dec(s: Seq<char>, i: int) {
    if i < s.len() {
        if i + 1 < s.len() && s[i] == '[' && s[i + 1] == '%' {
            lemma_find_closer(s, i + 2);
        } else {
            lemma_find_opener(s, i + 1);
        }
    }
}

/// The parse of a whole template text.
pub open spec fn spec_parse(s: Seq<char>) -> Option<Seq<SegView>> {
    parse_from(s, 0)
}

/// What remains to parse from position `i`, appended to the segment
/// values already parsed.
spec fn parse_app(pre: Seq<SegView>, s: Seq<char>, i: int) -> Option<Seq<SegView>> {
    match parse_from(s, i) {
        Some(t) => Some(pre + t),
        None => None,
    }
}

/// One parsing step: consuming a construct that parses to `e@` and moves
/// the position from `i` to `next` keeps the continuation equation.
proof fn lemma_step_push(pre: Seq<Segment>, e: Segment, s: Seq<char>, i: int, next: int)
    requires
        parse_from(s, i) == (match parse_from(s, next) {
            Some(t) => Some(seq![e@] + t),
            None => Option::<Seq<SegView>>::None,
        }),
    ensures
        parse_app(segs_view(pre.push(e)), s, next) == parse_app(segs_view(pre), s, i),
{
    assert(segs_view(pre.push(e)) =~= segs_view(pre).push(e@));
    match parse_from(s, next) {
        Some(t) => {
            assert(segs_view(pre).push(e@) + t =~= segs_view(pre) + (seq![e@] + t));
        },
        None => {},
    }
}

/// Parses template text into segments.  Fails exactly on malformed text:
/// a `[%` without a `%]`, or a placeholder name that is empty or holds a
/// character outside `a`-`z`, `0`-`9`, `_` (other than the lone `*`).
#[verifier::loop_isolation(false)]
pub fn parse(src: &str) -> (r: Result<Template, TemplateError>)
    ensures
        match r {
            Ok(t) => spec_parse(src@) == Some(t@),
            Err(e) => spec_parse(src@) is None && (e matches TemplateError::Syntax),
        },
{
    let n: usize = src.unicode_len();
    let mut segs: Vec<Segment> = Vec::new();
    let mut pos: usize = 0;
    proof {
        assert(segs_view(segs@) =~= Seq::<SegView>::empty());
        match parse_from(src@, 0) {
            Some(t) => {
                assert(Seq::<SegView>::empty() + t =~= t);
            },
            None => {},
        }
    }
    loop
        invariant
            pos <= n,
            parse_app(segs_view(segs@), src@, pos as int) == spec_parse(src@),
        decreases n - pos,
    {
        if pos >= n {
            proof {
                assert(parse_from(src@, pos as int) == Some(Seq::<SegView>::empty()));
                assert(segs_view(segs@) + Seq::<SegView>::empty() =~= segs_view(segs@));
            }
            return Ok(Template { segments: segs });
        }
        let c0 = src.get_char(pos);
        let is_opener = c0 == '[' && pos + 1 < n && src.get_char(pos + 1) == '%';
        if is_opener {
            // Scan for the first `%]` after the opener.
            let mut j: usize = pos + 2;
            while j < n - 1 && !(src.get_char(j) == '%' && src.get_char(j + 1) == ']')
                invariant
                    pos + 2 <= j <= n,
                    find_closer(src@, pos as int + 2) == find_closer(src@, j as int),
                decreases n - j,
            {
                proof {
                    assert(find_closer(src@, j as int) == find_closer(src@, j as int + 1));
                }
                j = j + 1;
            }
            if j >= n - 1 {
                proof {
                    assert(find_closer(src@, j as int) == n as int);
                    assert(parse_from(src@, pos as int) is None);
                }
                return Err(TemplateError::Syntax);
            }
            proof {
                assert(find_closer(src@, j as int) == j);
            }
            let nm: &str = src.substring_char(pos + 2, j);
            let ghost name: Seq<char> = src@.subrange(pos as int + 2, j as int);
            let nlen: usize = nm.unicode_len();
            let is_star = nlen == 1 && nm.get_char(0) == '*';
            if is_star {
                proof {
                    assert(name =~= seq!['*']);
                }
                let seg = Segment::Args;
                let ghost gseg = seg;
                let ghost pre = segs@;
                segs.push(seg);
                proof {
                    lemma_step_push(pre, gseg, src@, pos as int, j as int + 2);
                }
            } else {
                if nlen == 0 {
                    proof {
                        assert(name != seq!['*']);
                        assert(!is_name(name));
                        assert(parse_from(src@, pos as int) is None);
                    }
                    return Err(TemplateError::Syntax);
                }
                let mut q: usize = 0;
                while q < nlen
                    invariant
                        q <= nlen,
                        forall|m: int| 0 <= m < q ==> is_name_char(name[m]),
                    decreases nlen - q,
                {
                    let c = nm.get_char(q);
                    let ok = ('a' <= c && c <= 'z') || ('0' <= c && c <= '9') || c == '_';
                    if !ok {
                        proof {
                            if name == seq!['*'] {
                                assert(name[0] == '*');
                                assert(false);
                            }
                            assert(!is_name_char(name[q as int]));
                            assert(!is_name(name));
                            assert(parse_from(src@, pos as int) is None);
                        }
                        return Err(TemplateError::Syntax);
                    }
                    q = q + 1;
                }
                proof {
                    assert(is_name(name));
                    if name == seq!['*'] {
                        assert(name[0] == '*');
                        assert(false);
                    }
                }
                let seg = Segment::Key(nm.to_owned());
                let ghost gseg = seg;
                let ghost pre = segs@;
                segs.push(seg);
                proof {
                    assert(gseg@ == SegView::Key(name));
                    lemma_step_push(pre, gseg, src@, pos as int, j as int + 2);
                }
            }
            pos = j + 2;
        } else {
            // A literal run: up to the next `[%`, or the end of the text.
            let mut k: usize = pos + 1;
            while k < n - 1 && !(src.get_char(k) == '[' && src.get_char(k + 1) == '%')
                invariant
                    pos + 1 <= k <= n,
                    find_opener(src@, pos as int + 1) == find_opener(src@, k as int),
                decreases n - k,
            {
                proof {
                    assert(find_opener(src@, k as int) == find_opener(src@, k as int + 1));
                }
                k = k + 1;
            }
            if k >= n - 1 {
                proof {
                    assert(find_opener(src@, k as int) == n as int);
                }
                k = n;
            } else {
                proof {
                    assert(find_opener(src@, k as int) == k);
                }
            }
            let lit: &str = src.substring_char(pos, k);
            let seg = Segment::Lit(lit.to_owned());
            let ghost gseg = seg;
            let ghost pre = segs@;
            segs.push(seg);
            proof {
                assert(gseg@ == SegView::Lit(src@.subrange(pos as int, k as int)));
                lemma_step_push(pre, gseg, src@, pos as int, k as int);
            }
            pos = k;
        }
    }
}

/// What follows the first element in a joined argument list: a single
/// space before each further element.
pub open spec fn spec_join_tail(args: Seq<Seq<char>>) -> Seq<char>
    decreases args.len(),
{
    if args.len() == 0 {
        Seq::<char>::empty()
    } else {
        seq![' '] + args[0] + spec_join_tail(args.drop_first())
    }
}

/// The positional arguments joined by single spaces.
pub open spec fn spec_join(args: Seq<Seq<char>>) -> Seq<char> {
    if args.len() == 0 {
        Seq::<char>::empty()
    } else {
        args[0] + spec_join_tail(args.drop_first())
    }
}

/// The first placeholder of `segs` that the Option Set does not bind.
pub open spec fn first_missing(segs: Seq<SegView>, opts: Seq<(Seq<char>, Seq<char>)>) -> Option<
    Seq<char>,
>
    decreases segs.len(),
{
    if segs.len() == 0 {
        None
    } else {
        match segs[0] {
            SegView::Key(k) => if assoc_get(opts, k) is None {
                Some(k)
            } else {
                first_missing(segs.drop_first(), opts)
            },
            _ => first_missing(segs.drop_first(), opts),
        }
    }
}

/// The rendering of segments against an Option Set and argument list:
/// literals verbatim, each placeholder replaced by the value its name is
/// bound to, the positional placeholder by the joined arguments.
pub open spec fn spec_render(
    segs: Seq<SegView>,
    opts: Seq<(Seq<char>, Seq<char>)>,
    args: Seq<Seq<char>>,
) -> Seq<char>
    decreases segs.len(),
{
    if segs.len() == 0 {
        Seq::<char>::empty()
    } else {
        (match segs[0] {
            SegView::Lit(t) => t,
            SegView::Key(k) => match assoc_get(opts, k) {
                Some(v) => v,
                None => Seq::<char>::empty(),
            },
            SegView::Args => spec_join(args),
        }) + spec_render(segs.drop_first(), opts, args)
    }
}

/// Joins the positional input-file names with single spaces.
#[verifier::loop_isolation(false)]
fn join_args(args: &Vec<String>) -> (r: String)
    ensures
        r@ == spec_join(args.deep_view()),
{
    if args.len() == 0 {
        return String::new();
    }
    let mut out: String = args[0].clone();
    let mut i: usize = 1;
    proof {
        assert(args.deep_view().len() == args@.len());
        assert(args.deep_view()[0] == args@[0]@);
        assert(args.deep_view().drop_first() =~= args.deep_view().skip(1));
    }
    while i < args.len()
        invariant
            1 <= i <= args@.len(),
            spec_join(args.deep_view()) == out@ + spec_join_tail(
                args.deep_view().skip(i as int),
            ),
        decreases args@.len() - i,
    {
        let ghost pre = out@;
        out.append(" ");
        out.append(args[i].as_str());
        proof {
            assert(args.deep_view()[i as int] == args@[i as int]@);
            assert(args.deep_view().skip(i as int).drop_first() =~= args.deep_view().skip(
                i as int + 1,
            ));
            assert(args.deep_view().skip(i as int)[0] == args.deep_view()[i as int]);
            reveal_strlit(" ");
            assert(out@ =~= pre + (seq![' '] + args.deep_view()[i as int]));
            assert(pre + (seq![' '] + args.deep_view()[i as int]) + spec_join_tail(
                args.deep_view().skip(i as int + 1),
            ) =~= pre + spec_join_tail(args.deep_view().skip(i as int)));
        }
        i = i + 1;
    }
    proof {
        assert(args.deep_view().skip(i as int).len() == 0);
        assert(out@ + spec_join_tail(args.deep_view().skip(i as int)) =~= out@);
    }
    out
}

impl Template {
    /// Renders the template against the Option Set and the positional
    /// arguments.  Every placeholder is validated against the set before
    /// any text is produced: on a missing option nothing is rendered and
    /// the first missing name is reported.
    #[verifier::loop_isolation(false)]
    pub fn render(&self, opts: &OptionSet, args: &Vec<String>) -> (r: Result<
        String,
        TemplateError,
    >)
        ensures
            match r {
                Ok(text) => first_missing(self@, opts@) is None && text@ == spec_render(
                    self@,
                    opts@,
                    args.deep_view(),
                ),
                Err(e) => (e matches TemplateError::MissingKey(k) && first_missing(self@, opts@)
                    == Some(k@)),
            },
    {
        // Validate exhaustively before producing any text.
        let mut i: usize = 0;
        proof {
            assert(self@.skip(0) =~= self@);
        }
        while i < self.segments.len()
            invariant
                i <= self.segments@.len(),
                first_missing(self@, opts@) == first_missing(self@.skip(i as int), opts@),
            decreases self.segments@.len() - i,
        {
            proof {
                assert(self@.skip(i as int)[0] == self@[i as int]);
                assert(self@[i as int] == self.segments@[i as int]@);
                assert(self@.skip(i as int).drop_first() =~= self@.skip(i as int + 1));
            }
            match &self.segments[i] {
                Segment::Key(k) => {
                    match opts.get(k.as_str()) {
                        Some(_) => {},
                        None => {
                            return Err(TemplateError::MissingKey(k.clone()));
                        },
                    }
                },
                _ => {},
            }
            i = i + 1;
        }
        proof {
            assert(self@.skip(i as int).len() == 0);
            assert(first_missing(self@, opts@) is None);
        }
        // Substitute.
        let mut out = String::new();
        let mut p: usize = 0;
        proof {
            assert(self@.skip(0) =~= self@);
            assert(Seq::<char>::empty() + spec_render(self@, opts@, args.deep_view())
                =~= spec_render(self@, opts@, args.deep_view()));
        }
        while p < self.segments.len()
            invariant
                p <= self.segments@.len(),
                first_missing(self@.skip(p as int), opts@) is None,
                spec_render(self@, opts@, args.deep_view()) == out@ + spec_render(
                    self@.skip(p as int),
                    opts@,
                    args.deep_view(),
                ),
            decreases self.segments@.len() - p,
        {
            proof {
                assert(self@.skip(p as int)[0] == self@[p as int]);
                assert(self@[p as int] == self.segments@[p as int]@);
                assert(self@.skip(p as int).drop_first() =~= self@.skip(p as int + 1));
            }
            let ghost pre = out@;
            let ghost head: Seq<char> = (match self@.skip(p as int)[0] {
                SegView::Lit(t) => t,
                SegView::Key(k) => match assoc_get(opts@, k) {
                    Some(v) => v,
                    None => Seq::<char>::empty(),
                },
                SegView::Args => spec_join(args.deep_view()),
            });
            match &self.segments[p] {
                Segment::Lit(t) => {
                    out.append(t.as_str());
                },
                Segment::Key(k) => {
                    match opts.get(k.as_str()) {
                        Some(v) => {
                            out.append(v.as_str());
                        },
                        None => {
                            proof {
                                assert(false);
                            }
                            return Err(TemplateError::Syntax);
                        },
                    }
                },
                Segment::Args => {
                    let joined = join_args(args);
                    out.append(joined.as_str());
                },
            }
            proof {
                assert(out@ == pre + head);
                assert(pre + head + spec_render(self@.skip(p as int + 1), opts@, args.deep_view())
                    =~= pre + spec_render(self@.skip(p as int), opts@, args.deep_view()));
            }
            p = p + 1;
        }
        proof {
            assert(self@.skip(p as int).len() == 0);
            assert(out@ + spec_render(self@.skip(p as int), opts@, args.deep_view()) =~= out@);
        }
        Ok(out)
    }
}

} // verus!
