//! The Option Set: a canonical, string-keyed configuration built once per run.
//!
//! Raw flag presence/value pairs are normalized into a total mapping from
//! option name to string value.  Booleans become `"0"`/`"1"`; a value-bearing
//! option with a default receives that default verbatim when absent; one
//! without a default receives the sentinel `"0"`.  Normalization is total:
//! any raw value is accepted as an opaque string.

use vstd::prelude::*;

verus! {

/// One binding of the Option Set: an option name and its string value.
pub struct OptEntry {
    pub key: String,
    pub value: String,
}

/// Canonical string-keyed configuration derived from raw run parameters.
///
/// Modeled as an ordered association list; lookup takes the first entry
/// whose key matches.
pub struct OptionSet {
    pub entries: Vec<OptEntry>,
}

impl View for OptionSet {
    type V = Seq<(Seq<char>, Seq<char>)>;

    open spec fn view(&self) -> Seq<(Seq<char>, Seq<char>)> {
        self.entries@.map(|i: int, e: OptEntry| (e.key@, e.value@))
    }
}

/// First-match lookup in an association list of name/value pairs.
pub open spec fn assoc_get(s: Seq<(Seq<char>, Seq<char>)>, k: Seq<char>) -> Option<Seq<char>>
    decreases s.len(),
{
    if s.len() == 0 {
        None
    } else if s[0].0 == k {
        Some(s[0].1)
    } else {
        assoc_get(s.drop_first(), k)
    }
}

impl OptionSet {
    /// The value bound to `k`, if any, in this set's view.
    pub open spec fn spec_get(self, k: Seq<char>) -> Option<Seq<char>> {
        assoc_get(self@, k)
    }

    /// An empty Option Set.
    pub fn new() -> (r: OptionSet)
        ensures
            r@ == Seq::<(Seq<char>, Seq<char>)>::empty(),
    {
        let r = OptionSet { entries: Vec::new() };
        proof {
            assert(r@ =~= Seq::<(Seq<char>, Seq<char>)>::empty());
        }
        r
    }

    /// Appends one name/value binding.
    pub fn put(&mut self, key: &str, value: &str)
        ensures
            final(self)@ == old(self)@.push((key@, value@)),
    {
        let e = OptEntry { key: key.to_owned(), value: value.to_owned() };
        self.entries.push(e);
        proof {
            assert(final(self)@ =~= old(self)@.push((key@, value@)));
        }
    }

    /// Looks the name up; `None` when the set has no such binding.
    pub fn get(&self, key: &str) -> (r: Option<&String>)
        ensures
            match r {
                Some(v) => self.spec_get(key@) == Some(v@),
                None => self.spec_get(key@) is None,
            },
    {
        let k: String = key.to_owned();
        let mut i: usize = 0;
        proof {
            assert(self@.skip(0) =~= self@);
        }
        while i < self.entries.len()
            invariant
                i <= self.entries@.len(),
                k@ == key@,
                assoc_get(self@, key@) == assoc_get(self@.skip(i as int), key@),
            decreases self.entries@.len() - i,
        {
            proof {
                assert(self@.skip(i as int)[0] == self@[i as int]);
                assert(self@.skip(i as int).drop_first() =~= self@.skip(i as int + 1));
            }
            if self.entries[i].key == k {
                return Some(&self.entries[i].value);
            }
            i = i + 1;
        }
        proof {
            assert(self@.skip(i as int).len() == 0);
        }
        None
    }
}

/// Raw run parameters for script generation, as the command line hands
/// them over: `None` where a value-bearing option was not given, `false`
/// where a boolean flag was not given.
pub struct RawOptions {
    pub genome: Option<String>,
    pub se: bool,
    pub xmx: Option<String>,
    pub parallel: Option<String>,
    pub queue: Option<String>,
    pub fastqc: bool,
    pub kmergenie: bool,
    pub trim: Option<String>,
    pub sample: Option<String>,
    pub qual: Option<String>,
    pub reads_len: Option<String>,
    pub filter: Option<String>,
    pub quorum: bool,
    pub merge: bool,
    pub prefilter: Option<String>,
    pub ecphase: Option<String>,
    pub cov: Option<String>,
    pub splitp: Option<String>,
    pub statp: Option<String>,
}

/// Raw parameters of the standalone read-correction script generator.
pub struct QuorumRawOptions {
    pub jf: Option<String>,
    pub estsize: Option<String>,
    pub prefix: Option<String>,
    pub parallel: Option<String>,
}

/// The given value, or the default when the option was not given.
pub open spec fn defaulted(v: Option<String>, d: Seq<char>) -> Seq<char> {
    match v {
        Some(s) => s@,
        None => d,
    }
}

/// The encoding of a boolean flag: `"1"` when given, `"0"` when not.
pub open spec fn flag_str(b: bool) -> Seq<char> {
    if b {
        "1"@
    } else {
        "0"@
    }
}

/// The Option Set that normalization owes for the given raw parameters:
/// every option the stage templates may consume, in a fixed order, with
/// defaults filled in and booleans encoded as `"0"`/`"1"`.  Options with
/// no meaningful default receive the sentinel `"0"` when absent.
pub open spec fn spec_normalize(raw: RawOptions) -> Seq<(Seq<char>, Seq<char>)> {
    seq![
        ("genome"@, defaulted(raw.genome, "1000000"@)),
        ("se"@, flag_str(raw.se)),
        ("xmx"@, defaulted(raw.xmx, "0"@)),
        ("parallel"@, defaulted(raw.parallel, "8"@)),
        ("queue"@, defaulted(raw.queue, "mpi"@)),
        ("fastqc"@, flag_str(raw.fastqc)),
        ("kmergenie"@, flag_str(raw.kmergenie)),
        ("trim"@, defaulted(raw.trim, "--dedupe"@)),
        ("sample"@, defaulted(raw.sample, "0"@)),
        ("qual"@, defaulted(raw.qual, "25 30"@)),
        ("len"@, defaulted(raw.reads_len, "60"@)),
        ("filter"@, defaulted(raw.filter, "adapter"@)),
        ("quorum"@, flag_str(raw.quorum)),
        ("merge"@, flag_str(raw.merge)),
        ("prefilter"@, defaulted(raw.prefilter, "0"@)),
        ("ecphase"@, defaulted(raw.ecphase, "1 2 3"@)),
        ("cov"@, defaulted(raw.cov, "40 80"@)),
        ("splitp"@, defaulted(raw.splitp, "20"@)),
        ("statp"@, defaulted(raw.statp, "2"@)),
    ]
}

/// The Option Set owed for the standalone read-correction script.
pub open spec fn spec_normalize_quorum(raw: QuorumRawOptions) -> Seq<(Seq<char>, Seq<char>)> {
    seq![
        ("jf"@, defaulted(raw.jf, "500000000"@)),
        ("estsize"@, defaulted(raw.estsize, "auto"@)),
        ("prefix"@, defaulted(raw.prefix, "pe"@)),
        ("parallel"@, defaulted(raw.parallel, "8"@)),
    ]
}

/// Appends `key` bound to the given value, or to `d` when absent.
fn put_defaulted(o: &mut OptionSet, key: &str, v: &Option<String>, d: &str)
    ensures
        final(o)@ == old(o)@.push((key@, defaulted(*v, d@))),
{
    match v {
        Some(s) => o.put(key, s.as_str()),
        None => o.put(key, d),
    }
}

/// Appends `key` bound to the flag's `"0"`/`"1"` encoding.
fn put_flag(o: &mut OptionSet, key: &str, b: bool)
    ensures
        final(o)@ == old(o)@.push((key@, flag_str(b))),
{
    if b {
        o.put(key, "1");
    } else {
        o.put(key, "0");
    }
}

/// Builds the total Option Set for script generation.  Normalization never
/// fails: every raw value is accepted as an opaque string.
pub fn normalize(raw: &RawOptions) -> (r: OptionSet)
    ensures
        r@ == spec_normalize(*raw),
{
    let mut o = OptionSet::new();
    put_defaulted(&mut o, "genome", &raw.genome, "1000000");
    put_flag(&mut o, "se", raw.se);
    put_defaulted(&mut o, "xmx", &raw.xmx, "0");
    put_defaulted(&mut o, "parallel", &raw.parallel, "8");
    put_defaulted(&mut o, "queue", &raw.queue, "mpi");
    put_flag(&mut o, "fastqc", raw.fastqc);
    put_flag(&mut o, "kmergenie", raw.kmergenie);
    put_defaulted(&mut o, "trim", &raw.trim, "--dedupe");
    put_defaulted(&mut o, "sample", &raw.sample, "0");
    put_defaulted(&mut o, "qual", &raw.qual, "25 30");
    put_defaulted(&mut o, "len", &raw.reads_len, "60");
    put_defaulted(&mut o, "filter", &raw.filter, "adapter");
    put_flag(&mut o, "quorum", raw.quorum);
    put_flag(&mut o, "merge", raw.merge);
    put_defaulted(&mut o, "prefilter", &raw.prefilter, "0");
    put_defaulted(&mut o, "ecphase", &raw.ecphase, "1 2 3");
    put_defaulted(&mut o, "cov", &raw.cov, "40 80");
    put_defaulted(&mut o, "splitp", &raw.splitp, "20");
    put_defaulted(&mut o, "statp", &raw.statp, "2");
    proof {
        assert(o@ =~= spec_normalize(*raw));
    }
    o
}

/// Builds the Option Set for the standalone read-correction script.
pub fn normalize_quorum(raw: &QuorumRawOptions) -> (r: OptionSet)
    ensures
        r@ == spec_normalize_quorum(*raw),
{
    let mut o = OptionSet::new();
    put_defaulted(&mut o, "jf", &raw.jf, "500000000");
    put_defaulted(&mut o, "estsize", &raw.estsize, "auto");
    put_defaulted(&mut o, "prefix", &raw.prefix, "pe");
    put_defaulted(&mut o, "parallel", &raw.parallel, "8");
    proof {
        assert(o@ =~= spec_normalize_quorum(*raw));
    }
    o
}

} // verus!
