use anchr::opts::{normalize, OptionSet, RawOptions};

fn raw_defaults() -> RawOptions {
    RawOptions {
        genome: None,
        se: false,
        xmx: None,
        parallel: None,
        queue: None,
        fastqc: false,
        kmergenie: false,
        trim: None,
        sample: None,
        qual: None,
        reads_len: None,
        filter: None,
        quorum: false,
        merge: false,
        prefilter: None,
        ecphase: None,
        cov: None,
        splitp: None,
        statp: None,
    }
}

fn value(opts: &OptionSet, key: &str) -> String {
    opts.get(key).expect(key).clone()
}

#[test]
fn normalize_fills_defaults() {
    let opts = normalize(&raw_defaults());
    assert_eq!(value(&opts, "genome"), "1000000");
    assert_eq!(value(&opts, "parallel"), "8");
    assert_eq!(value(&opts, "queue"), "mpi");
    assert_eq!(value(&opts, "trim"), "--dedupe");
    assert_eq!(value(&opts, "qual"), "25 30");
    assert_eq!(value(&opts, "len"), "60");
    assert_eq!(value(&opts, "filter"), "adapter");
    assert_eq!(value(&opts, "ecphase"), "1 2 3");
    assert_eq!(value(&opts, "cov"), "40 80");
    assert_eq!(value(&opts, "splitp"), "20");
    assert_eq!(value(&opts, "statp"), "2");
}

#[test]
fn normalize_uses_sentinel_for_absent_options() {
    let opts = normalize(&raw_defaults());
    assert_eq!(value(&opts, "xmx"), "0");
    assert_eq!(value(&opts, "sample"), "0");
    assert_eq!(value(&opts, "prefilter"), "0");
}

#[test]
fn normalize_encodes_flags() {
    let mut raw = raw_defaults();
    raw.se = true;
    raw.quorum = true;
    let opts = normalize(&raw);
    assert_eq!(value(&opts, "se"), "1");
    assert_eq!(value(&opts, "quorum"), "1");
    assert_eq!(value(&opts, "fastqc"), "0");
    assert_eq!(value(&opts, "kmergenie"), "0");
    assert_eq!(value(&opts, "merge"), "0");
}

#[test]
fn normalize_keeps_raw_values_verbatim() {
    let mut raw = raw_defaults();
    raw.genome = Some(String::from("0"));
    raw.qual = Some(String::from("20"));
    raw.xmx = Some(String::from("40"));
    let opts = normalize(&raw);
    assert_eq!(value(&opts, "genome"), "0");
    assert_eq!(value(&opts, "qual"), "20");
    assert_eq!(value(&opts, "xmx"), "40");
}

#[test]
fn lookup_misses_unknown_key() {
    let opts = normalize(&raw_defaults());
    assert!(opts.get("coverage").is_none());
}
