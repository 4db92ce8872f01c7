use anchr::opts::{normalize, OptionSet, RawOptions};
use anchr::stage::{compose, StageDescriptor};

fn raw_defaults() -> RawOptions {
    RawOptions {
        genome: None,
        se: false,
        xmx: None,
        parallel: None,
        queue: None,
        fastqc: false,
        kmergenie: false,
        trim: None,
        sample: None,
        qual: None,
        reads_len: None,
        filter: None,
        quorum: false,
        merge: false,
        prefilter: None,
        ecphase: None,
        cov: None,
        splitp: None,
        statp: None,
    }
}

fn plan_names(opts: &OptionSet) -> Vec<String> {
    let plan: Vec<StageDescriptor> = compose(opts);
    plan.into_iter().map(|d| d.output_name).collect()
}

#[test]
fn plan_default_names() {
    let opts = normalize(&raw_defaults());
    let names = plan_names(&opts);
    let expected = vec![
        "2_trim.sh",
        "9_stat_reads.sh",
        "2_quorum.sh",
        "4_down_sampling.sh",
        "4_unitigs.sh",
        "4_anchors.sh",
        "9_stat_anchors.sh",
        "0_cleanup.sh",
        "0_real_clean.sh",
        "0_master.sh",
    ];
    assert_eq!(names, expected);
}

#[test]
fn plan_pe_merge_quorum_order() {
    let mut raw = raw_defaults();
    raw.se = false;
    raw.merge = true;
    raw.quorum = true;
    let opts = normalize(&raw);
    let names = plan_names(&opts);
    let expected = vec![
        "2_trim.sh",
        "9_stat_reads.sh",
        "2_quorum.sh",
        "4_down_sampling.sh",
        "4_unitigs.sh",
        "4_anchors.sh",
        "9_stat_anchors.sh",
        "2_merge.sh",
        "6_down_sampling.sh",
        "6_unitigs.sh",
        "6_anchors.sh",
        "9_stat_mr_anchors.sh",
        "0_cleanup.sh",
        "0_real_clean.sh",
        "0_master.sh",
    ];
    assert_eq!(names, expected);
}

#[test]
fn plan_single_end_excludes_merge() {
    let mut raw = raw_defaults();
    raw.se = true;
    raw.merge = true;
    let opts = normalize(&raw);
    let names = plan_names(&opts);
    let merge_stages = vec![
        "2_merge.sh",
        "6_down_sampling.sh",
        "6_unitigs.sh",
        "6_anchors.sh",
        "9_stat_mr_anchors.sh",
    ];
    for m in merge_stages {
        assert!(!names.iter().any(|n| n == m), "{} must be absent", m);
    }
    assert!(names.iter().any(|n| n == "2_trim.sh"));
    assert!(names.iter().any(|n| n == "0_master.sh"));
}

#[test]
fn plan_quality_check_flags() {
    let mut raw = raw_defaults();
    raw.fastqc = true;
    raw.kmergenie = true;
    let opts = normalize(&raw);
    let names = plan_names(&opts);
    assert_eq!(names[0], "2_fastqc.sh");
    assert_eq!(names[1], "2_kmergenie.sh");
    assert_eq!(names[2], "2_trim.sh");
}

#[test]
fn plan_depends_only_on_flags() {
    let mut raw1 = raw_defaults();
    raw1.merge = true;
    let mut raw2 = raw_defaults();
    raw2.merge = true;
    raw2.genome = Some(String::from("4641652"));
    raw2.parallel = Some(String::from("24"));
    raw2.qual = Some(String::from("30 35"));
    let names1 = plan_names(&normalize(&raw1));
    let names2 = plan_names(&normalize(&raw2));
    assert_eq!(names1, names2);
}

#[test]
fn plan_repeat_identical() {
    let mut raw = raw_defaults();
    raw.quorum = true;
    raw.merge = true;
    let opts = normalize(&raw);
    assert_eq!(plan_names(&opts), plan_names(&opts));
}

#[test]
fn plan_names_never_collide() {
    for bits in 0..32u32 {
        let mut raw = raw_defaults();
        raw.se = bits & 1 != 0;
        raw.fastqc = bits & 2 != 0;
        raw.kmergenie = bits & 4 != 0;
        raw.quorum = bits & 8 != 0;
        raw.merge = bits & 16 != 0;
        let names = plan_names(&normalize(&raw));
        for (i, a) in names.iter().enumerate() {
            for b in names.iter().skip(i + 1) {
                assert_ne!(a, b);
            }
        }
    }
}

#[test]
fn plan_exactly_one_quorum_output() {
    for quorum in [false, true] {
        let mut raw = raw_defaults();
        raw.quorum = quorum;
        let opts = normalize(&raw);
        let names = plan_names(&opts);
        let count = names.iter().filter(|n| n.as_str() == "2_quorum.sh").count();
        assert_eq!(count, 1);
    }
}
