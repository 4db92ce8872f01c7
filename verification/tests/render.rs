use anchr::opts::{normalize, normalize_quorum, OptionSet, QuorumRawOptions, RawOptions};
use anchr::pipeline::{emit_plan, quorum_script, render_stage, Artifact};
use anchr::stage::master_list;
use anchr::template::{parse, TemplateError};

fn raw_defaults() -> RawOptions {
    RawOptions {
        genome: None,
        se: false,
        xmx: None,
        parallel: None,
        queue: None,
        fastqc: false,
        kmergenie: false,
        trim: None,
        sample: None,
        qual: None,
        reads_len: None,
        filter: None,
        quorum: false,
        merge: false,
        prefilter: None,
        ecphase: None,
        cov: None,
        splitp: None,
        statp: None,
    }
}

#[test]
fn emit_default_plan() {
    let opts = normalize(&raw_defaults());
    let arts: Vec<Artifact> = emit_plan(&opts).unwrap();
    assert_eq!(arts.len(), 10);
    for a in &arts {
        assert!(a.text.starts_with("#!/usr/bin/env bash\n"));
        assert!(a.name.ends_with(".sh"));
    }
}

#[test]
fn emit_substitutes_values() {
    let mut raw = raw_defaults();
    raw.genome = Some(String::from("4641652"));
    raw.parallel = Some(String::from("16"));
    let opts = normalize(&raw);
    let arts = emit_plan(&opts).unwrap();
    let trim = arts.iter().find(|a| a.name == "2_trim.sh").unwrap();
    assert!(trim.text.contains("--qual 25 30"));
    assert!(trim.text.contains("--len 60"));
    assert!(trim.text.contains("--filter adapter"));
    assert!(trim.text.contains("--parallel 16"));
    assert!(trim.text.contains("log_info Threads: 16"));
    let stat = arts.iter().find(|a| a.name == "9_stat_reads.sh").unwrap();
    assert!(stat.text.contains("echo 4641652 >> statReads.md"));
}

#[test]
fn quorum_variant_selected() {
    let mut raw = raw_defaults();
    raw.quorum = true;
    let arts = emit_plan(&normalize(&raw)).unwrap();
    let q = arts.iter().find(|a| a.name == "2_quorum.sh").unwrap();
    assert!(q.text.contains("quorum_correct"));
    assert!(!q.text.contains("Correction skipped"));
}

#[test]
fn no_quorum_variant_selected() {
    let raw = raw_defaults();
    let arts = emit_plan(&normalize(&raw)).unwrap();
    let q = arts.iter().find(|a| a.name == "2_quorum.sh").unwrap();
    assert!(q.text.contains("Correction skipped"));
    assert!(!q.text.contains("quorum_correct"));
}

#[test]
fn emit_idempotent() {
    let mut raw = raw_defaults();
    raw.merge = true;
    raw.quorum = true;
    raw.fastqc = true;
    let opts = normalize(&raw);
    let first = emit_plan(&opts).unwrap();
    let second = emit_plan(&opts).unwrap();
    assert_eq!(first.len(), second.len());
    for (a, b) in first.iter().zip(second.iter()) {
        assert_eq!(a.name, b.name);
        assert_eq!(a.text, b.text);
    }
}

#[test]
fn missing_key_rejected_before_rendering() {
    let empty = OptionSet::new();
    let master = master_list();
    let r = render_stage(&master[2], &empty);
    match r {
        Err(TemplateError::MissingKey(k)) => assert_eq!(k, "parallel"),
        _ => panic!("expected a missing-key failure"),
    }
    match emit_plan(&empty) {
        Err(TemplateError::MissingKey(_)) => {},
        _ => panic!("expected a missing-key failure"),
    }
}

#[test]
fn missing_key_names_first_absent_option() {
    let mut opts = OptionSet::new();
    opts.put("parallel", "8");
    let master = master_list();
    let r = render_stage(&master[2], &opts);
    match r {
        Err(TemplateError::MissingKey(k)) => assert_eq!(k, "trim"),
        _ => panic!("expected a missing-key failure"),
    }
}

#[test]
fn parse_reports_unterminated_placeholder() {
    match parse("echo [%parallel") {
        Err(TemplateError::Syntax) => {},
        _ => panic!("expected a syntax failure"),
    }
}

#[test]
fn parse_reports_bad_name() {
    match parse("echo [%bad name%]") {
        Err(TemplateError::Syntax) => {},
        _ => panic!("expected a syntax failure"),
    }
    match parse("echo [%%]") {
        Err(TemplateError::Syntax) => {},
        _ => panic!("expected a syntax failure"),
    }
}

#[test]
fn render_small_template() {
    let t = parse("cov [%cov%] of [%genome%]").unwrap();
    let mut opts = OptionSet::new();
    opts.put("cov", "40 80");
    opts.put("genome", "1000000");
    let args: Vec<String> = Vec::new();
    let text = t.render(&opts, &args).unwrap();
    assert_eq!(text, "cov 40 80 of 1000000");
}

#[test]
fn quorum_script_binds_infiles() {
    let raw = QuorumRawOptions { jf: None, estsize: None, prefix: None, parallel: None };
    let opts = normalize_quorum(&raw);
    let infiles = vec![String::from("R1.fq.gz"), String::from("R2.fq.gz")];
    let text = quorum_script(&opts, &infiles).unwrap();
    assert!(text.starts_with("#!/usr/bin/env bash\n"));
    assert!(text.contains("echo R1.fq.gz R2.fq.gz"));
    assert!(text.contains("--size 500000000"));
    assert!(text.contains("--estimated-genome-size auto"));
    assert!(text.contains("--prefix pe"));
    assert!(text.contains("-t 8"));
}

#[test]
fn quorum_script_honors_values() {
    let raw = QuorumRawOptions {
        jf: Some(String::from("2000000000")),
        estsize: Some(String::from("4641652")),
        prefix: Some(String::from("se")),
        parallel: Some(String::from("24")),
    };
    let opts = normalize_quorum(&raw);
    let infiles = vec![String::from("reads.fq")];
    let text = quorum_script(&opts, &infiles).unwrap();
    assert!(text.contains("--size 2000000000"));
    assert!(text.contains("--estimated-genome-size 4641652"));
    assert!(text.contains("--prefix se"));
    assert!(text.contains("-t 24"));
    assert!(text.contains("echo reads.fq\n"));
}
