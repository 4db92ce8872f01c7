//! The Template Catalog: the fixed text blueprints the stages render.
//!
//! Each stage has one body fragment, addressed by its stage identifier;
//! a shared header fragment is concatenated ahead of every body so all
//! generated scripts start with the same boilerplate.  The standalone
//! read-correction command has a body of its own, the only template that
//! uses the positional-arguments placeholder `[%*%]`.

use vstd::prelude::*;

use crate::stage::StageId;

verus! {

/// The shared header fragment of the generated scripts.
pub open spec fn spec_header_source() -> Seq<char> {
    "#!/usr/bin/env bash

set -o errexit
set -o pipefail

log_info () {
    echo [log] $* 1>&2
}

cd $(dirname $0)

log_info Threads: [%parallel%]

"@
}

/// The shared header fragment as a value.
pub fn header_source() -> (r: &'static str)
    ensures
        r@ == spec_header_source(),
{
    "#!/usr/bin/env bash

set -o errexit
set -o pipefail

log_info () {
    echo [log] $* 1>&2
}

cd $(dirname $0)

log_info Threads: [%parallel%]

"
}

/// The body fragment of each stage's template.
pub open spec fn spec_body_source(id: StageId) -> Seq<char> {
    match id {
        StageId::Fastqc => "log_info 2_fastqc

mkdir -p 2_illumina/fastqc
cd 2_illumina/fastqc

fastqc -t [%parallel%] ../R1.fq.gz ../R2.fq.gz
"@,
        StageId::Kmergenie => "log_info 2_kmergenie

mkdir -p 2_illumina/kmergenie
cd 2_illumina/kmergenie

kmergenie -l 21 -k 121 -s 10 -t [%parallel%] ../R1.fq.gz -o kmergenie
"@,
        StageId::Trim => "log_info 2_trim

mkdir -p 2_illumina/trim
cd 2_illumina/trim

anchr trim [%trim%] --qual [%qual%] --len [%len%] --filter [%filter%] --sample [%sample%] --parallel [%parallel%] --xmx [%xmx%] ../R1.fq.gz ../R2.fq.gz
"@,
        StageId::StatReads => "log_info 9_stat_reads

stat_format () {
    faops n50 -H -N 50 -S -C $@
}

printf genome: >> statReads.md
echo [%genome%] >> statReads.md
stat_format 2_illumina/trim/R1.fq.gz >> statReads.md
"@,
        StageId::Quorum => "log_info 2_quorum

cd 2_illumina/trim

quorum_correct () {
    quorum --ec-phases [%ecphase%] --prefilter [%prefilter%] -t [%parallel%] $@
}

quorum_correct R1.fq.gz R2.fq.gz -o pe.cor.fa.gz
"@,
        StageId::NoQuorum => "log_info 2_quorum

cd 2_illumina/trim

log_info Correction skipped: link reads as corrected
ln -s R1.fq.gz pe.cor.fa.gz
"@,
        StageId::DownSampling => "log_info 4_down_sampling

mkdir -p 4_down_sampling
cd 4_down_sampling

log_info Genome: [%genome%] Coverage: [%cov%]
faops split-about ../2_illumina/trim/pe.cor.fa.gz [%splitp%] .
"@,
        StageId::Unitigs => "log_info 4_unitigs

mkdir -p 4_unitigs
cd 4_unitigs

anchr kunitigs ../4_down_sampling/pe.cor.fa.gz --estsize [%genome%] --parallel [%parallel%] --xmx [%xmx%] -o k_unitigs.fasta
"@,
        StageId::Anchors => "log_info 4_anchors

mkdir -p 4_anchors
cd 4_anchors

anchr anchors ../4_unitigs/k_unitigs.fasta ../4_down_sampling/pe.cor.fa.gz --parallel [%parallel%] -o anchors.sh
bash anchors.sh
"@,
        StageId::StatAnchors => "log_info 9_stat_anchors

rm -f statAnchors.md
faops n50 -H -S -C 4_anchors/anchor.fasta >> statAnchors.md
parallel -j [%statp%] echo {} ::: 4_anchors
"@,
        StageId::Merge => "log_info 2_merge

cd 2_illumina

bbmerge.sh in=trim/R1.fq.gz in2=trim/R2.fq.gz out=merge/pe.merged.fq.gz prefilter=[%prefilter%] threads=[%parallel%] -Xmx[%xmx%]g
"@,
        StageId::MrDownSampling => "log_info 6_down_sampling

mkdir -p 6_down_sampling
cd 6_down_sampling

log_info Genome: [%genome%] Coverage: [%cov%]
faops split-about ../2_illumina/merge/pe.merged.fq.gz [%splitp%] .
"@,
        StageId::MrUnitigs => "log_info 6_unitigs

mkdir -p 6_unitigs
cd 6_unitigs

anchr kunitigs ../6_down_sampling/pe.merged.fq.gz --estsize [%genome%] --parallel [%parallel%] --xmx [%xmx%] -o k_unitigs.fasta
"@,
        StageId::MrAnchors => "log_info 6_anchors

mkdir -p 6_anchors
cd 6_anchors

anchr anchors ../6_unitigs/k_unitigs.fasta ../6_down_sampling/pe.merged.fq.gz --parallel [%parallel%] -o anchors.sh
bash anchors.sh
"@,
        StageId::StatMrAnchors => "log_info 9_stat_mr_anchors

rm -f statMrAnchors.md
faops n50 -H -S -C 6_anchors/anchor.fasta >> statMrAnchors.md
parallel -j [%statp%] echo {} ::: 6_anchors
"@,
        StageId::Cleanup => "log_info 0_cleanup

find . -type f -name *.tmp | xargs rm -f
rm -f *.md5
"@,
        StageId::RealClean => "log_info 0_real_clean

rm -fr 2_illumina/trim 2_illumina/merge
rm -fr 4_down_sampling 4_unitigs 4_anchors
rm -fr 6_down_sampling 6_unitigs 6_anchors
rm -f *.sh
"@,
        StageId::Master => "log_info 0_master

queue_submit () {
    bsub -q [%queue%] -n [%parallel%] bash $1
}

for script in 2_fastqc.sh 2_kmergenie.sh 2_trim.sh 9_stat_reads.sh 2_quorum.sh 4_down_sampling.sh 4_unitigs.sh 4_anchors.sh 9_stat_anchors.sh 2_merge.sh 6_down_sampling.sh 6_unitigs.sh 6_anchors.sh 9_stat_mr_anchors.sh 0_cleanup.sh
do
    if [ -e $script ]
    then
        queue_submit $script
    fi
done
"@,
    }
}

/// The body fragment of each stage's template, as a value.
pub fn body_source(id: StageId) -> (r: &'static str)
    ensures
        r@ == spec_body_source(id),
{
    match id {
        StageId::Fastqc => "log_info 2_fastqc

mkdir -p 2_illumina/fastqc
cd 2_illumina/fastqc

fastqc -t [%parallel%] ../R1.fq.gz ../R2.fq.gz
",
        StageId::Kmergenie => "log_info 2_kmergenie

mkdir -p 2_illumina/kmergenie
cd 2_illumina/kmergenie

kmergenie -l 21 -k 121 -s 10 -t [%parallel%] ../R1.fq.gz -o kmergenie
",
        StageId::Trim => "log_info 2_trim

mkdir -p 2_illumina/trim
cd 2_illumina/trim

anchr trim [%trim%] --qual [%qual%] --len [%len%] --filter [%filter%] --sample [%sample%] --parallel [%parallel%] --xmx [%xmx%] ../R1.fq.gz ../R2.fq.gz
",
        StageId::StatReads => "log_info 9_stat_reads

stat_format () {
    faops n50 -H -N 50 -S -C $@
}

printf genome: >> statReads.md
echo [%genome%] >> statReads.md
stat_format 2_illumina/trim/R1.fq.gz >> statReads.md
",
        StageId::Quorum => "log_info 2_quorum

cd 2_illumina/trim

quorum_correct () {
    quorum --ec-phases [%ecphase%] --prefilter [%prefilter%] -t [%parallel%] $@
}

quorum_correct R1.fq.gz R2.fq.gz -o pe.cor.fa.gz
",
        StageId::NoQuorum => "log_info 2_quorum

cd 2_illumina/trim

log_info Correction skipped: link reads as corrected
ln -s R1.fq.gz pe.cor.fa.gz
",
        StageId::DownSampling => "log_info 4_down_sampling

mkdir -p 4_down_sampling
cd 4_down_sampling

log_info Genome: [%genome%] Coverage: [%cov%]
faops split-about ../2_illumina/trim/pe.cor.fa.gz [%splitp%] .
",
        StageId::Unitigs => "log_info 4_unitigs

mkdir -p 4_unitigs
cd 4_unitigs

anchr kunitigs ../4_down_sampling/pe.cor.fa.gz --estsize [%genome%] --parallel [%parallel%] --xmx [%xmx%] -o k_unitigs.fasta
",
        StageId::Anchors => "log_info 4_anchors

mkdir -p 4_anchors
cd 4_anchors

anchr anchors ../4_unitigs/k_unitigs.fasta ../4_down_sampling/pe.cor.fa.gz --parallel [%parallel%] -o anchors.sh
bash anchors.sh
",
        StageId::StatAnchors => "log_info 9_stat_anchors

rm -f statAnchors.md
faops n50 -H -S -C 4_anchors/anchor.fasta >> statAnchors.md
parallel -j [%statp%] echo {} ::: 4_anchors
",
        StageId::Merge => "log_info 2_merge

cd 2_illumina

bbmerge.sh in=trim/R1.fq.gz in2=trim/R2.fq.gz out=merge/pe.merged.fq.gz prefilter=[%prefilter%] threads=[%parallel%] -Xmx[%xmx%]g
",
        StageId::MrDownSampling => "log_info 6_down_sampling

mkdir -p 6_down_sampling
cd 6_down_sampling

log_info Genome: [%genome%] Coverage: [%cov%]
faops split-about ../2_illumina/merge/pe.merged.fq.gz [%splitp%] .
",
        StageId::MrUnitigs => "log_info 6_unitigs

mkdir -p 6_unitigs
cd 6_unitigs

anchr kunitigs ../6_down_sampling/pe.merged.fq.gz --estsize [%genome%] --parallel [%parallel%] --xmx [%xmx%] -o k_unitigs.fasta
",
        StageId::MrAnchors => "log_info 6_anchors

mkdir -p 6_anchors
cd 6_anchors

anchr anchors ../6_unitigs/k_unitigs.fasta ../6_down_sampling/pe.merged.fq.gz --parallel [%parallel%] -o anchors.sh
bash anchors.sh
",
        StageId::StatMrAnchors => "log_info 9_stat_mr_anchors

rm -f statMrAnchors.md
faops n50 -H -S -C 6_anchors/anchor.fasta >> statMrAnchors.md
parallel -j [%statp%] echo {} ::: 6_anchors
",
        StageId::Cleanup => "log_info 0_cleanup

find . -type f -name *.tmp | xargs rm -f
rm -f *.md5
",
        StageId::RealClean => "log_info 0_real_clean

rm -fr 2_illumina/trim 2_illumina/merge
rm -fr 4_down_sampling 4_unitigs 4_anchors
rm -fr 6_down_sampling 6_unitigs 6_anchors
rm -f *.sh
",
        StageId::Master => "log_info 0_master

queue_submit () {
    bsub -q [%queue%] -n [%parallel%] bash $1
}

for script in 2_fastqc.sh 2_kmergenie.sh 2_trim.sh 9_stat_reads.sh 2_quorum.sh 4_down_sampling.sh 4_unitigs.sh 4_anchors.sh 9_stat_anchors.sh 2_merge.sh 6_down_sampling.sh 6_unitigs.sh 6_anchors.sh 9_stat_mr_anchors.sh 0_cleanup.sh
do
    if [ -e $script ]
    then
        queue_submit $script
    fi
done
",
    }
}

/// The body fragment of the standalone read-correction script.
pub open spec fn spec_quorum_source() -> Seq<char> {
    "log_info quorum

quorum_input () {
    echo [%*%]
}

quorum --size [%jf%] --estimated-genome-size [%estsize%] --prefix [%prefix%] -t [%parallel%] $(quorum_input)

echo Corrected reads at [%prefix%].cor.fa.gz
"@
}

/// The body fragment of the standalone read-correction script, as a
/// value.
pub fn quorum_source() -> (r: &'static str)
    ensures
        r@ == spec_quorum_source(),
{
    "log_info quorum

quorum_input () {
    echo [%*%]
}

quorum --size [%jf%] --estimated-genome-size [%estsize%] --prefix [%prefix%] -t [%parallel%] $(quorum_input)

echo Corrected reads at [%prefix%].cor.fa.gz
"
}

} // verus!
