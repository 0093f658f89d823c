//! The wire-level data model of an upload, and its construction.
//!
//! Each tick of the capture-and-upload loop assembles, bottom-up, a
//! [`Sample`] holding the freshly captured snapshot, a [`LabelSet`] naming
//! the synthetic metric and the reporting process, a [`Series`] pairing the
//! two, and a [`WriteRequest`] envelope around the single series. The
//! contracts here pin the whole shape of that envelope.

use vstd::prelude::*;
use vstd::string::StringExecFns;

use crate::decimal::dec_rep;
use crate::decimal::lemma_dec_rep_digits;
use crate::decimal::lemma_dec_rep_injective;
use crate::decimal::u64_to_decimal;

verus! {

/// A name/value pair identifying one dimension of a time series.
pub struct Label {
    pub name: String,
    pub value: String,
}

/// An ordered collection of labels identifying one logical time series.
pub struct LabelSet {
    pub labels: Vec<Label>,
}

/// One captured heap-profile snapshot. Symbolization metadata is out of
/// scope for this daemon, so the snapshot bytes are all a sample carries.
pub struct Sample {
    pub snapshot: Vec<u8>,
}

/// One label set together with the samples reported for it.
pub struct Series {
    pub labels: LabelSet,
    pub samples: Vec<Sample>,
}

/// The top-level envelope sent to the remote profile store.
pub struct WriteRequest {
    pub series: Vec<Series>,
}

/// A label is well-formed when its name is non-empty.
pub open spec fn wf_label(l: Label) -> bool {
    l.name@.len() > 0
}

/// A label set is well-formed when every label is well-formed and
/// no two labels share a name.
pub open spec fn wf_label_set(ls: LabelSet) -> bool {
    &&& forall|i: int| 0 <= i < ls.labels@.len() ==> wf_label(#[trigger] ls.labels@[i])
    &&& forall|i: int, j: int|
        0 <= i < j < ls.labels@.len() ==> (#[trigger] ls.labels@[i]).name@ != (
        #[trigger] ls.labels@[j]).name@
}

/// A series is well-formed when its label set is and it reports at least one sample.
pub open spec fn wf_series(s: Series) -> bool {
    &&& wf_label_set(s.labels)
    &&& s.samples@.len() >= 1
}

/// A write request is well-formed when it carries at least one series,
/// each of them well-formed.
pub open spec fn wf_write_request(r: WriteRequest) -> bool {
    &&& r.series@.len() >= 1
    &&& forall|i: int| 0 <= i < r.series@.len() ==> wf_series(#[trigger] r.series@[i])
}

/// The label set this daemon attaches to every series: the reserved
/// metric-name label first, then the process-identity label, whose value is
/// `pid` rendered in decimal.
pub open spec fn is_labels_for(ls: LabelSet, pid: u64) -> bool {
    &&& ls.labels@.len() == 2
    &&& ls.labels@[0].name@ == "__name__"@
    &&& ls.labels@[0].value@ == "outstanding_allocations"@
    &&& ls.labels@[1].name@ == "pid"@
    &&& ls.labels@[1].value@ == dec_rep(pid as nat)
}

/// The request one tick produces: exactly one series, holding exactly one
/// sample whose bytes are the captured snapshot, unmodified, under the
/// daemon's label set.
pub open spec fn is_request_for(r: WriteRequest, snapshot: Seq<u8>, pid: u64) -> bool {
    &&& r.series@.len() == 1
    &&& r.series@[0].samples@.len() == 1
    &&& r.series@[0].samples@[0].snapshot@ == snapshot
    &&& is_labels_for(r.series@[0].labels, pid)
}

/// Builds the two-label set identifying the synthetic outstanding-allocations
/// metric as reported by process `pid`.
pub fn build_label_set(pid: u64) -> (ls: LabelSet)
    ensures
        is_labels_for(ls, pid),
        wf_label_set(ls),
{
    let name_label = Label {
        name: String::from_str("__name__"),
        value: String::from_str("outstanding_allocations"),
    };
    let pid_label = Label { name: String::from_str("pid"), value: u64_to_decimal(pid) };
    let mut labels: Vec<Label> = Vec::new();
    labels.push(name_label);
    labels.push(pid_label);
    let ls = LabelSet { labels };
    proof {
        lemma_labels_for_well_formed(ls, pid);
    }
    ls
}

/// Wraps one captured snapshot into the envelope for one tick's upload.
pub fn build_write_request(snapshot: Vec<u8>, pid: u64) -> (r: WriteRequest)
    ensures
        is_request_for(r, snapshot@, pid),
        wf_write_request(r),
{
    let labels = build_label_set(pid);
    let mut samples: Vec<Sample> = Vec::new();
    samples.push(Sample { snapshot });
    let mut series: Vec<Series> = Vec::new();
    series.push(Series { labels, samples });
    WriteRequest { series }
}

/// The value of the authorization metadata field attached to every outgoing
/// request: the bearer scheme, a space, and the fixed credential known at
/// startup, unmodified.
pub fn bearer_header(token: &str) -> (s: String)
    ensures
        s@ == "Bearer "@ + token@,
{
    let mut s = String::from_str("Bearer ");
    s.append(token);
    s
}

/// The daemon's label set is well-formed: both label names are non-empty,
/// and the metric-name and process-identity labels are distinct.
pub proof fn lemma_labels_for_well_formed(ls: LabelSet, pid: u64)
    requires
        is_labels_for(ls, pid),
    ensures
        wf_label_set(ls),
{
    reveal_strlit("__name__");
    reveal_strlit("pid");
    assert(wf_label(ls.labels@[0]));
    assert(wf_label(ls.labels@[1]));
    assert(ls.labels@[0].name@ != ls.labels@[1].name@);
}

/// There is exactly one label named `name` in the label set.
pub open spec fn has_exactly_one_label_named(ls: LabelSet, name: Seq<char>) -> bool {
    &&& exists|i: int| 0 <= i < ls.labels@.len() && (#[trigger] ls.labels@[i]).name@ == name
    &&& forall|i: int, j: int|
        0 <= i < ls.labels@.len() && 0 <= j < ls.labels@.len() && (
        #[trigger] ls.labels@[i]).name@ == name && (#[trigger] ls.labels@[j]).name@ == name ==> i
            == j
}

/// Every label set this daemon builds carries exactly one reserved
/// metric-name label and exactly one process-identity label, and the
/// latter's value is the decimal rendering of the reporting process's
/// identifier: non-empty and made of digit characters only.
pub proof fn lemma_labels_identify_process(ls: LabelSet, pid: u64)
    requires
        is_labels_for(ls, pid),
    ensures
        has_exactly_one_label_named(ls, "__name__"@),
        has_exactly_one_label_named(ls, "pid"@),
        ls.labels@[1].value@.len() > 0,
        forall|i: int|
            0 <= i < ls.labels@[1].value@.len() ==> '0' <= #[trigger] ls.labels@[1].value@[i]
                <= '9',
{
    reveal_strlit("__name__");
    reveal_strlit("pid");
    assert(ls.labels@[0].name@ == "__name__"@);
    assert(ls.labels@[1].name@ == "pid"@);
    lemma_dec_rep_digits(pid as nat);
}

/// The process-identity label pins down the reporting process: one label
/// set cannot identify two different processes.
pub proof fn lemma_labels_match_one_process(ls: LabelSet, p1: u64, p2: u64)
    requires
        is_labels_for(ls, p1),
        is_labels_for(ls, p2),
    ensures
        p1 == p2,
{
    lemma_dec_rep_injective(p1 as nat, p2 as nat);
}

} // verus!
