use crate::metadata::Metadata;
use crate::scales::ratio::{ratio_text, Ratio};
use crate::scales::scale_gauge::Gauge;
use crate::scales::scale_id::ScaleId;
use crate::scales::standard::Standard;
use crate::text::{as_str_opt, opt_string, opt_text, to_owned_opt};
use vstd::prelude::*;
use vstd::string::*;

verus! {

/// Rail transport modelling uses a variety of scales (ratio between the real world and the model)
/// to ensure scale models look correct when placed next to each other.
///
/// Model railway scales are standardized worldwide by many organizations and hobbyist groups.
/// Scales may be expressed as a numeric ratio (e.g. 1/87 or 1:87) or as letters defined in rail
/// transport modelling standards (e.g. HO, OO, N, O, G, TT and Z.)
#[derive(Debug, Clone)]
pub struct Scale {
    scale_id: ScaleId,
    name: String,
    description: Option<String>,
    ratio: Ratio,
    gauge: Gauge,
    standards: Vec<Standard>,
    metadata: Metadata,
}

/// `v` holds each of the standards in `from`, once, and no other.
pub open spec fn holds_each_once(v: Seq<Standard>, from: Seq<Standard>) -> bool {
    &&& v.no_duplicates()
    &&& forall|s: Standard| v.contains(s) <==> from.contains(s)
}

proof fn lemma_push_contains(v: Seq<Standard>, x: Standard, y: Standard)
    ensures
        v.push(x).contains(y) == (v.contains(y) || x == y),
{
    let w = v.push(x);
    if v.contains(y) {
        let k = choose|k: int| 0 <= k < v.len() && v[k] == y;
        assert(w[k] == y);
    }
    if x == y {
        assert(w[v.len() as int] == y);
    }
    if w.contains(y) {
        let k = choose|k: int| 0 <= k < w.len() && w[k] == y;
        if k < v.len() {
            assert(v[k] == y);
        }
    }
}

/// The standards of `from`, each once, in the order of their first
/// appearance.
fn distinct_standards(from: &Vec<Standard>) -> (r: Vec<Standard>)
    ensures
        holds_each_once(r@, from@),
{
    let mut out: Vec<Standard> = Vec::new();
    let mut i: usize = 0;
    while i < from.len()
        invariant
            i <= from.len(),
            holds_each_once(out@, from@.subrange(0, i as int)),
        decreases from.len() - i,
    {
        let s = from[i];
        let mut seen = false;
        let mut j: usize = 0;
        while j < out.len()
            invariant
                j <= out.len(),
                seen == out@.subrange(0, j as int).contains(s),
            decreases out.len() - j,
        {
            if out[j] == s {
                seen = true;
            }
            proof {
                assert(out@.subrange(0, j + 1) =~= out@.subrange(0, j as int).push(out@[j as int]));
                lemma_push_contains(out@.subrange(0, j as int), out@[j as int], s);
            }
            j = j + 1;
        }
        proof {
            assert(out@.subrange(0, out@.len() as int) =~= out@);
            assert(from@.subrange(0, i + 1) =~= from@.subrange(0, i as int).push(s));
        }
        let ghost before = out@;
        if !seen {
            out.push(s);
        }
        proof {
            assert forall|x: Standard| out@.contains(x) <==> from@.subrange(0, i + 1).contains(x) by {
                lemma_push_contains(from@.subrange(0, i as int), s, x);
                lemma_push_contains(before, s, x);
            }
            if !seen {
                assert forall|a: int, b: int|
                    0 <= a < out@.len() && 0 <= b < out@.len() && a != b implies out@[a]
                    != out@[b] by {
                    if a == before.len() {
                        assert(before[b] != s);
                    } else if b == before.len() {
                        assert(before[a] != s);
                    }
                }
            }
        }
        i = i + 1;
    }
    proof {
        assert(from@.subrange(0, from@.len() as int) =~= from@);
    }
    out
}

impl Scale {
    pub closed spec fn spec_id(self) -> Seq<char> {
        self.scale_id@
    }

    pub closed spec fn spec_name(self) -> Seq<char> {
        self.name@
    }

    pub closed spec fn spec_description(self) -> Option<Seq<char>> {
        opt_string(self.description)
    }

    pub closed spec fn spec_ratio(self) -> (int, nat) {
        self.ratio@
    }

    pub closed spec fn spec_gauge(self) -> Gauge {
        self.gauge
    }

    pub closed spec fn spec_standards(self) -> Seq<Standard> {
        self.standards@
    }

    pub closed spec fn spec_metadata(self) -> Metadata {
        self.metadata
    }

    /// Create a new Scale; each standard is kept once.
    pub fn new(
        scale_id: ScaleId,
        name: &str,
        description: Option<&str>,
        ratio: Ratio,
        gauge: Gauge,
        standards: Vec<Standard>,
        metadata: Metadata,
    ) -> (r: Scale)
        ensures
            r.spec_id() == scale_id@,
            r.spec_name() == name@,
            r.spec_description() == opt_text(description),
            r.spec_ratio() == ratio@,
            r.spec_gauge() == gauge,
            holds_each_once(r.spec_standards(), standards@),
            r.spec_metadata() == metadata,
    {
        Scale {
            scale_id,
            name: String::from_str(name),
            description: to_owned_opt(description),
            ratio,
            gauge,
            standards: distinct_standards(&standards),
            metadata,
        }
    }

    /// The unique identifier for this Scale
    pub fn scale_id(&self) -> (r: &ScaleId)
        ensures
            r@ == self.spec_id(),
    {
        &self.scale_id
    }

    /// The scale name, typically letters defined in rail transport modelling standards
    /// (e.g. HO, OO, N, O, G, TT and Z.)
    pub fn name(&self) -> (r: &str)
        ensures
            r@ == self.spec_name(),
    {
        self.name.as_str()
    }

    /// The (optional) Scale description
    pub fn description(&self) -> (r: Option<&str>)
        ensures
            opt_text(r) == self.spec_description(),
    {
        as_str_opt(&self.description)
    }

    /// This Scale ratio between the real world and the model
    /// (e.g. 1/87 or 1:87)
    pub fn ratio(&self) -> (r: &Ratio)
        ensures
            r@ == self.spec_ratio(),
    {
        &self.ratio
    }

    pub fn gauge(&self) -> (r: &Gauge)
        ensures
            *r == self.spec_gauge(),
    {
        &self.gauge
    }

    /// The standards that this scale follows, each once.
    pub fn standards(&self) -> (r: &Vec<Standard>)
        ensures
            r@ == self.spec_standards(),
    {
        &self.standards
    }

    pub fn metadata(&self) -> (r: &Metadata)
        ensures
            *r == self.spec_metadata(),
    {
        &self.metadata
    }

    /// Renders as "<name> (1:<N>)", e.g. "H0 (1:87)".
    pub fn to_string(&self) -> (r: String)
        ensures
            r@ == self.spec_name() + " ("@ + ratio_text(self.spec_ratio()) + ")"@,
    {
        let mut text = self.name.clone();
        text.append(" (");
        let ratio = self.ratio.to_string();
        text.append(ratio.as_str());
        text.append(")");
        text
    }
}

} // verus!
