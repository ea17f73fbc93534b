//! CVSS v3.0 and v3.1 vectors.

pub mod parser;
pub mod score;
pub mod severity;

pub use crate::metrics;
pub use crate::metrics::{
    CVSSv3Metric, A, AC, AR, AV, C, CR, E, I, IR, MA, MAC, MAV, MC, MI, MPR, MS, MUI, PR, RC, RL, S,
    UI,
};

use crate::grammar::{join, render, same, separator, tokens_of};
use vstd::prelude::*;
use vstd::string::*;

verus! {

/// The version of the specification that a vector string names.
#[derive(Clone, Copy, Debug, PartialEq, Eq, Structural)]
pub enum Version {
    /// CVSS v3.0.
    V3,
    /// CVSS v3.1.
    V31,
}

impl Version {
    /// The version that the first token of a vector string names.
    pub fn from_code(code: &str) -> (r: Option<Version>)
        ensures
            match r {
                Some(version) => version.as_str()@ == code@,
                None => forall|version: Version| #[trigger] version.as_str()@ != code@,
            },
    {
        if same(code, "CVSS:3.0") {
            Some(Version::V3)
        } else if same(code, "CVSS:3.1") {
            Some(Version::V31)
        } else {
            None
        }
    }

    /// The first token of a vector string of this version.
    #[verifier::allow_in_spec]
    pub fn as_str(&self) -> &'static str
        returns
            (match self {
                Version::V3 => "CVSS:3.0",
                Version::V31 => "CVSS:3.1",
            }),
    {
        match self {
            Version::V3 => "CVSS:3.0",
            Version::V31 => "CVSS:3.1",
        }
    }
}

/// The metrics of a CVSS v3 vector, in canonical order.
#[derive(Clone, Debug)]
pub struct Vector(Vec<CVSSv3Metric>);

impl View for Vector {
    type V = Seq<CVSSv3Metric>;

    closed spec fn view(&self) -> Seq<CVSSv3Metric> {
        self.0@
    }
}

impl Vector {
    /// A vector of the given metrics.
    pub fn new(metrics: Vec<CVSSv3Metric>) -> (v: Vector)
        ensures
            v@ == metrics@,
    {
        Vector(metrics)
    }

    /// The metrics of the vector.
    pub fn metrics(&self) -> (metrics: &Vec<CVSSv3Metric>)
        ensures
            metrics@ == self@,
    {
        &self.0
    }

    /// The tokens of the metrics, joined by the separator.
    pub fn to_string(&self) -> (s: String)
        ensures
            s@ == join(tokens_of(self@)),
    {
        render(&self.0)
    }
}

/// The canonical text of a CVSS v3 vector: the version token, a separator,
/// and the tokens of the metrics.
pub open spec fn text(version: Version, metrics: Seq<CVSSv3Metric>) -> Seq<char> {
    version.as_str()@ + seq![separator()] + join(tokens_of(metrics))
}

/// A CVSS v3 vector with the version that its vector string named.
#[derive(Clone, Debug)]
pub struct CVSSv3(pub Version, pub Vector);

impl std::ops::Deref for CVSSv3 {
    type Target = [CVSSv3Metric];

    /// The metrics of the vector.
    fn deref(&self) -> (metrics: &[CVSSv3Metric])
        ensures
            metrics@ == self.1@,
    {
        self.1.metrics().as_slice()
    }
}

impl IntoIterator for CVSSv3 {
    type Item = CVSSv3Metric;

    type IntoIter = std::vec::IntoIter<CVSSv3Metric>;

    /// The metrics of the vector, in canonical order.
    fn into_iter(self) -> (iter: std::vec::IntoIter<CVSSv3Metric>)
        ensures
            vstd::std_specs::iter::IteratorSpec::remaining(&iter) == self.1@,
    {
        broadcast use vstd::std_specs::vec::axiom_spec_into_iter;

        self.1.0.into_iter()
    }
}

impl CVSSv3 {
    /// The canonical vector string.
    pub fn to_string(&self) -> (s: String)
        ensures
            s@ == text(self.0, self.1@),
    {
        let mut s = String::from_str(self.0.as_str());
        s.append("/");
        s.append(self.1.to_string().as_str());
        proof {
            reveal_strlit("/");
            assert("/"@ =~= seq![separator()]);
        }
        s
    }
}

} // verus!
