//! CVSS v2 vectors.

pub mod metrics;
pub mod parser;
pub mod score;
pub mod severity;

use crate::grammar::{join, render, tokens_of};
use crate::v2::metrics::CVSSv2Metric;
use vstd::prelude::*;

verus! {

/// A CVSS v2 vector: its metrics, in canonical order.
#[derive(Clone, Debug)]
pub struct CVSSv2(pub Vec<CVSSv2Metric>);

impl View for CVSSv2 {
    type V = Seq<CVSSv2Metric>;

    open spec fn view(&self) -> Seq<CVSSv2Metric> {
        self.0@
    }
}

/// The canonical text of a CVSS v2 vector: the tokens of its metrics, joined
/// by the separator.
pub open spec fn text(metrics: Seq<CVSSv2Metric>) -> Seq<char> {
    join(tokens_of(metrics))
}

impl std::ops::Deref for CVSSv2 {
    type Target = [CVSSv2Metric];

    /// The metrics of the vector.
    fn deref(&self) -> (metrics: &[CVSSv2Metric])
        ensures
            metrics@ == self@,
    {
        self.0.as_slice()
    }
}

impl CVSSv2 {
    /// The canonical vector string.
    pub fn to_string(&self) -> (s: String)
        ensures
            s@ == text(self@),
    {
        render(&self.0)
    }
}

} // verus!
