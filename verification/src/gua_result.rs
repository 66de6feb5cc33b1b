use vstd::prelude::*;
use crate::gua64::Gua64;

verus! {

/// One recorded derivation sub-step of a cast: what went in, what was
/// done, and what came out. Purely for audit; the texts carry no
/// contract.
#[derive(Clone, Debug)]
pub struct GuaResultStep {
    /// A description of the sub-step's inputs.
    pub origin: String,
    /// A label for the operation performed.
    pub description: String,
    /// A description of the sub-step's output.
    pub result: String,
}

impl GuaResultStep {
    pub fn new(description: String, origin: String, result: String) -> (r: GuaResultStep)
        ensures
            r.description == description,
            r.origin == origin,
            r.result == result,
    {
        GuaResultStep { origin, description, result }
    }
}

/// The aggregate output of one cast: the primary hexagram, the
/// transformed hexagram where one exists, the nuclear hexagram, the
/// creation time, and the ordered derivation trace.
#[derive(Clone, Debug)]
pub struct GuaResult {
    /// The primary hexagram, as directly cast from the input.
    pub ben_gua: Gua64,
    /// The transformed hexagram; absent when no line differs from the
    /// primary hexagram.
    pub bian_gua: Option<Gua64>,
    /// The nuclear hexagram, derived from the primary one.
    pub hu_gua: Gua64,
    /// Seconds since the Unix epoch when the result was created.
    pub date: i64,
    /// The ordered derivation steps.
    pub steps: Vec<GuaResultStep>,
}

impl GuaResult {
    /// A fresh result around the three hexagrams, stamped with the
    /// current time and an empty trace.
    pub fn new(ben_gua: Gua64, bian_gua: Option<Gua64>, hu_gua: Gua64) -> (r: GuaResult)
        ensures
            r.ben_gua == ben_gua,
            r.bian_gua == bian_gua,
            r.hu_gua == hu_gua,
            r.steps@.len() == 0,
    {
        GuaResult { ben_gua, bian_gua, hu_gua, date: now_timestamp(), steps: Vec::new() }
    }
}

/// Relies on chrono's Local::now and DateTime::timestamp: the current
/// wall-clock time as seconds since the Unix epoch. Nothing is promised
/// of its value.
#[verifier::external_body]
fn now_timestamp() -> i64 {
    chrono::Local::now().timestamp()
}

} // verus!
