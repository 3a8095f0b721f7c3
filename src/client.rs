use vstd::prelude::*;

use crate::metric::MetricType;
use crate::sample::{Delta, Sample, SampleView};

verus! {

/// The prefix stored after `set_prefix(p)`, whatever was stored before.
pub open spec fn prefix_after(old_prefix: Seq<char>, p: Seq<char>) -> Seq<char> {
    p + seq!['.']
}

/// The sample emitted for `bucket` while `prefix` is stored.
pub open spec fn sample_for(
    prefix: Seq<char>,
    bucket: Seq<char>,
    value: Delta,
    metric_type: MetricType,
) -> SampleView {
    SampleView { name: prefix + bucket, value, metric_type }
}

/// The sample of `incr_by(bucket, value)`.
pub open spec fn incr_by_sample(prefix: Seq<char>, bucket: Seq<char>, value: Delta) -> SampleView {
    sample_for(prefix, bucket, value, MetricType::Counter)
}

/// The sample of `incr(bucket)`.
pub open spec fn incr_sample(prefix: Seq<char>, bucket: Seq<char>) -> SampleView {
    sample_for(prefix, bucket, Delta::one_spec(), MetricType::Counter)
}

/// The sample of `decr(bucket)`.
pub open spec fn decr_sample(prefix: Seq<char>, bucket: Seq<char>) -> SampleView {
    sample_for(prefix, bucket, Delta::minus_one_spec(), MetricType::Counter)
}

/// The sample of `decr_by(bucket, value)`.
pub open spec fn decr_by_sample(prefix: Seq<char>, bucket: Seq<char>, value: Delta) -> SampleView {
    sample_for(prefix, bucket, value.neg_spec(), MetricType::Counter)
}

/// What a client decides on its own: the prefix it applies and the sample
/// each call emits. Its view is the stored prefix, dot included.
#[derive(Debug)]
pub struct ClientState {
    prefix: String,
}

impl View for ClientState {
    type V = Seq<char>;

    closed spec fn view(&self) -> Seq<char> {
        self.prefix@
    }
}

impl ClientState {
    /// The stored prefix is empty (never set) or ends with the dot that
    /// separates it from a bucket name.
    pub open spec fn well_formed(&self) -> bool {
        self@.len() == 0 || self@.last() == '.'
    }

    /// A state with no prefix.
    pub fn new() -> (r: ClientState)
        ensures
            r@ == Seq::<char>::empty(),
            r.well_formed(),
    {
        ClientState { prefix: String::new() }
    }

    /// The stored prefix, dot included.
    pub fn prefix(&self) -> (r: &str)
        ensures
            r@ == self@,
    {
        self.prefix.as_str()
    }

    /// Stores `prefix` followed by a dot, in place of any earlier prefix.
    pub fn set_prefix(&mut self, prefix: &str)
        ensures
            final(self)@ == prefix_after(old(self)@, prefix@),
            final(self).well_formed(),
    {
        proof {
            reveal_strlit(".");
        }
        let mut p = String::from_str(prefix);
        p.append(".");
        self.prefix = p;
        assert(self@ =~= prefix_after(old(self)@, prefix@));
    }

    /// The sample of one metric: the stored prefix in front of `bucket`.
    pub fn datagram(&self, bucket: &str, value: Delta, metric_type: MetricType) -> (r: Sample)
        ensures
            r@ == sample_for(self@, bucket@, value, metric_type),
    {
        let mut name = self.prefix.clone();
        name.append(bucket);
        Sample { name, value, metric_type }
    }

    /// The counter sample that adds `value` to `bucket`.
    pub fn incr_by(&self, bucket: &str, value: Delta) -> (r: Sample)
        ensures
            r@ == incr_by_sample(self@, bucket@, value),
    {
        self.datagram(bucket, value, MetricType::Counter)
    }

    /// The counter sample that adds 1 to `bucket`.
    pub fn incr(&self, bucket: &str) -> (r: Sample)
        ensures
            r@ == incr_sample(self@, bucket@),
    {
        self.incr_by(bucket, Delta::one())
    }

    /// The counter sample that subtracts 1 from `bucket`.
    pub fn decr(&self, bucket: &str) -> (r: Sample)
        ensures
            r@ == decr_sample(self@, bucket@),
    {
        self.incr_by(bucket, Delta::minus_one())
    }

    /// The counter sample that subtracts `value` from `bucket`; a negative
    /// `value` adds its magnitude.
    pub fn decr_by(&self, bucket: &str, value: Delta) -> (r: Sample)
        ensures
            r@ == decr_by_sample(self@, bucket@, value),
    {
        self.incr_by(bucket, value.neg())
    }
}

} // verus!
