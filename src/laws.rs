use vstd::prelude::*;

use crate::client::{
    decr_by_sample, decr_sample, incr_by_sample, incr_sample, prefix_after, sample_for,
};
use crate::metric::MetricType;
use crate::sample::{wire_text, Delta};

verus! {

/// The payload of `incr_by(bucket, value)` is the stored prefix, the bucket, a
/// colon, the rendered value, a bar and the counter tag `c`, and nothing else.
pub proof fn lemma_incr_by_payload(
    prefix: Seq<char>,
    bucket: Seq<char>,
    value: Delta,
    value_text: Seq<char>,
)
    ensures
        wire_text(incr_by_sample(prefix, bucket, value), value_text) == prefix + bucket + seq![':']
            + value_text + seq!['|', 'c'],
{
    assert(wire_text(incr_by_sample(prefix, bucket, value), value_text) =~= prefix + bucket
        + seq![':'] + value_text + seq!['|', 'c']);
}

/// `incr(bucket)` emits what `incr_by(bucket, 1)` does, and `decr(bucket)` what
/// `incr_by(bucket, -1)` does.
pub proof fn lemma_unit_steps(prefix: Seq<char>, bucket: Seq<char>)
    ensures
        incr_sample(prefix, bucket) == incr_by_sample(prefix, bucket, Delta::one_spec()),
        decr_sample(prefix, bucket) == incr_by_sample(prefix, bucket, Delta::one_spec().neg_spec()),
{
}

/// `decr_by(bucket, value)` emits what `incr_by(bucket, -value)` does. Negation
/// flips the sign, so a negative `value` gives a positive delta, and
/// `decr_by(bucket, -value)` emits what `incr_by(bucket, value)` does.
pub proof fn lemma_decr_by_negates(prefix: Seq<char>, bucket: Seq<char>, value: Delta)
    ensures
        decr_by_sample(prefix, bucket, value) == incr_by_sample(prefix, bucket, value.neg_spec()),
        value.neg_spec().is_negative() == !value.is_negative(),
        value.neg_spec().neg_spec() == value,
        decr_by_sample(prefix, bucket, value.neg_spec()) == incr_by_sample(prefix, bucket, value),
{
    let b = value.bits;
    assert(((b ^ 0x8000_0000_0000_0000u64) & 0x8000_0000_0000_0000u64 != 0) == !(b
        & 0x8000_0000_0000_0000u64 != 0)) by (bit_vector);
    assert((b ^ 0x8000_0000_0000_0000u64) ^ 0x8000_0000_0000_0000u64 == b) by (bit_vector);
}

/// A sample takes the prefix stored when it is emitted: one emitted while
/// `before` is stored names `before` followed by the bucket, and one emitted
/// after `set_prefix(p)` names `p`, a dot and the bucket.
pub proof fn lemma_prefix_applies_forward(
    before: Seq<char>,
    p: Seq<char>,
    bucket: Seq<char>,
    value: Delta,
    metric_type: MetricType,
)
    ensures
        sample_for(before, bucket, value, metric_type).name == before + bucket,
        sample_for(prefix_after(before, p), bucket, value, metric_type).name == p + seq!['.']
            + bucket,
{
}

/// Setting a prefix replaces the one stored before: the result does not depend
/// on it, and setting `p1` then `p2` stores what setting `p2` alone does.
pub proof fn lemma_set_prefix_replaces(
    q1: Seq<char>,
    q2: Seq<char>,
    p1: Seq<char>,
    p2: Seq<char>,
)
    ensures
        prefix_after(q1, p2) == prefix_after(q2, p2),
        prefix_after(prefix_after(q1, p1), p2) == prefix_after(q1, p2),
        prefix_after(q1, p2) == p2 + seq!['.'],
{
}

} // verus!
