use vstd::prelude::*;

use crate::metric::MetricType;

verus! {

/// The sign bit of an IEEE 754 binary64 number.
pub const SIGN_BIT: u64 = 0x8000_0000_0000_0000;

/// The bit pattern of the binary64 number 1.
pub const ONE_BITS: u64 = 0x3FF0_0000_0000_0000;

/// A signed counter delta, held as the bit pattern of an IEEE 754 binary64
/// number. The delta is rendered as text only when a payload is built.
#[derive(Debug, Clone, Copy, PartialEq, Eq, Structural)]
pub struct Delta {
    pub bits: u64,
}

impl Delta {
    /// Whether the sign bit is set.
    pub open spec fn is_negative(self) -> bool {
        self.bits & SIGN_BIT != 0
    }

    /// The same magnitude with the opposite sign: binary64 negation flips the
    /// sign bit and nothing else.
    pub open spec fn neg_spec(self) -> Delta {
        Delta { bits: self.bits ^ SIGN_BIT }
    }

    /// The delta 1.
    pub open spec fn one_spec() -> Delta {
        Delta { bits: ONE_BITS }
    }

    /// The delta -1.
    pub open spec fn minus_one_spec() -> Delta {
        Delta::one_spec().neg_spec()
    }

    /// The delta whose binary64 bit pattern is `bits`.
    pub fn from_bits(bits: u64) -> (r: Delta)
        ensures
            r.bits == bits,
    {
        Delta { bits }
    }

    /// The delta 1.
    pub fn one() -> (r: Delta)
        ensures
            r == Delta::one_spec(),
    {
        Delta { bits: ONE_BITS }
    }

    /// The delta -1.
    pub fn minus_one() -> (r: Delta)
        ensures
            r == Delta::minus_one_spec(),
    {
        Delta::one().neg()
    }

    /// The same magnitude with the opposite sign.
    pub fn neg(&self) -> (r: Delta)
        ensures
            r == self.neg_spec(),
    {
        Delta { bits: self.bits ^ SIGN_BIT }
    }
}

/// What a sample is: the full metric name (prefix included), the delta and
/// the kind of metric.
pub ghost struct SampleView {
    pub name: Seq<char>,
    pub value: Delta,
    pub metric_type: MetricType,
}

/// One metric sample: everything one datagram is made of.
#[derive(Debug, Clone, PartialEq, Eq)]
pub struct Sample {
    /// The bucket name with the client's prefix in front.
    pub name: String,
    pub value: Delta,
    pub metric_type: MetricType,
}

impl View for Sample {
    type V = SampleView;

    open spec fn view(&self) -> SampleView {
        SampleView { name: self.name@, value: self.value, metric_type: self.metric_type }
    }
}

/// The payload of the datagram for sample `s`, where `value_text` is the
/// rendering of its delta: `<name>:<value>|<tag>`.
pub open spec fn wire_text(s: SampleView, value_text: Seq<char>) -> Seq<char> {
    s.name + seq![':'] + value_text + seq!['|', s.metric_type.tag_char()]
}

impl Sample {
    /// The datagram payload, given the text that renders the delta.
    pub fn payload(&self, value_text: &str) -> (r: String)
        ensures
            r@ == wire_text(self@, value_text@),
    {
        proof {
            reveal_strlit(":");
            reveal_strlit("|");
        }
        let mut out = self.name.clone();
        out.append(":");
        out.append(value_text);
        out.append("|");
        out.append(self.metric_type.tag());
        assert(out@ =~= wire_text(self@, value_text@));
        out
    }
}

} // verus!
