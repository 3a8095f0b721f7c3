use vstd::prelude::*;

verus! {

/// The kinds of metric a datagram can carry. Each kind has its own tag
/// character on the wire.
#[derive(Debug, Clone, Copy, PartialEq, Eq, Structural)]
pub enum MetricType {
    Counter,
}

impl MetricType {
    /// The character that marks this kind of metric on the wire.
    pub open spec fn tag_char(self) -> char {
        match self {
            MetricType::Counter => 'c',
        }
    }

    /// The wire tag, as a string of one character.
    pub fn tag(&self) -> (r: &'static str)
        ensures
            r@ == seq![self.tag_char()],
    {
        match self {
            MetricType::Counter => {
                proof {
                    reveal_strlit("c");
                }
                "c"
            },
        }
    }
}

} // verus!
