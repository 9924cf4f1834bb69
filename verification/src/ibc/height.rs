//! Block heights and packet timeouts.
use crate::error::Error;
use vstd::prelude::*;

verus! {

/// A height as it is written on the wire, where it may be zero.
#[derive(Clone, Copy, Debug, PartialEq, Eq, Structural)]
pub struct RawHeight {
    /// The number of the chain's revision.
    pub revision_number: u64,
    /// The number of the block within the revision.
    pub revision_height: u64,
}

/// The height of a block. Its block number is never zero.
#[derive(Clone, Copy, Debug, PartialEq, Eq, Structural)]
pub struct Height {
    number: u64,
    height: u64,
}

impl View for Height {
    type V = RawHeight;

    closed spec fn view(&self) -> RawHeight {
        RawHeight { revision_number: self.number, revision_height: self.height }
    }
}

/// Whether one height comes before another: heights are ordered by revision, then by block.
pub open spec fn height_before(a: RawHeight, b: RawHeight) -> bool {
    a.revision_number < b.revision_number || (a.revision_number == b.revision_number
        && a.revision_height < b.revision_height)
}

impl Height {
    #[verifier::type_invariant]
    spec fn not_zero(self) -> bool {
        self.height != 0
    }

    /// Makes a height. A zero block number is refused.
    pub fn new(revision_number: u64, revision_height: u64) -> (height: Result<Height, Error>)
        ensures
            height is Ok <==> revision_height != 0,
            height is Err ==> height->Err_0 == Error::ZeroHeight,
            height is Ok ==> height->Ok_0@ == (RawHeight { revision_number, revision_height }),
    {
        if revision_height == 0 {
            Err(Error::ZeroHeight)
        } else {
            Ok(Height { number: revision_number, height: revision_height })
        }
    }

    /// The number of the chain's revision.
    pub fn revision_number(&self) -> (number: u64)
        ensures
            number == self@.revision_number,
    {
        self.number
    }

    /// The number of the block within the revision.
    pub fn revision_height(&self) -> (height: u64)
        ensures
            height == self@.revision_height,
            height != 0,
    {
        proof {
            use_type_invariant(*self);
        }
        self.height
    }

    /// The height as it is written on the wire.
    pub fn raw(&self) -> (raw: RawHeight)
        ensures
            raw == self@,
            raw.revision_height != 0,
    {
        proof {
            use_type_invariant(*self);
        }
        RawHeight { revision_number: self.number, revision_height: self.height }
    }

    /// Whether this height comes before another.
    pub fn is_before(&self, other: &Height) -> (before: bool)
        ensures
            before == height_before(self@, other@),
    {
        self.number < other.number || (self.number == other.number && self.height < other.height)
    }
}

/// Two heights with the same revision and block are the same height.
pub broadcast proof fn height_is_its_view(a: Height, b: Height)
    requires
        #[trigger] a@ == #[trigger] b@,
    ensures
        a == b,
{
}

/// Of two heights, one comes before the other or they are the same; never both.
pub proof fn law_heights_are_totally_ordered(a: RawHeight, b: RawHeight, c: RawHeight)
    ensures
        a == b || height_before(a, b) || height_before(b, a),
        !(height_before(a, b) && height_before(b, a)),
        !height_before(a, a),
        height_before(a, b) && height_before(b, c) ==> height_before(a, c),
{
}

/// The height of the receiving chain from which on a packet is no longer accepted.
#[derive(Clone, Copy, Debug, PartialEq, Eq, Structural)]
pub enum TimeoutHeight {
    /// The packet does not time out by height.
    Never,
    /// The packet times out at this height.
    At(Height),
}

/// A timeout height on the wire: zero in both numbers stands for no timeout.
pub open spec fn raw_timeout(timeout: TimeoutHeight) -> RawHeight {
    match timeout {
        TimeoutHeight::Never => RawHeight { revision_number: 0, revision_height: 0 },
        TimeoutHeight::At(height) => height@,
    }
}

/// Whether a height on the wire is a timeout height: zero in both numbers, or not zero in the
/// block number.
pub open spec fn is_raw_timeout(raw: RawHeight) -> bool {
    raw.revision_height != 0 || raw.revision_number == 0
}

/// Timeout heights that are the same on the wire are the same, given that no height is zero.
pub proof fn law_timeout_is_known_by_its_wire_form(a: TimeoutHeight, b: TimeoutHeight)
    requires
        a is At ==> raw_timeout(a).revision_height != 0,
        b is At ==> raw_timeout(b).revision_height != 0,
        raw_timeout(a) == raw_timeout(b),
    ensures
        a == b,
{
    if a is At && b is At {
        height_is_its_view(a->At_0, b->At_0);
    }
}

impl TimeoutHeight {
    /// Reads a timeout height from the wire. A zero block number in a later revision is refused.
    pub fn from_raw(raw: RawHeight) -> (timeout: Result<TimeoutHeight, Error>)
        ensures
            timeout is Ok <==> is_raw_timeout(raw),
            timeout is Err ==> timeout->Err_0 == Error::ZeroHeight,
            timeout is Ok ==> raw_timeout(timeout->Ok_0) == raw,
            timeout is Ok ==> (timeout->Ok_0 is Never <==> raw.revision_height == 0),
    {
        if raw.revision_number == 0 && raw.revision_height == 0 {
            Ok(TimeoutHeight::Never)
        } else {
            match Height::new(raw.revision_number, raw.revision_height) {
                Ok(height) => Ok(TimeoutHeight::At(height)),
                Err(error) => Err(error),
            }
        }
    }

    /// Writes the timeout height for the wire.
    pub fn raw(&self) -> (raw: RawHeight)
        ensures
            raw == raw_timeout(*self),
            is_raw_timeout(raw),
            raw.revision_height == 0 <==> self is Never,
    {
        match self {
            TimeoutHeight::Never => RawHeight { revision_number: 0, revision_height: 0 },
            TimeoutHeight::At(height) => height.raw(),
        }
    }
}

/// Heights are ordered by their revision first, and within a revision by their block.
pub proof fn law_heights_are_ordered_by_revision_then_block(a: RawHeight, b: RawHeight)
    ensures
        a.revision_number < b.revision_number ==> height_before(a, b),
        a.revision_number > b.revision_number ==> !height_before(a, b),
        a.revision_number == b.revision_number ==> (height_before(a, b) <==> a.revision_height
            < b.revision_height),
{
}

/// A timeout height on the wire is the height itself, or zero in both numbers where there is none.
/// Of the heights on the wire only those with a zero block in a later revision are none.
pub proof fn law_timeouts_on_the_wire(height: Height, raw: RawHeight)
    ensures
        raw_timeout(TimeoutHeight::At(height)) == height@,
        raw_timeout(TimeoutHeight::Never).revision_number == 0,
        raw_timeout(TimeoutHeight::Never).revision_height == 0,
        !is_raw_timeout(raw) <==> raw.revision_height == 0 && raw.revision_number > 0,
{
}

} // verus!
