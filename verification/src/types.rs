//! The order vocabulary shared by every engine, with the one-byte wire code
//! each value travels as.

use vstd::prelude::*;

verus! {

/// Why a one-byte wire code does not name a value: the code that came in and
/// the largest code that is valid.
#[derive(Debug, Clone, Copy, PartialEq, Eq, Structural)]
pub struct InvalidCode {
    pub value: u8,
    pub max: u8,
}

#[derive(Debug, Clone, Copy, PartialEq, Eq, Hash, Structural)]
pub enum OrderType {
    Market,
    Limit,
    Stop,
    StopLimit,
    SWAP,
}

impl OrderType {
    pub open spec fn spec_code(self) -> u8 {
        match self {
            OrderType::Market => 0,
            OrderType::Limit => 1,
            OrderType::Stop => 2,
            OrderType::StopLimit => 3,
            OrderType::SWAP => 4,
        }
    }

    /// The byte this order type is written as.
    pub fn code(&self) -> (r: u8)
        ensures
            r == self.spec_code(),
    {
        match self {
            OrderType::Market => 0,
            OrderType::Limit => 1,
            OrderType::Stop => 2,
            OrderType::StopLimit => 3,
            OrderType::SWAP => 4,
        }
    }

    /// Reads an order type back from its byte; codes above 4 are refused.
    pub fn from_code(v: u8) -> (r: Result<OrderType, InvalidCode>)
        ensures
            v <= 4 ==> (r matches Ok(t) && t.spec_code() == v),
            v > 4 ==> r == Err::<OrderType, InvalidCode>(InvalidCode { value: v, max: 4 }),
    {
        match v {
            0 => Ok(OrderType::Market),
            1 => Ok(OrderType::Limit),
            2 => Ok(OrderType::Stop),
            3 => Ok(OrderType::StopLimit),
            4 => Ok(OrderType::SWAP),
            _ => Err(InvalidCode { value: v, max: 4 }),
        }
    }
}

/// The side of an order.
#[derive(Debug, Clone, Copy, PartialEq, Eq, Hash, Structural)]
pub enum OrderSide {
    Buy,
    Sell,
}

impl OrderSide {
    pub open spec fn spec_code(self) -> u8 {
        match self {
            OrderSide::Buy => 0,
            OrderSide::Sell => 1,
        }
    }

    /// The byte this value is written as.
    pub fn code(&self) -> (r: u8)
        ensures
            r == self.spec_code(),
    {
        match self {
            OrderSide::Buy => 0,
            OrderSide::Sell => 1,
        }
    }

    /// Reads a value back from its byte; codes above 1 are refused.
    pub fn from_code(v: u8) -> (r: Result<OrderSide, InvalidCode>)
        ensures
            v <= 1 ==> (r matches Ok(t) && t.spec_code() == v),
            v > 1 ==> r == Err::<OrderSide, InvalidCode>(InvalidCode { value: v, max: 1 }),
    {
        match v {
            0 => Ok(OrderSide::Buy),
            1 => Ok(OrderSide::Sell),
            _ => Err(InvalidCode { value: v, max: 1 }),
        }
    }
}

/// Where an order is in its life.
#[derive(Debug, Clone, Copy, PartialEq, Eq, Hash, Structural)]
pub enum OrderStatus {
    New,
    PartiallyFilled,
    Filled,
    Cancelled,
    Rejected,
    Expired,
}

impl OrderStatus {
    pub open spec fn spec_code(self) -> u8 {
        match self {
            OrderStatus::New => 0,
            OrderStatus::PartiallyFilled => 1,
            OrderStatus::Filled => 2,
            OrderStatus::Cancelled => 3,
            OrderStatus::Rejected => 4,
            OrderStatus::Expired => 5,
        }
    }

    /// The byte this value is written as.
    pub fn code(&self) -> (r: u8)
        ensures
            r == self.spec_code(),
    {
        match self {
            OrderStatus::New => 0,
            OrderStatus::PartiallyFilled => 1,
            OrderStatus::Filled => 2,
            OrderStatus::Cancelled => 3,
            OrderStatus::Rejected => 4,
            OrderStatus::Expired => 5,
        }
    }

    /// Reads a value back from its byte; codes above 5 are refused.
    pub fn from_code(v: u8) -> (r: Result<OrderStatus, InvalidCode>)
        ensures
            v <= 5 ==> (r matches Ok(t) && t.spec_code() == v),
            v > 5 ==> r == Err::<OrderStatus, InvalidCode>(InvalidCode { value: v, max: 5 }),
    {
        match v {
            0 => Ok(OrderStatus::New),
            1 => Ok(OrderStatus::PartiallyFilled),
            2 => Ok(OrderStatus::Filled),
            3 => Ok(OrderStatus::Cancelled),
            4 => Ok(OrderStatus::Rejected),
            5 => Ok(OrderStatus::Expired),
            _ => Err(InvalidCode { value: v, max: 5 }),
        }
    }
}

/// The state of a delivery-on-transfer settlement.
#[derive(Debug, Clone, Copy, PartialEq, Eq, Structural)]
pub enum DOTStatus {
    Pending,
    Settled,
    Failed,
    Disputed,
}

impl DOTStatus {
    pub open spec fn spec_code(self) -> u8 {
        match self {
            DOTStatus::Pending => 0,
            DOTStatus::Settled => 1,
            DOTStatus::Failed => 2,
            DOTStatus::Disputed => 3,
        }
    }

    /// The byte this value is written as.
    pub fn code(&self) -> (r: u8)
        ensures
            r == self.spec_code(),
    {
        match self {
            DOTStatus::Pending => 0,
            DOTStatus::Settled => 1,
            DOTStatus::Failed => 2,
            DOTStatus::Disputed => 3,
        }
    }

    /// Reads a value back from its byte; codes above 3 are refused.
    pub fn from_code(v: u8) -> (r: Result<DOTStatus, InvalidCode>)
        ensures
            v <= 3 ==> (r matches Ok(t) && t.spec_code() == v),
            v > 3 ==> r == Err::<DOTStatus, InvalidCode>(InvalidCode { value: v, max: 3 }),
    {
        match v {
            0 => Ok(DOTStatus::Pending),
            1 => Ok(DOTStatus::Settled),
            2 => Ok(DOTStatus::Failed),
            3 => Ok(DOTStatus::Disputed),
            _ => Err(InvalidCode { value: v, max: 3 }),
        }
    }
}

/// The regulatory track an order runs on.
#[derive(Debug, Clone, Copy, PartialEq, Eq, Hash, Structural)]
pub enum Track {
    Compliant,
    Autonomous,
}

impl Track {
    pub open spec fn spec_code(self) -> u8 {
        match self {
            Track::Compliant => 0,
            Track::Autonomous => 1,
        }
    }

    /// The byte this value is written as.
    pub fn code(&self) -> (r: u8)
        ensures
            r == self.spec_code(),
    {
        match self {
            Track::Compliant => 0,
            Track::Autonomous => 1,
        }
    }

    /// Reads a value back from its byte; codes above 1 are refused.
    pub fn from_code(v: u8) -> (r: Result<Track, InvalidCode>)
        ensures
            v <= 1 ==> (r matches Ok(t) && t.spec_code() == v),
            v > 1 ==> r == Err::<Track, InvalidCode>(InvalidCode { value: v, max: 1 }),
    {
        match v {
            0 => Ok(Track::Compliant),
            1 => Ok(Track::Autonomous),
            _ => Err(InvalidCode { value: v, max: 1 }),
        }
    }
}

impl Default for Track {
    fn default() -> (r: Track)
        ensures
            r == Track::Compliant,
    {
        Track::Compliant
    }
}

impl Track {
    pub fn is_compliant(&self) -> (r: bool)
        ensures
            r <==> *self == Track::Compliant,
    {
        matches!(self, Track::Compliant)
    }

    pub fn is_autonomous(&self) -> (r: bool)
        ensures
            r <==> *self == Track::Autonomous,
    {
        matches!(self, Track::Autonomous)
    }
}

pub const TRACK_COMPLIANT: u8 = 0;

pub const TRACK_AUTONOMOUS: u8 = 1;

/// The column value a track is stored as in the database.
pub fn track_to_i32(track: &Track) -> (r: i32)
    ensures
        r == (if *track == Track::Autonomous { 1i32 } else { 0i32 }),
{
    match track {
        Track::Autonomous => 1,
        _ => 0,
    }
}

/// Reads a track back from its database column: 1 is autonomous, every other
/// value is compliant.
pub fn i32_to_track(v: i32) -> (r: Track)
    ensures
        r == (if v == 1 { Track::Autonomous } else { Track::Compliant }),
{
    match v {
        1 => Track::Autonomous,
        _ => Track::Compliant,
    }
}

/// How the book matches incoming orders.
#[derive(Debug, Clone, Copy, PartialEq, Eq, Structural)]
pub enum MatchingMode {
    Continuous,
    BatchAuction { window_ns: u64, jitter_range_micros: u64 },
}

/// How much of a participant's identity the venue discloses.
#[derive(Debug, Clone, Copy, PartialEq, Eq, Structural)]
pub enum DisclosureLevel {
    Public,
    Verified,
    Institutional,
    Sovereign,
}

/// The byte of every value reads back as that value.
pub proof fn lemma_codes_round_trip(t: OrderType, s: OrderSide, st: OrderStatus, d: DOTStatus, k: Track)
    ensures
        t.spec_code() <= 4,
        s.spec_code() <= 1,
        st.spec_code() <= 5,
        d.spec_code() <= 3,
        k.spec_code() <= 1,
        forall|t2: OrderType| t2.spec_code() == t.spec_code() ==> t2 == t,
        forall|s2: OrderSide| s2.spec_code() == s.spec_code() ==> s2 == s,
        forall|st2: OrderStatus| st2.spec_code() == st.spec_code() ==> st2 == st,
        forall|d2: DOTStatus| d2.spec_code() == d.spec_code() ==> d2 == d,
        forall|k2: Track| k2.spec_code() == k.spec_code() ==> k2 == k,
{
}

/// Storing a track in the database and reading it back gives the same track.
pub proof fn lemma_track_column_round_trip(track: Track)
    ensures
        (if (if track == Track::Autonomous { 1i32 } else { 0i32 }) == 1 { Track::Autonomous } else { Track::Compliant }) == track,
{
}

/// Each value goes on the wire as its place in the declared order: order
/// types Market 0, Limit 1, Stop 2, StopLimit 3, SWAP 4; sides Buy 0, Sell 1;
/// statuses New 0, PartiallyFilled 1, Filled 2, Cancelled 3, Rejected 4,
/// Expired 5; settlements Pending 0, Settled 1, Failed 2, Disputed 3; tracks
/// Compliant 0, Autonomous 1. Every byte up to the largest code reads back as
/// the value in that place.
pub proof fn lemma_wire_code_table()
    ensures
        OrderType::Market.spec_code() == 0,
        OrderType::Limit.spec_code() == 1,
        OrderType::Stop.spec_code() == 2,
        OrderType::StopLimit.spec_code() == 3,
        OrderType::SWAP.spec_code() == 4,
        OrderSide::Buy.spec_code() == 0,
        OrderSide::Sell.spec_code() == 1,
        OrderStatus::New.spec_code() == 0,
        OrderStatus::PartiallyFilled.spec_code() == 1,
        OrderStatus::Filled.spec_code() == 2,
        OrderStatus::Cancelled.spec_code() == 3,
        OrderStatus::Rejected.spec_code() == 4,
        OrderStatus::Expired.spec_code() == 5,
        DOTStatus::Pending.spec_code() == 0,
        DOTStatus::Settled.spec_code() == 1,
        DOTStatus::Failed.spec_code() == 2,
        DOTStatus::Disputed.spec_code() == 3,
        Track::Compliant.spec_code() == 0,
        Track::Autonomous.spec_code() == 1,
        forall|t: OrderType| #[trigger] t.spec_code() == 2 ==> t == OrderType::Stop,
        forall|st: OrderStatus| #[trigger] st.spec_code() == 2 ==> st == OrderStatus::Filled,
        forall|st: OrderStatus| #[trigger] st.spec_code() == 3 ==> st == OrderStatus::Cancelled,
{
}

} // verus!
