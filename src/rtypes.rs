#![allow(non_camel_case_types)]

use vstd::prelude::*;

verus! {

/// A list of strings handed across the C boundary.
pub struct RTypes_StrList_t {
    pub len: usize,
    pub items: Vec<String>,
}

impl RTypes_StrList_t {
    /// `len` counts the items.
    pub open spec fn wf(&self) -> bool {
        self.len == self.items@.len()
    }

    pub fn new(items: Vec<String>) -> (r: Self)
        ensures
            r.wf(),
            r.items@ == items@,
    {
        let len = items.len();
        RTypes_StrList_t { len, items }
    }
}

/// The state of an encrypted session.
#[derive(Clone, Copy, Debug, PartialEq, Eq)]
pub enum RTypes_CryptoAuth_State_t {
    /// New session, has not sent or received anything
    Init,
    /// Sent a hello message, waiting for reply
    SentHello,
    /// Received a hello message, have not yet sent a reply
    ReceivedHello,
    /// Received a hello message, sent a key message, waiting for the session to complete
    SentKey,
    /// Sent a hello message, received a key message, may or may not have sent some data traffic
    /// but no data traffic has yet been received
    ReceivedKey,
    /// Received data traffic, session is in run state
    Established,
}

/// The number that stands for a session state across the C boundary.
pub open spec fn state_code(s: RTypes_CryptoAuth_State_t) -> u32 {
    match s {
        RTypes_CryptoAuth_State_t::Init => 0,
        RTypes_CryptoAuth_State_t::SentHello => 1,
        RTypes_CryptoAuth_State_t::ReceivedHello => 2,
        RTypes_CryptoAuth_State_t::SentKey => 3,
        RTypes_CryptoAuth_State_t::ReceivedKey => 4,
        RTypes_CryptoAuth_State_t::Established => 100,
    }
}

impl RTypes_CryptoAuth_State_t {
    pub fn code(&self) -> (r: u32)
        ensures
            r == state_code(*self),
    {
        match self {
            RTypes_CryptoAuth_State_t::Init => 0,
            RTypes_CryptoAuth_State_t::SentHello => 1,
            RTypes_CryptoAuth_State_t::ReceivedHello => 2,
            RTypes_CryptoAuth_State_t::SentKey => 3,
            RTypes_CryptoAuth_State_t::ReceivedKey => 4,
            RTypes_CryptoAuth_State_t::Established => 100,
        }
    }

    /// The state that a number stands for, if any.
    pub fn from_code(c: u32) -> (r: Option<Self>)
        ensures
            r matches Some(s) ==> state_code(s) == c,
            r is None <==> (c != 0 && c != 1 && c != 2 && c != 3 && c != 4 && c != 100),
    {
        if c == 0 {
            Some(RTypes_CryptoAuth_State_t::Init)
        } else if c == 1 {
            Some(RTypes_CryptoAuth_State_t::SentHello)
        } else if c == 2 {
            Some(RTypes_CryptoAuth_State_t::ReceivedHello)
        } else if c == 3 {
            Some(RTypes_CryptoAuth_State_t::SentKey)
        } else if c == 4 {
            Some(RTypes_CryptoAuth_State_t::ReceivedKey)
        } else if c == 100 {
            Some(RTypes_CryptoAuth_State_t::Established)
        } else {
            None
        }
    }
}

/// Packet counters of an encrypted session.
#[derive(Clone, Copy, Debug, PartialEq, Eq)]
pub struct RTypes_CryptoStats_t {
    /// Number of packets which were lost
    pub lost_packets: u64,
    /// Number of packets which were received but could not be validated
    pub received_unexpected: u64,
    /// Number of packets which were received (since last session setup)
    pub received_packets: u64,
    /// Number of packets which were received that were duplicates
    pub duplicate_packets: u64,
}

} // verus!
