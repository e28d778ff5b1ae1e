use vstd::prelude::*;

verus! {

/// A util structure to hold data filed
#[derive(Debug, Clone)]
pub struct OnlyData<D> {
    /// data field
    pub data: D,
}

/// Hello message data
#[derive(Debug, Clone)]
pub struct Hello {
    /// status code, zero for success
    pub code: i64,
    /// conversion session id, exist only when code is zero
    pub session_id: Option<String>,
}

/// A util structure to hold only sn field
#[derive(Debug, Copy, Clone)]
pub struct SN {
    /// serial number
    pub sn: u64,
}

/// Reconnect message data
#[derive(Debug, Clone)]
pub struct Reconnect {
    /// status code for why we need reconnect
    pub code: i64,
    /// reason for human read
    pub err: String,
}

/// ReconnectACK message data
#[derive(Debug, Clone)]
pub struct ResumeACK {
    /// conversion session id
    pub session_id: String,
}

} // verus!
