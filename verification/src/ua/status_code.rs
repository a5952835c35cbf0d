use vstd::prelude::*;

verus! {

/// First raw value whose severity is "uncertain".
pub const SEVERITY_UNCERTAIN: u32 = 0x4000_0000;

/// First raw value whose severity is "bad".
pub const SEVERITY_BAD: u32 = 0x8000_0000;

/// Raw value of the status that reports a closed connection.
pub const BAD_DISCONNECT: u32 = 0x80AD_0000;

/// Severity of a status code: the two most significant bits of its raw value.
#[derive(Clone, Copy, Debug, PartialEq, Eq, Structural)]
pub enum Severity {
    Good,
    Uncertain,
    Bad,
}

/// Severity that a raw status value carries.
pub open spec fn severity_of(raw: u32) -> Severity {
    if raw < SEVERITY_UNCERTAIN {
        Severity::Good
    } else if raw < SEVERITY_BAD {
        Severity::Uncertain
    } else {
        Severity::Bad
    }
}

/// Result code of a service call or of a single operation in it.
#[derive(Clone, Copy, Debug, PartialEq, Eq, Structural)]
pub struct StatusCode {
    pub raw: u32,
}

impl View for StatusCode {
    type V = u32;

    open spec fn view(&self) -> u32 {
        self.raw
    }
}

impl StatusCode {
    /// Whether the severity is "good".
    pub open spec fn good(self) -> bool {
        severity_of(self@) == Severity::Good
    }

    /// Whether this is the status that reports a closed connection.
    pub open spec fn disconnect(self) -> bool {
        self@ == BAD_DISCONNECT
    }

    /// Wraps a raw status value.
    pub fn new(raw: u32) -> (code: Self)
        ensures
            code@ == raw,
    {
        StatusCode { raw }
    }

    /// The good status with no further detail.
    pub fn good_status() -> (code: Self)
        ensures
            code@ == 0,
            code.good(),
    {
        StatusCode { raw: 0 }
    }

    /// Raw value of this status.
    pub fn into_raw(self) -> (raw: u32)
        ensures
            raw == self@,
    {
        self.raw
    }

    /// Severity of this status.
    pub fn severity(&self) -> (severity: Severity)
        ensures
            severity == severity_of(self@),
    {
        if self.raw < SEVERITY_UNCERTAIN {
            Severity::Good
        } else if self.raw < SEVERITY_BAD {
            Severity::Uncertain
        } else {
            Severity::Bad
        }
    }

    /// Checks if the severity is "good".
    pub fn is_good(&self) -> (good: bool)
        ensures
            good == self.good(),
    {
        self.raw < SEVERITY_UNCERTAIN
    }

    /// Checks if the severity is "uncertain".
    pub fn is_uncertain(&self) -> (uncertain: bool)
        ensures
            uncertain == (severity_of(self@) == Severity::Uncertain),
    {
        SEVERITY_UNCERTAIN <= self.raw && self.raw < SEVERITY_BAD
    }

    /// Checks if the severity is "bad".
    pub fn is_bad(&self) -> (bad: bool)
        ensures
            bad == (severity_of(self@) == Severity::Bad),
    {
        self.raw >= SEVERITY_BAD
    }
}

} // verus!
