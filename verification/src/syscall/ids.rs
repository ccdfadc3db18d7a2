//! Numbers of the system calls.
use vstd::prelude::*;

verus! {

/// The system calls a task can make; the call number travels in `r0`.
#[derive(Clone, Copy, Debug, PartialEq, Eq, Structural)]
pub enum SVCallId {
    Yield,
    Print,
    ReadChar,
    FreeMem,
    Stop,
}

/// A call number that names no system call.
#[derive(Debug, PartialEq, Eq, Structural)]
pub struct InvalidSVC;

/// The number of system call `id`.
pub open spec fn svcall_number(id: SVCallId) -> u32 {
    match id {
        SVCallId::Yield => 0x00,
        SVCallId::Print => 0x01,
        SVCallId::ReadChar => 0x02,
        SVCallId::FreeMem => 0x03,
        SVCallId::Stop => 0x04,
    }
}

/// The system call with number `value`, if there is one.
pub open spec fn svcall_of(value: u32) -> Result<SVCallId, InvalidSVC> {
    if value == 0x00 {
        Ok(SVCallId::Yield)
    } else if value == 0x01 {
        Ok(SVCallId::Print)
    } else if value == 0x02 {
        Ok(SVCallId::ReadChar)
    } else if value == 0x03 {
        Ok(SVCallId::FreeMem)
    } else if value == 0x04 {
        Ok(SVCallId::Stop)
    } else {
        Err(InvalidSVC)
    }
}

impl SVCallId {
    /// The call's number, as a task puts it in `r0`.
    pub fn id(&self) -> (n: u32)
        ensures
            n == svcall_number(*self),
    {
        match self {
            SVCallId::Yield => 0x00,
            SVCallId::Print => 0x01,
            SVCallId::ReadChar => 0x02,
            SVCallId::FreeMem => 0x03,
            SVCallId::Stop => 0x04,
        }
    }
}

impl TryFrom<u32> for SVCallId {
    type Error = InvalidSVC;

    /// The system call numbered `value`, or [`InvalidSVC`].
    fn try_from(value: u32) -> (r: Result<Self, Self::Error>) {
        match value {
            0x00 => Ok(SVCallId::Yield),
            0x01 => Ok(SVCallId::Print),
            0x02 => Ok(SVCallId::ReadChar),
            0x03 => Ok(SVCallId::FreeMem),
            0x04 => Ok(SVCallId::Stop),
            _ => Err(InvalidSVC),
        }
    }
}

impl vstd::std_specs::convert::TryFromSpecImpl<u32> for SVCallId {
    open spec fn obeys_try_from_spec() -> bool {
        true
    }

    open spec fn try_from_spec(value: u32) -> Result<Self, Self::Error> {
        svcall_of(value)
    }
}

/// Decoding a call's number gives the call back, and exactly the numbers
/// 0 to 4 name a call.
pub proof fn lemma_number_round_trip(id: SVCallId, value: u32)
    ensures
        svcall_of(svcall_number(id)) == Ok::<SVCallId, InvalidSVC>(id),
        (svcall_of(value) is Ok) <==> value <= 4,
        svcall_of(value) matches Ok(c) ==> svcall_number(c) == value,
{
}

} // verus!
