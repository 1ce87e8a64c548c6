//! Protocol enumerations with their wire values.

use vstd::prelude::*;

verus! {

/// Application-layer function codes used by a master.
#[derive(Copy, Clone, Debug, PartialEq, Eq, Structural)]
pub enum FunctionCode {
    Confirm,
    Read,
    Write,
    Select,
    Operate,
    DirectOperate,
    ColdRestart,
    WarmRestart,
    EnableUnsolicited,
    DisableUnsolicited,
    DelayMeasure,
    RecordCurrentTime,
    Response,
    UnsolicitedResponse,
}

impl FunctionCode {
    /// The byte that stands for this function code on the wire.
    pub open spec fn wire(self) -> u8 {
        match self {
            FunctionCode::Confirm => 0u8,
            FunctionCode::Read => 1u8,
            FunctionCode::Write => 2u8,
            FunctionCode::Select => 3u8,
            FunctionCode::Operate => 4u8,
            FunctionCode::DirectOperate => 5u8,
            FunctionCode::ColdRestart => 13u8,
            FunctionCode::WarmRestart => 14u8,
            FunctionCode::EnableUnsolicited => 20u8,
            FunctionCode::DisableUnsolicited => 21u8,
            FunctionCode::DelayMeasure => 23u8,
            FunctionCode::RecordCurrentTime => 24u8,
            FunctionCode::Response => 129u8,
            FunctionCode::UnsolicitedResponse => 130u8,
        }
    }

    pub fn as_u8(self) -> (r: u8)
        ensures
            r == self.wire(),
    {
        match self {
            FunctionCode::Confirm => 0,
            FunctionCode::Read => 1,
            FunctionCode::Write => 2,
            FunctionCode::Select => 3,
            FunctionCode::Operate => 4,
            FunctionCode::DirectOperate => 5,
            FunctionCode::ColdRestart => 13,
            FunctionCode::WarmRestart => 14,
            FunctionCode::EnableUnsolicited => 20,
            FunctionCode::DisableUnsolicited => 21,
            FunctionCode::DelayMeasure => 23,
            FunctionCode::RecordCurrentTime => 24,
            FunctionCode::Response => 129,
            FunctionCode::UnsolicitedResponse => 130,
        }
    }

    /// Decodes a wire byte; `None` for a byte that names no known function.
    pub fn from_u8(x: u8) -> (r: Option<FunctionCode>)
        ensures
            match r {
                Some(f) => f.wire() == x,
                None => forall|f: FunctionCode| f.wire() != x,
            },
    {
        match x {
            0 => Some(FunctionCode::Confirm),
            1 => Some(FunctionCode::Read),
            2 => Some(FunctionCode::Write),
            3 => Some(FunctionCode::Select),
            4 => Some(FunctionCode::Operate),
            5 => Some(FunctionCode::DirectOperate),
            13 => Some(FunctionCode::ColdRestart),
            14 => Some(FunctionCode::WarmRestart),
            20 => Some(FunctionCode::EnableUnsolicited),
            21 => Some(FunctionCode::DisableUnsolicited),
            23 => Some(FunctionCode::DelayMeasure),
            24 => Some(FunctionCode::RecordCurrentTime),
            129 => Some(FunctionCode::Response),
            130 => Some(FunctionCode::UnsolicitedResponse),
            _ => None,
        }
    }

    /// Whether a fragment with this function code is outstation-initiated.
    pub fn is_unsolicited(self) -> (r: bool)
        ensures
            r == (self == FunctionCode::UnsolicitedResponse),
    {
        match self {
            FunctionCode::UnsolicitedResponse => true,
            _ => false,
        }
    }
}

/// Status that an outstation reports for one command object.
#[derive(Copy, Clone, Debug, PartialEq, Eq, Structural)]
pub enum CommandStatus {
    Success,
    Timeout,
    NoSelect,
    FormatError,
    NotSupported,
    AlreadyActive,
    HardwareError,
    Local,
    TooManyOps,
    NotAuthorized,
    Unknown(u8),
}

impl CommandStatus {
    /// The status that a wire byte stands for.
    pub open spec fn of(x: u8) -> CommandStatus {
        if x == 0 {
            CommandStatus::Success
        } else if x == 1 {
            CommandStatus::Timeout
        } else if x == 2 {
            CommandStatus::NoSelect
        } else if x == 3 {
            CommandStatus::FormatError
        } else if x == 4 {
            CommandStatus::NotSupported
        } else if x == 5 {
            CommandStatus::AlreadyActive
        } else if x == 6 {
            CommandStatus::HardwareError
        } else if x == 7 {
            CommandStatus::Local
        } else if x == 8 {
            CommandStatus::TooManyOps
        } else if x == 9 {
            CommandStatus::NotAuthorized
        } else {
            CommandStatus::Unknown(x)
        }
    }

    pub open spec fn wire(self) -> u8 {
        match self {
            CommandStatus::Success => 0u8,
            CommandStatus::Timeout => 1u8,
            CommandStatus::NoSelect => 2u8,
            CommandStatus::FormatError => 3u8,
            CommandStatus::NotSupported => 4u8,
            CommandStatus::AlreadyActive => 5u8,
            CommandStatus::HardwareError => 6u8,
            CommandStatus::Local => 7u8,
            CommandStatus::TooManyOps => 8u8,
            CommandStatus::NotAuthorized => 9u8,
            CommandStatus::Unknown(x) => x,
        }
    }

    pub fn from(x: u8) -> (r: CommandStatus)
        ensures
            r == CommandStatus::of(x),
            r.wire() == x,
    {
        match x {
            0 => CommandStatus::Success,
            1 => CommandStatus::Timeout,
            2 => CommandStatus::NoSelect,
            3 => CommandStatus::FormatError,
            4 => CommandStatus::NotSupported,
            5 => CommandStatus::AlreadyActive,
            6 => CommandStatus::HardwareError,
            7 => CommandStatus::Local,
            8 => CommandStatus::TooManyOps,
            9 => CommandStatus::NotAuthorized,
            _ => CommandStatus::Unknown(x),
        }
    }

    pub fn as_u8(self) -> (r: u8)
        ensures
            r == self.wire(),
    {
        match self {
            CommandStatus::Success => 0,
            CommandStatus::Timeout => 1,
            CommandStatus::NoSelect => 2,
            CommandStatus::FormatError => 3,
            CommandStatus::NotSupported => 4,
            CommandStatus::AlreadyActive => 5,
            CommandStatus::HardwareError => 6,
            CommandStatus::Local => 7,
            CommandStatus::TooManyOps => 8,
            CommandStatus::NotAuthorized => 9,
            CommandStatus::Unknown(x) => x,
        }
    }
}

/// Operation type in the low four bits of a control code.
#[derive(Copy, Clone, Debug, PartialEq, Eq, Structural)]
pub enum OpType {
    Nul,
    PulseOn,
    PulseOff,
    LatchOn,
    LatchOff,
    Unknown(u8),
}

impl OpType {
    pub open spec fn of(x: u8) -> OpType {
        if x == 0 {
            OpType::Nul
        } else if x == 1 {
            OpType::PulseOn
        } else if x == 2 {
            OpType::PulseOff
        } else if x == 3 {
            OpType::LatchOn
        } else if x == 4 {
            OpType::LatchOff
        } else {
            OpType::Unknown(x)
        }
    }

    pub open spec fn wire(self) -> u8 {
        match self {
            OpType::Nul => 0u8,
            OpType::PulseOn => 1u8,
            OpType::PulseOff => 2u8,
            OpType::LatchOn => 3u8,
            OpType::LatchOff => 4u8,
            OpType::Unknown(x) => x,
        }
    }

    pub fn from(x: u8) -> (r: OpType)
        ensures
            r == OpType::of(x),
            r.wire() == x,
    {
        match x {
            0 => OpType::Nul,
            1 => OpType::PulseOn,
            2 => OpType::PulseOff,
            3 => OpType::LatchOn,
            4 => OpType::LatchOff,
            _ => OpType::Unknown(x),
        }
    }

    pub fn as_u8(self) -> (r: u8)
        ensures
            r == self.wire(),
    {
        match self {
            OpType::Nul => 0,
            OpType::PulseOn => 1,
            OpType::PulseOff => 2,
            OpType::LatchOn => 3,
            OpType::LatchOff => 4,
            OpType::Unknown(x) => x,
        }
    }
}

/// Trip/close selection in the top two bits of a control code.
#[derive(Copy, Clone, Debug, PartialEq, Eq, Structural)]
pub enum TripCloseCode {
    Nul,
    Close,
    Trip,
    Reserved,
    Unknown(u8),
}

impl TripCloseCode {
    pub open spec fn of(x: u8) -> TripCloseCode {
        if x == 0 {
            TripCloseCode::Nul
        } else if x == 1 {
            TripCloseCode::Close
        } else if x == 2 {
            TripCloseCode::Trip
        } else if x == 3 {
            TripCloseCode::Reserved
        } else {
            TripCloseCode::Unknown(x)
        }
    }

    pub open spec fn wire(self) -> u8 {
        match self {
            TripCloseCode::Nul => 0u8,
            TripCloseCode::Close => 1u8,
            TripCloseCode::Trip => 2u8,
            TripCloseCode::Reserved => 3u8,
            TripCloseCode::Unknown(x) => x,
        }
    }

    pub fn from(x: u8) -> (r: TripCloseCode)
        ensures
            r == TripCloseCode::of(x),
            r.wire() == x,
    {
        match x {
            0 => TripCloseCode::Nul,
            1 => TripCloseCode::Close,
            2 => TripCloseCode::Trip,
            3 => TripCloseCode::Reserved,
            _ => TripCloseCode::Unknown(x),
        }
    }

    pub fn as_u8(self) -> (r: u8)
        ensures
            r == self.wire(),
    {
        match self {
            TripCloseCode::Nul => 0,
            TripCloseCode::Close => 1,
            TripCloseCode::Trip => 2,
            TripCloseCode::Reserved => 3,
            TripCloseCode::Unknown(x) => x,
        }
    }
}

} // verus!
