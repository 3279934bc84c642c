use vstd::prelude::*;

verus! {

/// The operating mode of a charger or inverter.
#[derive(Debug, Clone, Copy, PartialEq, Eq, Structural, PartialOrd, Ord, Hash)]
pub enum Mode {
    Off,
    LowPower,
    Fault,
    Bulk,
    Absorption,
    Float,
    Storage,
    Equalize,
    Inverting,
    PowerSupply,
    StartingUp,
    RepeatedAbsorption,
    AutoEqualize,
    BatterySafe,
    ExternalControl,
}

impl Mode {
    /// The mode that a wire code stands for, if any.
    pub open spec fn of_code(code: u64) -> Option<Mode> {
        match code {
            0 => Some(Mode::Off),
            1 => Some(Mode::LowPower),
            2 => Some(Mode::Fault),
            3 => Some(Mode::Bulk),
            4 => Some(Mode::Absorption),
            5 => Some(Mode::Float),
            6 => Some(Mode::Storage),
            7 => Some(Mode::Equalize),
            9 => Some(Mode::Inverting),
            11 => Some(Mode::PowerSupply),
            245 => Some(Mode::StartingUp),
            246 => Some(Mode::RepeatedAbsorption),
            247 => Some(Mode::AutoEqualize),
            248 => Some(Mode::BatterySafe),
            252 => Some(Mode::ExternalControl),
            _ => None,
        }
    }

    /// Decodes a wire code; `None` for a code that names no mode.
    pub fn from_code(code: u64) -> (r: Option<Mode>)
        ensures
            r == Self::of_code(code),
    {
        match code {
            0 => Some(Mode::Off),
            1 => Some(Mode::LowPower),
            2 => Some(Mode::Fault),
            3 => Some(Mode::Bulk),
            4 => Some(Mode::Absorption),
            5 => Some(Mode::Float),
            6 => Some(Mode::Storage),
            7 => Some(Mode::Equalize),
            9 => Some(Mode::Inverting),
            11 => Some(Mode::PowerSupply),
            245 => Some(Mode::StartingUp),
            246 => Some(Mode::RepeatedAbsorption),
            247 => Some(Mode::AutoEqualize),
            248 => Some(Mode::BatterySafe),
            252 => Some(Mode::ExternalControl),
            _ => None,
        }
    }

    /// The wire code of the mode.
    pub fn code(&self) -> (r: u64)
        ensures
            Self::of_code(r) == Some(*self),
    {
        match self {
            Mode::Off => 0,
            Mode::LowPower => 1,
            Mode::Fault => 2,
            Mode::Bulk => 3,
            Mode::Absorption => 4,
            Mode::Float => 5,
            Mode::Storage => 6,
            Mode::Equalize => 7,
            Mode::Inverting => 9,
            Mode::PowerSupply => 11,
            Mode::StartingUp => 245,
            Mode::RepeatedAbsorption => 246,
            Mode::AutoEqualize => 247,
            Mode::BatterySafe => 248,
            Mode::ExternalControl => 252,
        }
    }
}

} // verus!
