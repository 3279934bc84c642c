use vstd::prelude::*;

verus! {

/// Every bit that names an alarm.
pub const ALARM_REASON_ALL_BITS: i64 = 0x3FFF;

/// One of the conditions that can raise an alarm.
#[derive(Debug, Clone, Copy, PartialEq, Eq, Structural, PartialOrd, Ord, Hash)]
pub enum AlarmFlag {
    LowVoltage,
    HighVoltage,
    LowStateOfCharge,
    LowStarterVoltage,
    HighStarterVoltage,
    LowTemperature,
    HighTemperature,
    MidVoltage,
    Overload,
    DcRipple,
    LowVacOut,
    HighVacOut,
    ShortCircuit,
    BmsLockout,
}

impl AlarmFlag {
    /// The bit that stands for the condition.
    pub open spec fn mask(self) -> i64 {
        match self {
            AlarmFlag::LowVoltage => 1,
            AlarmFlag::HighVoltage => 2,
            AlarmFlag::LowStateOfCharge => 4,
            AlarmFlag::LowStarterVoltage => 8,
            AlarmFlag::HighStarterVoltage => 16,
            AlarmFlag::LowTemperature => 32,
            AlarmFlag::HighTemperature => 64,
            AlarmFlag::MidVoltage => 128,
            AlarmFlag::Overload => 256,
            AlarmFlag::DcRipple => 512,
            AlarmFlag::LowVacOut => 1024,
            AlarmFlag::HighVacOut => 2048,
            AlarmFlag::ShortCircuit => 4096,
            AlarmFlag::BmsLockout => 8192,
        }
    }

    pub fn bit(&self) -> (r: i64)
        ensures
            r == self.mask(),
    {
        match self {
            AlarmFlag::LowVoltage => 1,
            AlarmFlag::HighVoltage => 2,
            AlarmFlag::LowStateOfCharge => 4,
            AlarmFlag::LowStarterVoltage => 8,
            AlarmFlag::HighStarterVoltage => 16,
            AlarmFlag::LowTemperature => 32,
            AlarmFlag::HighTemperature => 64,
            AlarmFlag::MidVoltage => 128,
            AlarmFlag::Overload => 256,
            AlarmFlag::DcRipple => 512,
            AlarmFlag::LowVacOut => 1024,
            AlarmFlag::HighVacOut => 2048,
            AlarmFlag::ShortCircuit => 4096,
            AlarmFlag::BmsLockout => 8192,
        }
    }
}

/// A set of alarm conditions, held as a bit field in which only the bits
/// of [`AlarmFlag`] may be set.
#[derive(Debug, Clone, Copy, PartialEq, Eq, Structural, PartialOrd, Ord, Hash)]
pub struct AlarmReason {
    bits: i64,
}

impl View for AlarmReason {
    type V = i64;

    closed spec fn view(&self) -> i64 {
        self.bits
    }
}

impl AlarmReason {
    /// The set whose bit field is `bits`, where no bit outside the named
    /// ones is set.
    pub closed spec fn of_bits(bits: i64) -> Option<AlarmReason> {
        if 0 <= bits <= ALARM_REASON_ALL_BITS {
            Some(AlarmReason { bits })
        } else {
            None
        }
    }

    /// A set of alarms is its bit field; a bit field names a set exactly
    /// when every bit set in it names an alarm.
    pub proof fn lemma_of_bits(bits: i64)
        ensures
            Self::of_bits(bits) is Some <==> 0 <= bits <= ALARM_REASON_ALL_BITS,
            Self::of_bits(bits) matches Some(a) ==> a@ == bits,
            forall|a: AlarmReason, b: AlarmReason| a@ == b@ ==> a == b,
    {
    }

    /// Reads a bit field; `None` where a bit is set that names no alarm.
    pub fn from_bits(bits: i64) -> (r: Option<AlarmReason>)
        ensures
            r == Self::of_bits(bits),
    {
        if 0 <= bits && bits <= ALARM_REASON_ALL_BITS {
            Some(AlarmReason { bits })
        } else {
            None
        }
    }

    /// The set with no alarm.
    pub fn empty() -> (r: AlarmReason)
        ensures
            r@ == 0,
            Self::of_bits(0) == Some(r),
    {
        AlarmReason { bits: 0 }
    }

    pub fn bits(&self) -> (r: i64)
        ensures
            r == self@,
    {
        self.bits
    }

    pub fn is_empty(&self) -> (r: bool)
        ensures
            r == (self@ == 0),
    {
        self.bits == 0
    }

    pub fn contains(&self, flag: AlarmFlag) -> (r: bool)
        ensures
            r == (self@ & flag.mask() != 0),
    {
        self.bits & flag.bit() != 0
    }
}

} // verus!
