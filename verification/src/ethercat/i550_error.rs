//! Error codes reported by a Lenze i550 inverter (object 0x603F) and
//! their descriptions.
use vstd::prelude::*;
use vstd::string::*;

verus! {

/// An error code of the i550 inverter.
#[derive(Clone, Copy, Debug, PartialEq, Eq, Structural)]
pub enum I550Error {
    NoError,
    ContinuousOverCurrent,
    ShortCircuitInternal,
    ShortCircuitDeviceInternal,
    I2tOverload,
    ItError,
    ItWarning,
    ImaxClampRespondedTooOften,
    StallDetectionActive,
    MaximumCurrentReached,
    MainsPhaseFault,
    UpsOperationActive,
    DcBusOvervoltage,
    DcBusOvervoltageWarning,
    DcBusUndervoltage,
    DcBusUndervoltageWarning,
    DcBusVoltageTooLowForPowerUp,
    PowerUnitOvertemperature,
    HeatSinkTemperatureSensorFault,
    HeatSinkFanWarning,
    PowerUnitOvertemperatureWarning,
    MotorTemperatureError,
    TwentyFourVSupplyCritical,
    OverloadTwentyFourVSupply,
    OemHardwareIncompatible,
    InternalFanWarning,
    TriggerFunctionsConnectedIncorrectly,
    UserDefinedFault1,
    UserDefinedFault2,
    WarningInvertRotation,
    MaximumAllowedTroublesExceeded,
    UserDefinedFaultLecom,
    NetworkUserFault1,
    NetworkUserFault2,
    NetworkWordIn1ConfigurationIncorrect,
    LoadErrorIdTag,
    PuLoadErrorIdTag,
    PowerUnitUnknown,
    AssertionLevelMonitoring,
    AnalogInput1Fault,
    AnalogInput2Fault,
    HtlInputFault,
    AnalogOutput1Fault,
    AnalogOutput2Fault,
    PolePositionIdentificationFault,
    MotorOvercurrent,
    EncoderOpenCircuit,
    FeedbackSystemSpeedLimit,
    MemoryModuleIsFull,
    MemoryModuleNotPresent,
    MemoryModuleInvalidUserData,
    DataNotComplSavedBeforePowerdown,
    MemoryModuleInvalidOemData,
    EpmFirmwareVersionIncompatible,
    EpmDataFirmwareTypeIncompatible,
    EpmDataNewFirmwareTypeDetected,
    EpmDataPusizeIncompatible,
    EpmDataNewPusizeDetected,
    InvalidParameterChangeoverConfiguration,
    EpmDataUnknownParameterFound,
    ParameterChangesLost,
    NetworkTimeoutExplicitMessage,
    NetworkOverallCommunicationTimeout,
    TimeOutPAM,
    ModbusTcpMasterTimeOut,
    ModbusTcpKeepAliveTimeOut,
    CanBusOff,
    CanWarning,
    CanHeartbeatTimeOutConsumer1,
    CanHeartbeatTimeOutConsumer2,
    CanHeartbeatTimeOutConsumer3,
    CanHeartbeatTimeOutConsumer4,
    NetworkWatchdogTimeout,
    NetworkDisruptionOfCyclicDataExchange,
    NetworkInitialisationError,
    NetworkInvalidCyclicProcessData,
    ModbusNetworkTimeOut,
    ModbusIncorrectRequestByMaster,
    NetworkCommunicationFaulty,
    PowerlinkLossOfSoc,
    PowerlinkCrcError,
    NetworkPdoMappingError,
    CanRpdo1TimeOut,
    CanRpdo2TimeOut,
    CanRpdo3TimeOut,
    TorqueLimitReached,
    FunctionNotAllowedInSelectedOperatingMode,
    KeypadRemoved,
    BrakeResistorOverloadFault,
    SafeTorqueOffIsLocked,
    MotorOverspeed,
    MotorPhaseMissing,
    MotorPhaseFailurePhaseU,
    MotorPhaseFailurePhaseV,
    MotorPhaseFailurePhaseW,
    MotorParameterIdentificationFault,
    FmfError,
    BrakeResistorOverloadWarning,
    AutomaticStartDisabled,
    LoadLossDetected,
    MotorOverload,
    MaximumMotorFrequencyReached,
    ManualModeDeactivated,
    ManualModeActivated,
    ManualModeTimeOut,
    WrongPassword,
    Warning,
    FatalError,
    PowerUnitFatalError,
    KeypadFullControlActive,
    AutoTuningActive,
    AutoTuningCancelled,
}

impl I550Error {
    /// The 16-bit code of the error.
    pub open spec fn spec_code(self) -> u16 {
        match self {
            I550Error::NoError => 0,
            I550Error::ContinuousOverCurrent => 0x2250,
            I550Error::ShortCircuitInternal => 0x2320,
            I550Error::ShortCircuitDeviceInternal => 0x2340,
            I550Error::I2tOverload => 0x2350,
            I550Error::ItError => 0x2382,
            I550Error::ItWarning => 0x2383,
            I550Error::ImaxClampRespondedTooOften => 0x2387,
            I550Error::StallDetectionActive => 0x2388,
            I550Error::MaximumCurrentReached => 0x238A,
            I550Error::MainsPhaseFault => 0x3120,
            I550Error::UpsOperationActive => 0x3180,
            I550Error::DcBusOvervoltage => 0x3210,
            I550Error::DcBusOvervoltageWarning => 0x3211,
            I550Error::DcBusUndervoltage => 0x3220,
            I550Error::DcBusUndervoltageWarning => 0x3221,
            I550Error::DcBusVoltageTooLowForPowerUp => 0x3222,
            I550Error::PowerUnitOvertemperature => 0x4210,
            I550Error::HeatSinkTemperatureSensorFault => 0x4280,
            I550Error::HeatSinkFanWarning => 0x4281,
            I550Error::PowerUnitOvertemperatureWarning => 0x4285,
            I550Error::MotorTemperatureError => 0x4310,
            I550Error::TwentyFourVSupplyCritical => 0x5112,
            I550Error::OverloadTwentyFourVSupply => 0x5180,
            I550Error::OemHardwareIncompatible => 0x5380,
            I550Error::InternalFanWarning => 0x618A,
            I550Error::TriggerFunctionsConnectedIncorrectly => 0x6280,
            I550Error::UserDefinedFault1 => 0x6281,
            I550Error::UserDefinedFault2 => 0x6282,
            I550Error::WarningInvertRotation => 0x6290,
            I550Error::MaximumAllowedTroublesExceeded => 0x6291,
            I550Error::UserDefinedFaultLecom => 0x62A0,
            I550Error::NetworkUserFault1 => 0x62A1,
            I550Error::NetworkUserFault2 => 0x62A2,
            I550Error::NetworkWordIn1ConfigurationIncorrect => 0x62B1,
            I550Error::LoadErrorIdTag => 0x63A1,
            I550Error::PuLoadErrorIdTag => 0x63A2,
            I550Error::PowerUnitUnknown => 0x63A3,
            I550Error::AssertionLevelMonitoring => 0x7080,
            I550Error::AnalogInput1Fault => 0x7081,
            I550Error::AnalogInput2Fault => 0x7082,
            I550Error::HtlInputFault => 0x7083,
            I550Error::AnalogOutput1Fault => 0x70A1,
            I550Error::AnalogOutput2Fault => 0x70A2,
            I550Error::PolePositionIdentificationFault => 0x7121,
            I550Error::MotorOvercurrent => 0x7180,
            I550Error::EncoderOpenCircuit => 0x7305,
            I550Error::FeedbackSystemSpeedLimit => 0x7385,
            I550Error::MemoryModuleIsFull => 0x7680,
            I550Error::MemoryModuleNotPresent => 0x7681,
            I550Error::MemoryModuleInvalidUserData => 0x7682,
            I550Error::DataNotComplSavedBeforePowerdown => 0x7684,
            I550Error::MemoryModuleInvalidOemData => 0x7689,
            I550Error::EpmFirmwareVersionIncompatible => 0x7690,
            I550Error::EpmDataFirmwareTypeIncompatible => 0x7691,
            I550Error::EpmDataNewFirmwareTypeDetected => 0x7692,
            I550Error::EpmDataPusizeIncompatible => 0x7693,
            I550Error::EpmDataNewPusizeDetected => 0x7694,
            I550Error::InvalidParameterChangeoverConfiguration => 0x7695,
            I550Error::EpmDataUnknownParameterFound => 0x7696,
            I550Error::ParameterChangesLost => 0x7697,
            I550Error::NetworkTimeoutExplicitMessage => 0x8112,
            I550Error::NetworkOverallCommunicationTimeout => 0x8114,
            I550Error::TimeOutPAM => 0x8115,
            I550Error::ModbusTcpMasterTimeOut => 0x8116,
            I550Error::ModbusTcpKeepAliveTimeOut => 0x8117,
            I550Error::CanBusOff => 0x8182,
            I550Error::CanWarning => 0x8183,
            I550Error::CanHeartbeatTimeOutConsumer1 => 0x8184,
            I550Error::CanHeartbeatTimeOutConsumer2 => 0x8185,
            I550Error::CanHeartbeatTimeOutConsumer3 => 0x8186,
            I550Error::CanHeartbeatTimeOutConsumer4 => 0x8187,
            I550Error::NetworkWatchdogTimeout => 0x8190,
            I550Error::NetworkDisruptionOfCyclicDataExchange => 0x8191,
            I550Error::NetworkInitialisationError => 0x8192,
            I550Error::NetworkInvalidCyclicProcessData => 0x8193,
            I550Error::ModbusNetworkTimeOut => 0x81A1,
            I550Error::ModbusIncorrectRequestByMaster => 0x81A2,
            I550Error::NetworkCommunicationFaulty => 0x81B0,
            I550Error::PowerlinkLossOfSoc => 0x8265,
            I550Error::PowerlinkCrcError => 0x8266,
            I550Error::NetworkPdoMappingError => 0x8286,
            I550Error::CanRpdo1TimeOut => 0x8291,
            I550Error::CanRpdo2TimeOut => 0x8292,
            I550Error::CanRpdo3TimeOut => 0x8293,
            I550Error::TorqueLimitReached => 0x8311,
            I550Error::FunctionNotAllowedInSelectedOperatingMode => 0x8380,
            I550Error::KeypadRemoved => 0x9080,
            I550Error::BrakeResistorOverloadFault => 0xFF02,
            I550Error::SafeTorqueOffIsLocked => 0xFF05,
            I550Error::MotorOverspeed => 0xFF06,
            I550Error::MotorPhaseMissing => 0xFF09,
            I550Error::MotorPhaseFailurePhaseU => 0xFF0A,
            I550Error::MotorPhaseFailurePhaseV => 0xFF0B,
            I550Error::MotorPhaseFailurePhaseW => 0xFF0C,
            I550Error::MotorParameterIdentificationFault => 0xFF19,
            I550Error::FmfError => 0xFF1F,
            I550Error::BrakeResistorOverloadWarning => 0xFF36,
            I550Error::AutomaticStartDisabled => 0xFF37,
            I550Error::LoadLossDetected => 0xFF38,
            I550Error::MotorOverload => 0xFF39,
            I550Error::MaximumMotorFrequencyReached => 0xFF56,
            I550Error::ManualModeDeactivated => 0xFF5A,
            I550Error::ManualModeActivated => 0xFF5B,
            I550Error::ManualModeTimeOut => 0xFF5C,
            I550Error::WrongPassword => 0xFF71,
            I550Error::Warning => 0xFF72,
            I550Error::FatalError => 0xFF73,
            I550Error::PowerUnitFatalError => 0xFF74,
            I550Error::KeypadFullControlActive => 0xFF85,
            I550Error::AutoTuningActive => 0xFF86,
            I550Error::AutoTuningCancelled => 0xFF87,
        }
    }

    /// The error with the given code, if the code is known.
    pub open spec fn spec_from_code(c: u16) -> Option<I550Error> {
        match c {
            0 => Some(I550Error::NoError),
            0x2250 => Some(I550Error::ContinuousOverCurrent),
            0x2320 => Some(I550Error::ShortCircuitInternal),
            0x2340 => Some(I550Error::ShortCircuitDeviceInternal),
            0x2350 => Some(I550Error::I2tOverload),
            0x2382 => Some(I550Error::ItError),
            0x2383 => Some(I550Error::ItWarning),
            0x2387 => Some(I550Error::ImaxClampRespondedTooOften),
            0x2388 => Some(I550Error::StallDetectionActive),
            0x238A => Some(I550Error::MaximumCurrentReached),
            0x3120 => Some(I550Error::MainsPhaseFault),
            0x3180 => Some(I550Error::UpsOperationActive),
            0x3210 => Some(I550Error::DcBusOvervoltage),
            0x3211 => Some(I550Error::DcBusOvervoltageWarning),
            0x3220 => Some(I550Error::DcBusUndervoltage),
            0x3221 => Some(I550Error::DcBusUndervoltageWarning),
            0x3222 => Some(I550Error::DcBusVoltageTooLowForPowerUp),
            0x4210 => Some(I550Error::PowerUnitOvertemperature),
            0x4280 => Some(I550Error::HeatSinkTemperatureSensorFault),
            0x4281 => Some(I550Error::HeatSinkFanWarning),
            0x4285 => Some(I550Error::PowerUnitOvertemperatureWarning),
            0x4310 => Some(I550Error::MotorTemperatureError),
            0x5112 => Some(I550Error::TwentyFourVSupplyCritical),
            0x5180 => Some(I550Error::OverloadTwentyFourVSupply),
            0x5380 => Some(I550Error::OemHardwareIncompatible),
            0x618A => Some(I550Error::InternalFanWarning),
            0x6280 => Some(I550Error::TriggerFunctionsConnectedIncorrectly),
            0x6281 => Some(I550Error::UserDefinedFault1),
            0x6282 => Some(I550Error::UserDefinedFault2),
            0x6290 => Some(I550Error::WarningInvertRotation),
            0x6291 => Some(I550Error::MaximumAllowedTroublesExceeded),
            0x62A0 => Some(I550Error::UserDefinedFaultLecom),
            0x62A1 => Some(I550Error::NetworkUserFault1),
            0x62A2 => Some(I550Error::NetworkUserFault2),
            0x62B1 => Some(I550Error::NetworkWordIn1ConfigurationIncorrect),
            0x63A1 => Some(I550Error::LoadErrorIdTag),
            0x63A2 => Some(I550Error::PuLoadErrorIdTag),
            0x63A3 => Some(I550Error::PowerUnitUnknown),
            0x7080 => Some(I550Error::AssertionLevelMonitoring),
            0x7081 => Some(I550Error::AnalogInput1Fault),
            0x7082 => Some(I550Error::AnalogInput2Fault),
            0x7083 => Some(I550Error::HtlInputFault),
            0x70A1 => Some(I550Error::AnalogOutput1Fault),
            0x70A2 => Some(I550Error::AnalogOutput2Fault),
            0x7121 => Some(I550Error::PolePositionIdentificationFault),
            0x7180 => Some(I550Error::MotorOvercurrent),
            0x7305 => Some(I550Error::EncoderOpenCircuit),
            0x7385 => Some(I550Error::FeedbackSystemSpeedLimit),
            0x7680 => Some(I550Error::MemoryModuleIsFull),
            0x7681 => Some(I550Error::MemoryModuleNotPresent),
            0x7682 => Some(I550Error::MemoryModuleInvalidUserData),
            0x7684 => Some(I550Error::DataNotComplSavedBeforePowerdown),
            0x7689 => Some(I550Error::MemoryModuleInvalidOemData),
            0x7690 => Some(I550Error::EpmFirmwareVersionIncompatible),
            0x7691 => Some(I550Error::EpmDataFirmwareTypeIncompatible),
            0x7692 => Some(I550Error::EpmDataNewFirmwareTypeDetected),
            0x7693 => Some(I550Error::EpmDataPusizeIncompatible),
            0x7694 => Some(I550Error::EpmDataNewPusizeDetected),
            0x7695 => Some(I550Error::InvalidParameterChangeoverConfiguration),
            0x7696 => Some(I550Error::EpmDataUnknownParameterFound),
            0x7697 => Some(I550Error::ParameterChangesLost),
            0x8112 => Some(I550Error::NetworkTimeoutExplicitMessage),
            0x8114 => Some(I550Error::NetworkOverallCommunicationTimeout),
            0x8115 => Some(I550Error::TimeOutPAM),
            0x8116 => Some(I550Error::ModbusTcpMasterTimeOut),
            0x8117 => Some(I550Error::ModbusTcpKeepAliveTimeOut),
            0x8182 => Some(I550Error::CanBusOff),
            0x8183 => Some(I550Error::CanWarning),
            0x8184 => Some(I550Error::CanHeartbeatTimeOutConsumer1),
            0x8185 => Some(I550Error::CanHeartbeatTimeOutConsumer2),
            0x8186 => Some(I550Error::CanHeartbeatTimeOutConsumer3),
            0x8187 => Some(I550Error::CanHeartbeatTimeOutConsumer4),
            0x8190 => Some(I550Error::NetworkWatchdogTimeout),
            0x8191 => Some(I550Error::NetworkDisruptionOfCyclicDataExchange),
            0x8192 => Some(I550Error::NetworkInitialisationError),
            0x8193 => Some(I550Error::NetworkInvalidCyclicProcessData),
            0x81A1 => Some(I550Error::ModbusNetworkTimeOut),
            0x81A2 => Some(I550Error::ModbusIncorrectRequestByMaster),
            0x81B0 => Some(I550Error::NetworkCommunicationFaulty),
            0x8265 => Some(I550Error::PowerlinkLossOfSoc),
            0x8266 => Some(I550Error::PowerlinkCrcError),
            0x8286 => Some(I550Error::NetworkPdoMappingError),
            0x8291 => Some(I550Error::CanRpdo1TimeOut),
            0x8292 => Some(I550Error::CanRpdo2TimeOut),
            0x8293 => Some(I550Error::CanRpdo3TimeOut),
            0x8311 => Some(I550Error::TorqueLimitReached),
            0x8380 => Some(I550Error::FunctionNotAllowedInSelectedOperatingMode),
            0x9080 => Some(I550Error::KeypadRemoved),
            0xFF02 => Some(I550Error::BrakeResistorOverloadFault),
            0xFF05 => Some(I550Error::SafeTorqueOffIsLocked),
            0xFF06 => Some(I550Error::MotorOverspeed),
            0xFF09 => Some(I550Error::MotorPhaseMissing),
            0xFF0A => Some(I550Error::MotorPhaseFailurePhaseU),
            0xFF0B => Some(I550Error::MotorPhaseFailurePhaseV),
            0xFF0C => Some(I550Error::MotorPhaseFailurePhaseW),
            0xFF19 => Some(I550Error::MotorParameterIdentificationFault),
            0xFF1F => Some(I550Error::FmfError),
            0xFF36 => Some(I550Error::BrakeResistorOverloadWarning),
            0xFF37 => Some(I550Error::AutomaticStartDisabled),
            0xFF38 => Some(I550Error::LoadLossDetected),
            0xFF39 => Some(I550Error::MotorOverload),
            0xFF56 => Some(I550Error::MaximumMotorFrequencyReached),
            0xFF5A => Some(I550Error::ManualModeDeactivated),
            0xFF5B => Some(I550Error::ManualModeActivated),
            0xFF5C => Some(I550Error::ManualModeTimeOut),
            0xFF71 => Some(I550Error::WrongPassword),
            0xFF72 => Some(I550Error::Warning),
            0xFF73 => Some(I550Error::FatalError),
            0xFF74 => Some(I550Error::PowerUnitFatalError),
            0xFF85 => Some(I550Error::KeypadFullControlActive),
            0xFF86 => Some(I550Error::AutoTuningActive),
            0xFF87 => Some(I550Error::AutoTuningCancelled),
            _ => None,
        }
    }

    /// The description of the error.
    pub open spec fn spec_description(self) -> Seq<char> {
        match self {
            I550Error::NoError => "None"@,
            I550Error::ContinuousOverCurrent => "CiA: Continuous over current (internal) Fault"@,
            I550Error::ShortCircuitInternal => "CiA: Short circuit/earth leakage (internal) Fault"@,
            I550Error::ShortCircuitDeviceInternal => "CiA: Short circuit (device internal) Fault"@,
            I550Error::I2tOverload => "CiA: i²*t overload (thermal state) Fault 0x2D4B:003 (P308.03)"@,
            I550Error::ItError => "I*t error Fault 0x2D40:005 (P135.05)"@,
            I550Error::ItWarning => "I*t warning Warning"@,
            I550Error::ImaxClampRespondedTooOften => "Imax: Clamp responded too often Fault"@,
            I550Error::StallDetectionActive => "SL-PSM stall detection active Trouble"@,
            I550Error::MaximumCurrentReached => "Maximum current reached Information"@,
            I550Error::MainsPhaseFault => "Mains phase fault Fault"@,
            I550Error::UpsOperationActive => "UPS operation active Warning"@,
            I550Error::DcBusOvervoltage => "DC bus overvoltage Fault"@,
            I550Error::DcBusOvervoltageWarning => "DC bus overvoltage warning Warning"@,
            I550Error::DcBusUndervoltage => "DC bus undervoltage Trouble"@,
            I550Error::DcBusUndervoltageWarning => "DC bus undervoltage warning Warning"@,
            I550Error::DcBusVoltageTooLowForPowerUp => "DC-bus voltage too low for power up Warning"@,
            I550Error::PowerUnitOvertemperature => "PU: overtemperature fault Fault"@,
            I550Error::HeatSinkTemperatureSensorFault => "Heat sink temperature sensor fault Fault"@,
            I550Error::HeatSinkFanWarning => "Heat sink fan warning Warning"@,
            I550Error::PowerUnitOvertemperatureWarning => "PU overtemperature warning Warning"@,
            I550Error::MotorTemperatureError => "Motor temperature error Fault 0x2D49:002 (P309.02)"@,
            I550Error::TwentyFourVSupplyCritical => "24 V supply critical Warning"@,
            I550Error::OverloadTwentyFourVSupply => "Overload 24 V supply Warning"@,
            I550Error::OemHardwareIncompatible => "OEM hardware incompatible Fault"@,
            I550Error::InternalFanWarning => "Internal fan warning Warning"@,
            I550Error::TriggerFunctionsConnectedIncorrectly => "Trigger/functions connected incorrectly Trouble"@,
            I550Error::UserDefinedFault1 => "User-defined fault 1 Fault"@,
            I550Error::UserDefinedFault2 => "User-defined fault 2 Fault"@,
            I550Error::WarningInvertRotation => "Warning invert rotation Warning"@,
            I550Error::MaximumAllowedTroublesExceeded => "Maximum allowed troubles exceeded Fault"@,
            I550Error::UserDefinedFaultLecom => "User-defined fault (LECOM) Fault"@,
            I550Error::NetworkUserFault1 => "Network: user fault 1 Fault"@,
            I550Error::NetworkUserFault2 => "Network: user fault 2 Fault"@,
            I550Error::NetworkWordIn1ConfigurationIncorrect => "Network: IN1 configuration incorrect Trouble"@,
            I550Error::LoadErrorIdTag => "CU: load error ID tag Fault"@,
            I550Error::PuLoadErrorIdTag => "PU: load error ID tag Fault"@,
            I550Error::PowerUnitUnknown => "Power unit unknown Fault"@,
            I550Error::AssertionLevelMonitoring => "Assertion level monitoring (Low/High) Fault"@,
            I550Error::AnalogInput1Fault => "Analog input 1 fault Fault 0x2636:010 (P430.10)"@,
            I550Error::AnalogInput2Fault => "Analog input 2 fault Fault 0x2637:010 (P431.10)"@,
            I550Error::HtlInputFault => "HTL input fault No response 0x2641:006 (P416.06)"@,
            I550Error::AnalogOutput1Fault => "Analog output 1 fault Warning"@,
            I550Error::AnalogOutput2Fault => "Analog output 2 fault Warning"@,
            I550Error::PolePositionIdentificationFault => "Pole position identification fault Fault 0x2C60"@,
            I550Error::MotorOvercurrent => "Motor overcurrent Fault 0x2D46:002 (P353.02)"@,
            I550Error::EncoderOpenCircuit => "Encoder open circuit Warning 0x2C45 (P342.00)"@,
            I550Error::FeedbackSystemSpeedLimit => "Feedback system: speed limit Warning"@,
            I550Error::MemoryModuleIsFull => "Memory module is full Warning"@,
            I550Error::MemoryModuleNotPresent => "Memory module not present Fault"@,
            I550Error::MemoryModuleInvalidUserData => "Memory module: Invalid user data Fault"@,
            I550Error::DataNotComplSavedBeforePowerdown => "Data not completely saved before powerdown Warning"@,
            I550Error::MemoryModuleInvalidOemData => "Memory module: invalid OEM data Warning"@,
            I550Error::EpmFirmwareVersionIncompatible => "EPM firmware version incompatible Fault"@,
            I550Error::EpmDataFirmwareTypeIncompatible => "EPM data: firmware type incompatible Fault"@,
            I550Error::EpmDataNewFirmwareTypeDetected => "EPM data: new firmware type detected Fault"@,
            I550Error::EpmDataPusizeIncompatible => "EPM data: PU size incompatible Fault"@,
            I550Error::EpmDataNewPusizeDetected => "EPM data: new PU size detected Fault"@,
            I550Error::InvalidParameterChangeoverConfiguration => "Invalid parameter changeover configuration Warning"@,
            I550Error::EpmDataUnknownParameterFound => "EPM data: unknown parameter found Information"@,
            I550Error::ParameterChangesLost => "Parameter changes lost Fault"@,
            I550Error::NetworkTimeoutExplicitMessage => "Network: timeout explicit message Warning 0x2859:006 (P515.06)"@,
            I550Error::NetworkOverallCommunicationTimeout => "Network: overall communication timeout Warning See details for 33044"@,
            I550Error::TimeOutPAM => "Time-out (PAM) No response 0x2552:004 (P595.04)"@,
            I550Error::ModbusTcpMasterTimeOut => "Modbus TCP master time-out Fault 0x2859:008 (P515.08)"@,
            I550Error::ModbusTcpKeepAliveTimeOut => "Modbus TCP Keep Alive time-out Fault 0x2859:009 (P515.09)"@,
            I550Error::CanBusOff => "CAN: bus off Trouble 0x2857:010"@,
            I550Error::CanWarning => "CAN: warning Warning 0x2857:011"@,
            I550Error::CanHeartbeatTimeOutConsumer1 => "CAN: heartbeat time-out consumer 1 Fault 0x2857:005"@,
            I550Error::CanHeartbeatTimeOutConsumer2 => "CAN: heartbeat time-out consumer 2 Fault 0x2857:006"@,
            I550Error::CanHeartbeatTimeOutConsumer3 => "CAN: heartbeat time-out consumer 3 Fault 0x2857:007"@,
            I550Error::CanHeartbeatTimeOutConsumer4 => "CAN: heartbeat time-out consumer 4 Fault 0x2857:008"@,
            I550Error::NetworkWatchdogTimeout => "Network: watchdog timeout Trouble See details for 33168"@,
            I550Error::NetworkDisruptionOfCyclicDataExchange => "Network: disruption of cyclic data exchange No response 0x2859:002 (P515.02)"@,
            I550Error::NetworkInitialisationError => "Network: initialization error Trouble See details for 33170"@,
            I550Error::NetworkInvalidCyclicProcessData => "Network: invalid cyclic process data Trouble See details for 33171"@,
            I550Error::ModbusNetworkTimeOut => "Modbus: network time-out Fault 0x2858:001 (P515.01)"@,
            I550Error::ModbusIncorrectRequestByMaster => "Modbus: incorrect request by master Warning"@,
            I550Error::NetworkCommunicationFaulty => "Network communication faulty Trouble"@,
            I550Error::PowerlinkLossOfSoc => "POWERLINK: Loss of SoC Trouble 0x2859:011"@,
            I550Error::PowerlinkCrcError => "POWERLINK: CRC error Trouble 0x2859:010"@,
            I550Error::NetworkPdoMappingError => "Network: PDO mapping error Trouble See details for 33414"@,
            I550Error::CanRpdo1TimeOut => "CAN: RPDO1 time-out Fault 0x2857:001"@,
            I550Error::CanRpdo2TimeOut => "CAN: RPDO2 time-out Fault 0x2857:002"@,
            I550Error::CanRpdo3TimeOut => "CAN: RPDO3 time-out Fault 0x2857:003"@,
            I550Error::TorqueLimitReached => "Torque limit reached No response 0x2D67:001 (P329.01)"@,
            I550Error::FunctionNotAllowedInSelectedOperatingMode => "Function not allowed in selected operating mode Warning"@,
            I550Error::KeypadRemoved => "Keypad removed Fault"@,
            I550Error::BrakeResistorOverloadFault => "Brake resistor: overload fault Fault 0x2550:011 (P707.11)"@,
            I550Error::SafeTorqueOffIsLocked => "Safe Torque Off is locked Fault"@,
            I550Error::MotorOverspeed => "Motor overspeed Fault 0x2D44:002 (P350.02)"@,
            I550Error::MotorPhaseMissing => "Motor phase missing No response 0x2D45:001 (P310.01)"@,
            I550Error::MotorPhaseFailurePhaseU => "Motor phase failure phase U No response 0x2D45:001 (P310.01)"@,
            I550Error::MotorPhaseFailurePhaseV => "Motor phase failure phase V No response 0x2D45:001 (P310.01)"@,
            I550Error::MotorPhaseFailurePhaseW => "Motor phase failure phase W No response 0x2D45:001 (P310.01)"@,
            I550Error::MotorParameterIdentificationFault => "Motor parameter identification fault Fault"@,
            I550Error::FmfError => "FMF Error Fault"@,
            I550Error::BrakeResistorOverloadWarning => "Brake resistor: overload warning Warning 0x2550:010 (P707.10)"@,
            I550Error::AutomaticStartDisabled => "Automatic start disabled Fault"@,
            I550Error::LoadLossDetected => "Load loss detected No response 0x4006:003 (P710.03)"@,
            I550Error::MotorOverload => "Motor overload No response 0x4007:003"@,
            I550Error::MaximumMotorFrequencyReached => "Maximum motor frequency reached Warning"@,
            I550Error::ManualModeDeactivated => "Manual mode deactivated Warning"@,
            I550Error::ManualModeActivated => "Manual mode activated Warning"@,
            I550Error::ManualModeTimeOut => "Manual mode time-out Fault"@,
            I550Error::WrongPassword => "Wrong password Warning"@,
            I550Error::Warning => "Warning Warning 0xFF72"@,
            I550Error::FatalError => "Fatal Error Fault"@,
            I550Error::PowerUnitFatalError => "Power unit fatal error Fault"@,
            I550Error::KeypadFullControlActive => "Keypad full control active Warning"@,
            I550Error::AutoTuningActive => "Auto-tuning active Warning"@,
            I550Error::AutoTuningCancelled => "Auto-tuning cancelled Fault"@,
        }
    }

    /// The 16-bit code of the error.
    pub fn code(&self) -> (r: u16)
        ensures
            r == self.spec_code(),
    {
        match self {
            I550Error::NoError => 0,
            I550Error::ContinuousOverCurrent => 0x2250,
            I550Error::ShortCircuitInternal => 0x2320,
            I550Error::ShortCircuitDeviceInternal => 0x2340,
            I550Error::I2tOverload => 0x2350,
            I550Error::ItError => 0x2382,
            I550Error::ItWarning => 0x2383,
            I550Error::ImaxClampRespondedTooOften => 0x2387,
            I550Error::StallDetectionActive => 0x2388,
            I550Error::MaximumCurrentReached => 0x238A,
            I550Error::MainsPhaseFault => 0x3120,
            I550Error::UpsOperationActive => 0x3180,
            I550Error::DcBusOvervoltage => 0x3210,
            I550Error::DcBusOvervoltageWarning => 0x3211,
            I550Error::DcBusUndervoltage => 0x3220,
            I550Error::DcBusUndervoltageWarning => 0x3221,
            I550Error::DcBusVoltageTooLowForPowerUp => 0x3222,
            I550Error::PowerUnitOvertemperature => 0x4210,
            I550Error::HeatSinkTemperatureSensorFault => 0x4280,
            I550Error::HeatSinkFanWarning => 0x4281,
            I550Error::PowerUnitOvertemperatureWarning => 0x4285,
            I550Error::MotorTemperatureError => 0x4310,
            I550Error::TwentyFourVSupplyCritical => 0x5112,
            I550Error::OverloadTwentyFourVSupply => 0x5180,
            I550Error::OemHardwareIncompatible => 0x5380,
            I550Error::InternalFanWarning => 0x618A,
            I550Error::TriggerFunctionsConnectedIncorrectly => 0x6280,
            I550Error::UserDefinedFault1 => 0x6281,
            I550Error::UserDefinedFault2 => 0x6282,
            I550Error::WarningInvertRotation => 0x6290,
            I550Error::MaximumAllowedTroublesExceeded => 0x6291,
            I550Error::UserDefinedFaultLecom => 0x62A0,
            I550Error::NetworkUserFault1 => 0x62A1,
            I550Error::NetworkUserFault2 => 0x62A2,
            I550Error::NetworkWordIn1ConfigurationIncorrect => 0x62B1,
            I550Error::LoadErrorIdTag => 0x63A1,
            I550Error::PuLoadErrorIdTag => 0x63A2,
            I550Error::PowerUnitUnknown => 0x63A3,
            I550Error::AssertionLevelMonitoring => 0x7080,
            I550Error::AnalogInput1Fault => 0x7081,
            I550Error::AnalogInput2Fault => 0x7082,
            I550Error::HtlInputFault => 0x7083,
            I550Error::AnalogOutput1Fault => 0x70A1,
            I550Error::AnalogOutput2Fault => 0x70A2,
            I550Error::PolePositionIdentificationFault => 0x7121,
            I550Error::MotorOvercurrent => 0x7180,
            I550Error::EncoderOpenCircuit => 0x7305,
            I550Error::FeedbackSystemSpeedLimit => 0x7385,
            I550Error::MemoryModuleIsFull => 0x7680,
            I550Error::MemoryModuleNotPresent => 0x7681,
            I550Error::MemoryModuleInvalidUserData => 0x7682,
            I550Error::DataNotComplSavedBeforePowerdown => 0x7684,
            I550Error::MemoryModuleInvalidOemData => 0x7689,
            I550Error::EpmFirmwareVersionIncompatible => 0x7690,
            I550Error::EpmDataFirmwareTypeIncompatible => 0x7691,
            I550Error::EpmDataNewFirmwareTypeDetected => 0x7692,
            I550Error::EpmDataPusizeIncompatible => 0x7693,
            I550Error::EpmDataNewPusizeDetected => 0x7694,
            I550Error::InvalidParameterChangeoverConfiguration => 0x7695,
            I550Error::EpmDataUnknownParameterFound => 0x7696,
            I550Error::ParameterChangesLost => 0x7697,
            I550Error::NetworkTimeoutExplicitMessage => 0x8112,
            I550Error::NetworkOverallCommunicationTimeout => 0x8114,
            I550Error::TimeOutPAM => 0x8115,
            I550Error::ModbusTcpMasterTimeOut => 0x8116,
            I550Error::ModbusTcpKeepAliveTimeOut => 0x8117,
            I550Error::CanBusOff => 0x8182,
            I550Error::CanWarning => 0x8183,
            I550Error::CanHeartbeatTimeOutConsumer1 => 0x8184,
            I550Error::CanHeartbeatTimeOutConsumer2 => 0x8185,
            I550Error::CanHeartbeatTimeOutConsumer3 => 0x8186,
            I550Error::CanHeartbeatTimeOutConsumer4 => 0x8187,
            I550Error::NetworkWatchdogTimeout => 0x8190,
            I550Error::NetworkDisruptionOfCyclicDataExchange => 0x8191,
            I550Error::NetworkInitialisationError => 0x8192,
            I550Error::NetworkInvalidCyclicProcessData => 0x8193,
            I550Error::ModbusNetworkTimeOut => 0x81A1,
            I550Error::ModbusIncorrectRequestByMaster => 0x81A2,
            I550Error::NetworkCommunicationFaulty => 0x81B0,
            I550Error::PowerlinkLossOfSoc => 0x8265,
            I550Error::PowerlinkCrcError => 0x8266,
            I550Error::NetworkPdoMappingError => 0x8286,
            I550Error::CanRpdo1TimeOut => 0x8291,
            I550Error::CanRpdo2TimeOut => 0x8292,
            I550Error::CanRpdo3TimeOut => 0x8293,
            I550Error::TorqueLimitReached => 0x8311,
            I550Error::FunctionNotAllowedInSelectedOperatingMode => 0x8380,
            I550Error::KeypadRemoved => 0x9080,
            I550Error::BrakeResistorOverloadFault => 0xFF02,
            I550Error::SafeTorqueOffIsLocked => 0xFF05,
            I550Error::MotorOverspeed => 0xFF06,
            I550Error::MotorPhaseMissing => 0xFF09,
            I550Error::MotorPhaseFailurePhaseU => 0xFF0A,
            I550Error::MotorPhaseFailurePhaseV => 0xFF0B,
            I550Error::MotorPhaseFailurePhaseW => 0xFF0C,
            I550Error::MotorParameterIdentificationFault => 0xFF19,
            I550Error::FmfError => 0xFF1F,
            I550Error::BrakeResistorOverloadWarning => 0xFF36,
            I550Error::AutomaticStartDisabled => 0xFF37,
            I550Error::LoadLossDetected => 0xFF38,
            I550Error::MotorOverload => 0xFF39,
            I550Error::MaximumMotorFrequencyReached => 0xFF56,
            I550Error::ManualModeDeactivated => 0xFF5A,
            I550Error::ManualModeActivated => 0xFF5B,
            I550Error::ManualModeTimeOut => 0xFF5C,
            I550Error::WrongPassword => 0xFF71,
            I550Error::Warning => 0xFF72,
            I550Error::FatalError => 0xFF73,
            I550Error::PowerUnitFatalError => 0xFF74,
            I550Error::KeypadFullControlActive => 0xFF85,
            I550Error::AutoTuningActive => 0xFF86,
            I550Error::AutoTuningCancelled => 0xFF87,
        }
    }

    /// Reads an error code; `None` for a code the inverter does not define.
    pub fn from_code(c: u16) -> (r: Option<I550Error>)
        ensures
            r == I550Error::spec_from_code(c),
    {
        match c {
            0 => Some(I550Error::NoError),
            0x2250 => Some(I550Error::ContinuousOverCurrent),
            0x2320 => Some(I550Error::ShortCircuitInternal),
            0x2340 => Some(I550Error::ShortCircuitDeviceInternal),
            0x2350 => Some(I550Error::I2tOverload),
            0x2382 => Some(I550Error::ItError),
            0x2383 => Some(I550Error::ItWarning),
            0x2387 => Some(I550Error::ImaxClampRespondedTooOften),
            0x2388 => Some(I550Error::StallDetectionActive),
            0x238A => Some(I550Error::MaximumCurrentReached),
            0x3120 => Some(I550Error::MainsPhaseFault),
            0x3180 => Some(I550Error::UpsOperationActive),
            0x3210 => Some(I550Error::DcBusOvervoltage),
            0x3211 => Some(I550Error::DcBusOvervoltageWarning),
            0x3220 => Some(I550Error::DcBusUndervoltage),
            0x3221 => Some(I550Error::DcBusUndervoltageWarning),
            0x3222 => Some(I550Error::DcBusVoltageTooLowForPowerUp),
            0x4210 => Some(I550Error::PowerUnitOvertemperature),
            0x4280 => Some(I550Error::HeatSinkTemperatureSensorFault),
            0x4281 => Some(I550Error::HeatSinkFanWarning),
            0x4285 => Some(I550Error::PowerUnitOvertemperatureWarning),
            0x4310 => Some(I550Error::MotorTemperatureError),
            0x5112 => Some(I550Error::TwentyFourVSupplyCritical),
            0x5180 => Some(I550Error::OverloadTwentyFourVSupply),
            0x5380 => Some(I550Error::OemHardwareIncompatible),
            0x618A => Some(I550Error::InternalFanWarning),
            0x6280 => Some(I550Error::TriggerFunctionsConnectedIncorrectly),
            0x6281 => Some(I550Error::UserDefinedFault1),
            0x6282 => Some(I550Error::UserDefinedFault2),
            0x6290 => Some(I550Error::WarningInvertRotation),
            0x6291 => Some(I550Error::MaximumAllowedTroublesExceeded),
            0x62A0 => Some(I550Error::UserDefinedFaultLecom),
            0x62A1 => Some(I550Error::NetworkUserFault1),
            0x62A2 => Some(I550Error::NetworkUserFault2),
            0x62B1 => Some(I550Error::NetworkWordIn1ConfigurationIncorrect),
            0x63A1 => Some(I550Error::LoadErrorIdTag),
            0x63A2 => Some(I550Error::PuLoadErrorIdTag),
            0x63A3 => Some(I550Error::PowerUnitUnknown),
            0x7080 => Some(I550Error::AssertionLevelMonitoring),
            0x7081 => Some(I550Error::AnalogInput1Fault),
            0x7082 => Some(I550Error::AnalogInput2Fault),
            0x7083 => Some(I550Error::HtlInputFault),
            0x70A1 => Some(I550Error::AnalogOutput1Fault),
            0x70A2 => Some(I550Error::AnalogOutput2Fault),
            0x7121 => Some(I550Error::PolePositionIdentificationFault),
            0x7180 => Some(I550Error::MotorOvercurrent),
            0x7305 => Some(I550Error::EncoderOpenCircuit),
            0x7385 => Some(I550Error::FeedbackSystemSpeedLimit),
            0x7680 => Some(I550Error::MemoryModuleIsFull),
            0x7681 => Some(I550Error::MemoryModuleNotPresent),
            0x7682 => Some(I550Error::MemoryModuleInvalidUserData),
            0x7684 => Some(I550Error::DataNotComplSavedBeforePowerdown),
            0x7689 => Some(I550Error::MemoryModuleInvalidOemData),
            0x7690 => Some(I550Error::EpmFirmwareVersionIncompatible),
            0x7691 => Some(I550Error::EpmDataFirmwareTypeIncompatible),
            0x7692 => Some(I550Error::EpmDataNewFirmwareTypeDetected),
            0x7693 => Some(I550Error::EpmDataPusizeIncompatible),
            0x7694 => Some(I550Error::EpmDataNewPusizeDetected),
            0x7695 => Some(I550Error::InvalidParameterChangeoverConfiguration),
            0x7696 => Some(I550Error::EpmDataUnknownParameterFound),
            0x7697 => Some(I550Error::ParameterChangesLost),
            0x8112 => Some(I550Error::NetworkTimeoutExplicitMessage),
            0x8114 => Some(I550Error::NetworkOverallCommunicationTimeout),
            0x8115 => Some(I550Error::TimeOutPAM),
            0x8116 => Some(I550Error::ModbusTcpMasterTimeOut),
            0x8117 => Some(I550Error::ModbusTcpKeepAliveTimeOut),
            0x8182 => Some(I550Error::CanBusOff),
            0x8183 => Some(I550Error::CanWarning),
            0x8184 => Some(I550Error::CanHeartbeatTimeOutConsumer1),
            0x8185 => Some(I550Error::CanHeartbeatTimeOutConsumer2),
            0x8186 => Some(I550Error::CanHeartbeatTimeOutConsumer3),
            0x8187 => Some(I550Error::CanHeartbeatTimeOutConsumer4),
            0x8190 => Some(I550Error::NetworkWatchdogTimeout),
            0x8191 => Some(I550Error::NetworkDisruptionOfCyclicDataExchange),
            0x8192 => Some(I550Error::NetworkInitialisationError),
            0x8193 => Some(I550Error::NetworkInvalidCyclicProcessData),
            0x81A1 => Some(I550Error::ModbusNetworkTimeOut),
            0x81A2 => Some(I550Error::ModbusIncorrectRequestByMaster),
            0x81B0 => Some(I550Error::NetworkCommunicationFaulty),
            0x8265 => Some(I550Error::PowerlinkLossOfSoc),
            0x8266 => Some(I550Error::PowerlinkCrcError),
            0x8286 => Some(I550Error::NetworkPdoMappingError),
            0x8291 => Some(I550Error::CanRpdo1TimeOut),
            0x8292 => Some(I550Error::CanRpdo2TimeOut),
            0x8293 => Some(I550Error::CanRpdo3TimeOut),
            0x8311 => Some(I550Error::TorqueLimitReached),
            0x8380 => Some(I550Error::FunctionNotAllowedInSelectedOperatingMode),
            0x9080 => Some(I550Error::KeypadRemoved),
            0xFF02 => Some(I550Error::BrakeResistorOverloadFault),
            0xFF05 => Some(I550Error::SafeTorqueOffIsLocked),
            0xFF06 => Some(I550Error::MotorOverspeed),
            0xFF09 => Some(I550Error::MotorPhaseMissing),
            0xFF0A => Some(I550Error::MotorPhaseFailurePhaseU),
            0xFF0B => Some(I550Error::MotorPhaseFailurePhaseV),
            0xFF0C => Some(I550Error::MotorPhaseFailurePhaseW),
            0xFF19 => Some(I550Error::MotorParameterIdentificationFault),
            0xFF1F => Some(I550Error::FmfError),
            0xFF36 => Some(I550Error::BrakeResistorOverloadWarning),
            0xFF37 => Some(I550Error::AutomaticStartDisabled),
            0xFF38 => Some(I550Error::LoadLossDetected),
            0xFF39 => Some(I550Error::MotorOverload),
            0xFF56 => Some(I550Error::MaximumMotorFrequencyReached),
            0xFF5A => Some(I550Error::ManualModeDeactivated),
            0xFF5B => Some(I550Error::ManualModeActivated),
            0xFF5C => Some(I550Error::ManualModeTimeOut),
            0xFF71 => Some(I550Error::WrongPassword),
            0xFF72 => Some(I550Error::Warning),
            0xFF73 => Some(I550Error::FatalError),
            0xFF74 => Some(I550Error::PowerUnitFatalError),
            0xFF85 => Some(I550Error::KeypadFullControlActive),
            0xFF86 => Some(I550Error::AutoTuningActive),
            0xFF87 => Some(I550Error::AutoTuningCancelled),
            _ => None,
        }
    }

    /// The description of the error, as the inverter manual words it.
    pub fn description(&self) -> (s: String)
        ensures
            s@ == self.spec_description(),
    {
        match self {
            I550Error::NoError => String::from_str("None"),
            I550Error::ContinuousOverCurrent => String::from_str("CiA: Continuous over current (internal) Fault"),
            I550Error::ShortCircuitInternal => String::from_str("CiA: Short circuit/earth leakage (internal) Fault"),
            I550Error::ShortCircuitDeviceInternal => String::from_str("CiA: Short circuit (device internal) Fault"),
            I550Error::I2tOverload => String::from_str("CiA: i²*t overload (thermal state) Fault 0x2D4B:003 (P308.03)"),
            I550Error::ItError => String::from_str("I*t error Fault 0x2D40:005 (P135.05)"),
            I550Error::ItWarning => String::from_str("I*t warning Warning"),
            I550Error::ImaxClampRespondedTooOften => String::from_str("Imax: Clamp responded too often Fault"),
            I550Error::StallDetectionActive => String::from_str("SL-PSM stall detection active Trouble"),
            I550Error::MaximumCurrentReached => String::from_str("Maximum current reached Information"),
            I550Error::MainsPhaseFault => String::from_str("Mains phase fault Fault"),
            I550Error::UpsOperationActive => String::from_str("UPS operation active Warning"),
            I550Error::DcBusOvervoltage => String::from_str("DC bus overvoltage Fault"),
            I550Error::DcBusOvervoltageWarning => String::from_str("DC bus overvoltage warning Warning"),
            I550Error::DcBusUndervoltage => String::from_str("DC bus undervoltage Trouble"),
            I550Error::DcBusUndervoltageWarning => String::from_str("DC bus undervoltage warning Warning"),
            I550Error::DcBusVoltageTooLowForPowerUp => String::from_str("DC-bus voltage too low for power up Warning"),
            I550Error::PowerUnitOvertemperature => String::from_str("PU: overtemperature fault Fault"),
            I550Error::HeatSinkTemperatureSensorFault => String::from_str("Heat sink temperature sensor fault Fault"),
            I550Error::HeatSinkFanWarning => String::from_str("Heat sink fan warning Warning"),
            I550Error::PowerUnitOvertemperatureWarning => String::from_str("PU overtemperature warning Warning"),
            I550Error::MotorTemperatureError => String::from_str("Motor temperature error Fault 0x2D49:002 (P309.02)"),
            I550Error::TwentyFourVSupplyCritical => String::from_str("24 V supply critical Warning"),
            I550Error::OverloadTwentyFourVSupply => String::from_str("Overload 24 V supply Warning"),
            I550Error::OemHardwareIncompatible => String::from_str("OEM hardware incompatible Fault"),
            I550Error::InternalFanWarning => String::from_str("Internal fan warning Warning"),
            I550Error::TriggerFunctionsConnectedIncorrectly => String::from_str("Trigger/functions connected incorrectly Trouble"),
            I550Error::UserDefinedFault1 => String::from_str("User-defined fault 1 Fault"),
            I550Error::UserDefinedFault2 => String::from_str("User-defined fault 2 Fault"),
            I550Error::WarningInvertRotation => String::from_str("Warning invert rotation Warning"),
            I550Error::MaximumAllowedTroublesExceeded => String::from_str("Maximum allowed troubles exceeded Fault"),
            I550Error::UserDefinedFaultLecom => String::from_str("User-defined fault (LECOM) Fault"),
            I550Error::NetworkUserFault1 => String::from_str("Network: user fault 1 Fault"),
            I550Error::NetworkUserFault2 => String::from_str("Network: user fault 2 Fault"),
            I550Error::NetworkWordIn1ConfigurationIncorrect => String::from_str("Network: IN1 configuration incorrect Trouble"),
            I550Error::LoadErrorIdTag => String::from_str("CU: load error ID tag Fault"),
            I550Error::PuLoadErrorIdTag => String::from_str("PU: load error ID tag Fault"),
            I550Error::PowerUnitUnknown => String::from_str("Power unit unknown Fault"),
            I550Error::AssertionLevelMonitoring => String::from_str("Assertion level monitoring (Low/High) Fault"),
            I550Error::AnalogInput1Fault => String::from_str("Analog input 1 fault Fault 0x2636:010 (P430.10)"),
            I550Error::AnalogInput2Fault => String::from_str("Analog input 2 fault Fault 0x2637:010 (P431.10)"),
            I550Error::HtlInputFault => String::from_str("HTL input fault No response 0x2641:006 (P416.06)"),
            I550Error::AnalogOutput1Fault => String::from_str("Analog output 1 fault Warning"),
            I550Error::AnalogOutput2Fault => String::from_str("Analog output 2 fault Warning"),
            I550Error::PolePositionIdentificationFault => String::from_str("Pole position identification fault Fault 0x2C60"),
            I550Error::MotorOvercurrent => String::from_str("Motor overcurrent Fault 0x2D46:002 (P353.02)"),
            I550Error::EncoderOpenCircuit => String::from_str("Encoder open circuit Warning 0x2C45 (P342.00)"),
            I550Error::FeedbackSystemSpeedLimit => String::from_str("Feedback system: speed limit Warning"),
            I550Error::MemoryModuleIsFull => String::from_str("Memory module is full Warning"),
            I550Error::MemoryModuleNotPresent => String::from_str("Memory module not present Fault"),
            I550Error::MemoryModuleInvalidUserData => String::from_str("Memory module: Invalid user data Fault"),
            I550Error::DataNotComplSavedBeforePowerdown => String::from_str("Data not completely saved before powerdown Warning"),
            I550Error::MemoryModuleInvalidOemData => String::from_str("Memory module: invalid OEM data Warning"),
            I550Error::EpmFirmwareVersionIncompatible => String::from_str("EPM firmware version incompatible Fault"),
            I550Error::EpmDataFirmwareTypeIncompatible => String::from_str("EPM data: firmware type incompatible Fault"),
            I550Error::EpmDataNewFirmwareTypeDetected => String::from_str("EPM data: new firmware type detected Fault"),
            I550Error::EpmDataPusizeIncompatible => String::from_str("EPM data: PU size incompatible Fault"),
            I550Error::EpmDataNewPusizeDetected => String::from_str("EPM data: new PU size detected Fault"),
            I550Error::InvalidParameterChangeoverConfiguration => String::from_str("Invalid parameter changeover configuration Warning"),
            I550Error::EpmDataUnknownParameterFound => String::from_str("EPM data: unknown parameter found Information"),
            I550Error::ParameterChangesLost => String::from_str("Parameter changes lost Fault"),
            I550Error::NetworkTimeoutExplicitMessage => String::from_str("Network: timeout explicit message Warning 0x2859:006 (P515.06)"),
            I550Error::NetworkOverallCommunicationTimeout => String::from_str("Network: overall communication timeout Warning See details for 33044"),
            I550Error::TimeOutPAM => String::from_str("Time-out (PAM) No response 0x2552:004 (P595.04)"),
            I550Error::ModbusTcpMasterTimeOut => String::from_str("Modbus TCP master time-out Fault 0x2859:008 (P515.08)"),
            I550Error::ModbusTcpKeepAliveTimeOut => String::from_str("Modbus TCP Keep Alive time-out Fault 0x2859:009 (P515.09)"),
            I550Error::CanBusOff => String::from_str("CAN: bus off Trouble 0x2857:010"),
            I550Error::CanWarning => String::from_str("CAN: warning Warning 0x2857:011"),
            I550Error::CanHeartbeatTimeOutConsumer1 => String::from_str("CAN: heartbeat time-out consumer 1 Fault 0x2857:005"),
            I550Error::CanHeartbeatTimeOutConsumer2 => String::from_str("CAN: heartbeat time-out consumer 2 Fault 0x2857:006"),
            I550Error::CanHeartbeatTimeOutConsumer3 => String::from_str("CAN: heartbeat time-out consumer 3 Fault 0x2857:007"),
            I550Error::CanHeartbeatTimeOutConsumer4 => String::from_str("CAN: heartbeat time-out consumer 4 Fault 0x2857:008"),
            I550Error::NetworkWatchdogTimeout => String::from_str("Network: watchdog timeout Trouble See details for 33168"),
            I550Error::NetworkDisruptionOfCyclicDataExchange => String::from_str("Network: disruption of cyclic data exchange No response 0x2859:002 (P515.02)"),
            I550Error::NetworkInitialisationError => String::from_str("Network: initialization error Trouble See details for 33170"),
            I550Error::NetworkInvalidCyclicProcessData => String::from_str("Network: invalid cyclic process data Trouble See details for 33171"),
            I550Error::ModbusNetworkTimeOut => String::from_str("Modbus: network time-out Fault 0x2858:001 (P515.01)"),
            I550Error::ModbusIncorrectRequestByMaster => String::from_str("Modbus: incorrect request by master Warning"),
            I550Error::NetworkCommunicationFaulty => String::from_str("Network communication faulty Trouble"),
            I550Error::PowerlinkLossOfSoc => String::from_str("POWERLINK: Loss of SoC Trouble 0x2859:011"),
            I550Error::PowerlinkCrcError => String::from_str("POWERLINK: CRC error Trouble 0x2859:010"),
            I550Error::NetworkPdoMappingError => String::from_str("Network: PDO mapping error Trouble See details for 33414"),
            I550Error::CanRpdo1TimeOut => String::from_str("CAN: RPDO1 time-out Fault 0x2857:001"),
            I550Error::CanRpdo2TimeOut => String::from_str("CAN: RPDO2 time-out Fault 0x2857:002"),
            I550Error::CanRpdo3TimeOut => String::from_str("CAN: RPDO3 time-out Fault 0x2857:003"),
            I550Error::TorqueLimitReached => String::from_str("Torque limit reached No response 0x2D67:001 (P329.01)"),
            I550Error::FunctionNotAllowedInSelectedOperatingMode => String::from_str("Function not allowed in selected operating mode Warning"),
            I550Error::KeypadRemoved => String::from_str("Keypad removed Fault"),
            I550Error::BrakeResistorOverloadFault => String::from_str("Brake resistor: overload fault Fault 0x2550:011 (P707.11)"),
            I550Error::SafeTorqueOffIsLocked => String::from_str("Safe Torque Off is locked Fault"),
            I550Error::MotorOverspeed => String::from_str("Motor overspeed Fault 0x2D44:002 (P350.02)"),
            I550Error::MotorPhaseMissing => String::from_str("Motor phase missing No response 0x2D45:001 (P310.01)"),
            I550Error::MotorPhaseFailurePhaseU => String::from_str("Motor phase failure phase U No response 0x2D45:001 (P310.01)"),
            I550Error::MotorPhaseFailurePhaseV => String::from_str("Motor phase failure phase V No response 0x2D45:001 (P310.01)"),
            I550Error::MotorPhaseFailurePhaseW => String::from_str("Motor phase failure phase W No response 0x2D45:001 (P310.01)"),
            I550Error::MotorParameterIdentificationFault => String::from_str("Motor parameter identification fault Fault"),
            I550Error::FmfError => String::from_str("FMF Error Fault"),
            I550Error::BrakeResistorOverloadWarning => String::from_str("Brake resistor: overload warning Warning 0x2550:010 (P707.10)"),
            I550Error::AutomaticStartDisabled => String::from_str("Automatic start disabled Fault"),
            I550Error::LoadLossDetected => String::from_str("Load loss detected No response 0x4006:003 (P710.03)"),
            I550Error::MotorOverload => String::from_str("Motor overload No response 0x4007:003"),
            I550Error::MaximumMotorFrequencyReached => String::from_str("Maximum motor frequency reached Warning"),
            I550Error::ManualModeDeactivated => String::from_str("Manual mode deactivated Warning"),
            I550Error::ManualModeActivated => String::from_str("Manual mode activated Warning"),
            I550Error::ManualModeTimeOut => String::from_str("Manual mode time-out Fault"),
            I550Error::WrongPassword => String::from_str("Wrong password Warning"),
            I550Error::Warning => String::from_str("Warning Warning 0xFF72"),
            I550Error::FatalError => String::from_str("Fatal Error Fault"),
            I550Error::PowerUnitFatalError => String::from_str("Power unit fatal error Fault"),
            I550Error::KeypadFullControlActive => String::from_str("Keypad full control active Warning"),
            I550Error::AutoTuningActive => String::from_str("Auto-tuning active Warning"),
            I550Error::AutoTuningCancelled => String::from_str("Auto-tuning cancelled Fault"),
        }
    }
}

/// Reading the code of an error gives the error back: every error has its own code.
pub proof fn lemma_code_roundtrip(e: I550Error)
    ensures
        I550Error::spec_from_code(e.spec_code()) == Some(e),
{
}

/// A code read as an error is that error's code.
pub proof fn lemma_from_code_inverse(c: u16)
    ensures
        I550Error::spec_from_code(c) matches Some(e) ==> e.spec_code() == c,
{
}

/// A character of `s`, or NUL past its end.
spec fn char_at(s: Seq<char>, i: int) -> char {
    if 0 <= i < s.len() {
        s[i]
    } else {
        '\0'
    }
}

/// A few features of a text that already tell the descriptions apart: its
/// length and the characters at some positions.
spec fn description_key(s: Seq<char>) -> (nat, char, char, char, char, char, char, char, char, char) {
    (s.len(), char_at(s, 10), char_at(s, 9), char_at(s, 33), char_at(s, 26), char_at(s, 0), char_at(s, 13), char_at(s, 14), char_at(s, 19), char_at(s, 20))
}

/// The error whose description has the features `k`.
spec fn error_of_key(k: (nat, char, char, char, char, char, char, char, char, char)) -> Option<I550Error> {
    if k == (4nat, '\0', '\0', '\0', '\0', 'N', '\0', '\0', '\0', '\0') {
        Some(I550Error::NoError)
    } else if k == (45nat, 'n', 'i', 'e', 'n', 'C', 'u', 's', 'r', ' ') {
        Some(I550Error::ContinuousOverCurrent)
    } else if k == (49nat, ' ', 't', '(', 'e', 'C', 'r', 'c', 'e', 'a') {
        Some(I550Error::ShortCircuitInternal)
    } else if k == (42nat, ' ', 't', 'a', ' ', 'C', 'r', 'c', '(', 'd') {
        Some(I550Error::ShortCircuitDeviceInternal)
    } else if k == (61nat, 'o', ' ', ')', 'l', 'C', 'r', 'l', '(', 't') {
        Some(I550Error::I2tOverload)
    } else if k == (36nat, 'F', ' ', '0', ' ', 'I', 'l', 't', 'D', '4') {
        Some(I550Error::ItError)
    } else if k == (19nat, 'g', 'n', '\0', '\0', 'I', 'a', 'r', '\0', '\0') {
        Some(I550Error::ItWarning)
    } else if k == (37nat, 'p', 'm', 'a', 'o', 'I', 'e', 's', 'e', 'd') {
        Some(I550Error::ImaxClampRespondedTooOften)
    } else if k == (37nat, 'l', 'a', 'u', 'i', 'S', 'd', 'e', 'i', 'o') {
        Some(I550Error::StallDetectionActive)
    } else if k == (35nat, 'r', 'u', 'o', 'f', 'M', 'n', 't', 'c', 'h') {
        Some(I550Error::MaximumCurrentReached)
    } else if k == (23nat, 'e', 's', '\0', '\0', 'M', 'a', 'u', 'a', 'u') {
        Some(I550Error::MainsPhaseFault)
    } else if k == (28nat, 'i', 't', '\0', 'n', 'U', ' ', 'a', 'e', ' ') {
        Some(I550Error::UpsOperationActive)
    } else if k == (24nat, 'r', 'e', '\0', '\0', 'D', 'l', 't', 'F', 'a') {
        Some(I550Error::DcBusOvervoltage)
    } else if k == (34nat, 'r', 'e', 'g', ' ', 'D', 'l', 't', 'w', 'a') {
        Some(I550Error::DcBusOvervoltageWarning)
    } else if k == (27nat, 'e', 'd', '\0', 'e', 'D', 'o', 'l', ' ', 'T') {
        Some(I550Error::DcBusUndervoltage)
    } else if k == (35nat, 'e', 'd', 'n', 'g', 'D', 'o', 'l', ' ', 'w') {
        Some(I550Error::DcBusUndervoltageWarning)
    } else if k == (43nat, 't', 'l', 'u', ' ', 'D', 'e', ' ', 'l', 'o') {
        Some(I550Error::DcBusVoltageTooLowForPowerUp)
    } else if k == (31nat, 'm', 'e', '\0', 'F', 'P', 'r', 'a', ' ', 'f') {
        Some(I550Error::PowerUnitOvertemperature)
    } else if k == (40nat, 't', ' ', 't', 'o', 'H', 'p', 'e', 'r', 'e') {
        Some(I550Error::HeatSinkTemperatureSensorFault)
    } else if k == (29nat, 'f', ' ', '\0', 'i', 'H', ' ', 'w', 'n', 'g') {
        Some(I550Error::HeatSinkFanWarning)
    } else if k == (34nat, 'p', 'm', 'g', ' ', 'P', 'a', 't', 'w', 'a') {
        Some(I550Error::PowerUnitOvertemperatureWarning)
    } else if k == (50nat, 'e', 'p', 'D', 'u', 'M', 't', 'u', 'r', 'r') {
        Some(I550Error::MotorTemperatureError)
    } else if k == (28nat, 'y', 'l', '\0', 'n', '2', 'r', 'i', 'l', ' ') {
        Some(I550Error::TwentyFourVSupplyCritical)
    } else if k == (28nat, '4', '2', '\0', 'n', 'O', ' ', 's', 'y', ' ') {
        Some(I550Error::OverloadTwentyFourVSupply)
    } else if k == (31nat, 'r', 'a', '\0', 'F', 'O', 'i', 'n', 'a', 't') {
        Some(I550Error::OemHardwareIncompatible)
    } else if k == (28nat, 'a', 'f', '\0', 'n', 'I', 'w', 'a', 'g', ' ') {
        Some(I550Error::InternalFanWarning)
    } else if k == (47nat, 'n', 'u', 'r', 'd', 'T', 'i', 'o', 'o', 'n') {
        Some(I550Error::TriggerFunctionsConnectedIncorrectly)
    } else if k == (26nat, 'e', 'n', '\0', '\0', 'U', 'f', 'a', '1', ' ') {
        Some(I550Error::UserDefinedFault1)
    } else if k == (26nat, 'e', 'n', '\0', '\0', 'U', 'f', 'a', '2', ' ') {
        Some(I550Error::UserDefinedFault2)
    } else if k == (31nat, 'v', 'n', '\0', 'r', 'W', 't', ' ', 't', 'i') {
        Some(I550Error::WarningInvertRotation)
    } else if k == (39nat, 'l', 'l', ' ', 'x', 'M', 'e', 'd', 'u', 'b') {
        Some(I550Error::MaximumAllowedTroublesExceeded)
    } else if k == (32nat, 'e', 'n', '\0', ' ', 'U', 'f', 'a', '(', 'L') {
        Some(I550Error::UserDefinedFaultLecom)
    } else if k == (27nat, 's', 'u', '\0', 't', 'N', ' ', 'f', ' ', '1') {
        Some(I550Error::NetworkUserFault1)
    } else if k == (27nat, 's', 'u', '\0', 't', 'N', ' ', 'f', ' ', '2') {
        Some(I550Error::NetworkUserFault2)
    } else if k == (44nat, 'N', 'I', 'e', ' ', 'N', 'c', 'o', 'u', 'r') {
        Some(I550Error::NetworkWordIn1ConfigurationIncorrect)
    } else if k == (27nat, 'r', 'e', '\0', 't', 'C', 'r', ' ', 'a', 'g') {
        Some(I550Error::LoadErrorIdTag)
    } else if k == (27nat, 'r', 'e', '\0', 't', 'P', 'r', ' ', 'a', 'g') {
        Some(I550Error::PuLoadErrorIdTag)
    } else if k == (24nat, ' ', 't', '\0', '\0', 'P', 'k', 'n', 'F', 'a') {
        Some(I550Error::PowerUnitUnknown)
    } else if k == (43nat, 'l', ' ', 'i', ' ', 'A', 'e', 'l', 'i', 't') {
        Some(I550Error::AssertionLevelMonitoring)
    } else if k == (47nat, 'u', 'p', ':', ' ', 'A', '1', ' ', 't', ' ') {
        Some(I550Error::AnalogInput1Fault)
    } else if k == (47nat, 'u', 'p', ':', ' ', 'A', '2', ' ', 't', ' ') {
        Some(I550Error::AnalogInput2Fault)
    } else if k == (48nat, 'f', ' ', '1', 'e', 'H', 'l', 't', 'r', 'e') {
        Some(I550Error::HtlInputFault)
    } else if k == (29nat, 'p', 't', '\0', 'i', 'A', ' ', '1', 'l', 't') {
        Some(I550Error::AnalogOutput1Fault)
    } else if k == (29nat, 'p', 't', '\0', 'i', 'A', ' ', '2', 'l', 't') {
        Some(I550Error::AnalogOutput2Fault)
    } else if k == (47nat, 'i', 't', 't', 'o', 'P', ' ', 'i', 'i', 'f') {
        Some(I550Error::PolePositionIdentificationFault)
    } else if k == (44nat, 'c', 'r', '2', '2', 'M', 'r', 'e', 'a', 'u') {
        Some(I550Error::MotorOvercurrent)
    } else if k == (45nat, 'e', 'p', '4', 'n', 'E', 'c', 'i', 't', ' ') {
        Some(I550Error::EncoderOpenCircuit)
    } else if k == (36nat, 'y', 's', 'i', 'i', 'F', 'e', 'm', 'e', 'e') {
        Some(I550Error::FeedbackSystemSpeedLimit)
    } else if k == (29nat, 'u', 'd', '\0', 'i', 'M', ' ', 'i', 'l', 'l') {
        Some(I550Error::MemoryModuleIsFull)
    } else if k == (31nat, 'u', 'd', '\0', 'F', 'M', ' ', 'n', 'r', 'e') {
        Some(I550Error::MemoryModuleNotPresent)
    } else if k == (38nat, 'u', 'd', 'F', 'r', 'M', ':', ' ', 'l', 'i') {
        Some(I550Error::MemoryModuleInvalidUserData)
    } else if k == (50nat, 'o', 'c', 'p', 'b', 'D', 'l', 'e', ' ', 's') {
        Some(I550Error::DataNotComplSavedBeforePowerdown)
    } else if k == (39nat, 'u', 'd', 'a', ' ', 'M', ':', ' ', 'l', 'i') {
        Some(I550Error::MemoryModuleInvalidOemData)
    } else if k == (39nat, 'r', 'a', ' ', 'p', 'E', 'v', 'e', 'n', ' ') {
        Some(I550Error::EpmFirmwareVersionIncompatible)
    } else if k == (42nat, 'f', ' ', 'b', 'c', 'E', 'm', 'w', 't', 'y') {
        Some(I550Error::EpmDataFirmwareTypeIncompatible)
    } else if k == (42nat, 'n', ' ', 't', 'e', 'E', ' ', 'f', 'a', 'r') {
        Some(I550Error::EpmDataNewFirmwareTypeDetected)
    } else if k == (36nat, 'P', ' ', 'u', 'i', 'E', 's', 'i', 'n', 'c') {
        Some(I550Error::EpmDataPusizeIncompatible)
    } else if k == (36nat, 'n', ' ', 'u', 'c', 'E', ' ', 'P', 'z', 'e') {
        Some(I550Error::EpmDataNewPusizeDetected)
    } else if k == (50nat, 'r', 'a', 'i', 'e', 'I', 'e', 't', 'h', 'a') {
        Some(I550Error::InvalidParameterChangeoverConfiguration)
    } else if k == (45nat, 'u', ' ', ' ', 'r', 'E', 'n', 'o', 'a', 'r') {
        Some(I550Error::EpmDataUnknownParameterFound)
    } else if k == (28nat, 'c', ' ', '\0', 'l', 'P', 'n', 'g', 'o', 's') {
        Some(I550Error::ParameterChangesLost)
    } else if k == (62nat, 'i', 't', ' ', 'm', 'N', 'o', 'u', 'p', 'l') {
        Some(I550Error::NetworkTimeoutExplicitMessage)
    } else if k == (68nat, 'v', 'o', 'm', 't', 'N', 'a', 'l', 'm', 'm') {
        Some(I550Error::NetworkOverallCommunicationTimeout)
    } else if k == (47nat, 'P', '(', ':', ' ', 'T', ')', ' ', 'e', 's') {
        Some(I550Error::TimeOutPAM)
    } else if k == (53nat, ' ', 'P', '0', ' ', 'M', 's', 't', 'i', 'm') {
        Some(I550Error::ModbusTcpMasterTimeOut)
    } else if k == (57nat, ' ', 'P', 'u', '-', 'M', 'e', 'p', 'v', 'e') {
        Some(I550Error::ModbusTcpKeepAliveTimeOut)
    } else if k == (31nat, 'f', 'o', '\0', '7', 'C', 'T', 'r', 'e', ' ') {
        Some(I550Error::CanBusOff)
    } else if k == (31nat, 'n', 'i', '\0', '7', 'C', 'W', 'a', 'g', ' ') {
        Some(I550Error::CanWarning)
    } else if k == (51nat, 'b', 't', '1', 'n', 'C', 't', ' ', '-', 'o') {
        Some(I550Error::CanHeartbeatTimeOutConsumer1)
    } else if k == (51nat, 'b', 't', '2', 'n', 'C', 't', ' ', '-', 'o') {
        Some(I550Error::CanHeartbeatTimeOutConsumer2)
    } else if k == (51nat, 'b', 't', '3', 'n', 'C', 't', ' ', '-', 'o') {
        Some(I550Error::CanHeartbeatTimeOutConsumer3)
    } else if k == (51nat, 'b', 't', '4', 'n', 'C', 't', ' ', '-', 'o') {
        Some(I550Error::CanHeartbeatTimeOutConsumer4)
    } else if k == (55nat, 'a', 'w', ' ', 'T', 'N', 'h', 'd', 'i', 'm') {
        Some(I550Error::NetworkWatchdogTimeout)
    } else if k == (76nat, 'i', 'd', 'a', 'l', 'N', 'u', 'p', ' ', 'o') {
        Some(I550Error::NetworkDisruptionOfCyclicDataExchange)
    } else if k == (59nat, 'n', 'i', 'u', 'r', 'N', 'i', 'a', 't', 'i') {
        Some(I550Error::NetworkInitialisationError)
    } else if k == (66nat, 'n', 'i', 'a', 'o', 'N', 'l', 'i', 'c', 'l') {
        Some(I550Error::NetworkInvalidCyclicProcessData)
    } else if k == (51nat, 't', 'e', '2', 'a', 'M', 'r', 'k', 'e', '-') {
        Some(I550Error::ModbusNetworkTimeOut)
    } else if k == (43nat, 'c', 'n', 'e', 'b', 'M', 'r', 'e', 'e', 'q') {
        Some(I550Error::ModbusIncorrectRequestByMaster)
    } else if k == (36nat, 'm', 'o', 'b', 't', 'N', 'n', 'i', 'o', 'n') {
        Some(I550Error::NetworkCommunicationFaulty)
    } else if k == (41nat, ' ', ':', '2', 'u', 'P', 's', 's', 'S', 'o') {
        Some(I550Error::PowerlinkLossOfSoc)
    } else if k == (39nat, ' ', ':', '5', 'l', 'P', 'C', ' ', 'r', ' ') {
        Some(I550Error::PowerlinkCrcError)
    } else if k == (56nat, 'D', 'P', 'e', ' ', 'N', 'm', 'a', 'g', ' ') {
        Some(I550Error::NetworkPdoMappingError)
    } else if k == (36nat, ' ', '1', '0', '0', 'C', 'm', 'e', ' ', 'F') {
        Some(I550Error::CanRpdo1TimeOut)
    } else if k == (36nat, ' ', '2', '0', '0', 'C', 'm', 'e', ' ', 'F') {
        Some(I550Error::CanRpdo2TimeOut)
    } else if k == (36nat, ' ', '3', '0', '0', 'C', 'm', 'e', ' ', 'F') {
        Some(I550Error::CanRpdo3TimeOut)
    } else if k == (53nat, 'i', 'm', '0', 's', 'T', 'r', 'e', 'd', ' ') {
        Some(I550Error::TorqueLimitReached)
    } else if k == (55nat, 'o', 'n', 'o', 'l', 'F', 'a', 'l', 'd', ' ') {
        Some(I550Error::FunctionNotAllowedInSelectedOperatingMode)
    } else if k == (20nat, 'o', 'm', '\0', '\0', 'K', 'd', ' ', 't', '\0') {
        Some(I550Error::KeypadRemoved)
    } else if k == (57nat, 's', 'i', 'u', 'a', 'B', 'r', ':', 'r', 'l') {
        Some(I550Error::BrakeResistorOverloadFault)
    } else if k == (31nat, 'e', 'u', '\0', 'F', 'S', 'f', 'f', 'l', 'o') {
        Some(I550Error::SafeTorqueOffIsLocked)
    } else if k == (42nat, 's', 'r', '(', '4', 'M', 'e', 'd', 'l', 't') {
        Some(I550Error::MotorOverspeed)
    } else if k == (52nat, 'e', 's', 'x', 'p', 'M', 'i', 's', ' ', 'N') {
        Some(I550Error::MotorPhaseMissing)
    } else if k == (60nat, 'e', 's', 's', 'U', 'M', 'a', 'i', ' ', 'p') {
        Some(I550Error::MotorPhaseFailurePhaseU)
    } else if k == (60nat, 'e', 's', 's', 'V', 'M', 'a', 'i', ' ', 'p') {
        Some(I550Error::MotorPhaseFailurePhaseV)
    } else if k == (60nat, 'e', 's', 's', 'W', 'M', 'a', 'i', ' ', 'p') {
        Some(I550Error::MotorPhaseFailurePhaseW)
    } else if k == (42nat, 'm', 'a', 'u', 't', 'M', 'e', 'r', 'n', 't') {
        Some(I550Error::MotorParameterIdentificationFault)
    } else if k == (15nat, 'F', ' ', '\0', '\0', 'F', 'l', 't', '\0', '\0') {
        Some(I550Error::FmfError)
    } else if k == (61nat, 's', 'i', 'W', 'a', 'B', 'r', ':', 'r', 'l') {
        Some(I550Error::BrakeResistorOverloadWarning)
    } else if k == (30nat, 's', ' ', '\0', 'a', 'A', 'r', 't', 'a', 'b') {
        Some(I550Error::AutomaticStartDisabled)
    } else if k == (51nat, 'd', ' ', '4', 'o', 'L', 'e', 'c', 'N', 'o') {
        Some(I550Error::LoadLossDetected)
    } else if k == (37nat, 'l', 'r', ':', ' ', 'M', 'd', ' ', 'e', 's') {
        Some(I550Error::MotorOverload)
    } else if k == (39nat, 't', 'o', 'a', 'a', 'M', ' ', 'f', 'e', 'n') {
        Some(I550Error::MaximumMotorFrequencyReached)
    } else if k == (31nat, 'e', 'd', '\0', 'r', 'M', 'e', 'a', 'a', 't') {
        Some(I550Error::ManualModeDeactivated)
    } else if k == (29nat, 'e', 'd', '\0', 'i', 'M', 'c', 't', 'e', 'd') {
        Some(I550Error::ManualModeActivated)
    } else if k == (26nat, 'e', 'd', '\0', '\0', 'M', 'i', 'm', 't', ' ') {
        Some(I550Error::ManualModeTimeOut)
    } else if k == (22nat, 'w', 's', '\0', '\0', 'W', 'd', ' ', 'i', 'n') {
        Some(I550Error::WrongPassword)
    } else if k == (22nat, 'r', 'a', '\0', '\0', 'W', 'n', 'g', 'F', '7') {
        Some(I550Error::Warning)
    } else if k == (17nat, 'r', 'o', '\0', '\0', 'F', 'a', 'u', '\0', '\0') {
        Some(I550Error::FatalError)
    } else if k == (28nat, ' ', 't', '\0', 'l', 'P', 't', 'a', 'r', 'o') {
        Some(I550Error::PowerUnitFatalError)
    } else if k == (34nat, 'l', 'l', 'g', ' ', 'K', 'o', 'n', ' ', 'a') {
        Some(I550Error::KeypadFullControlActive)
    } else if k == (26nat, 'g', 'n', '\0', '\0', 'A', 'c', 't', 'W', 'a') {
        Some(I550Error::AutoTuningActive)
    } else if k == (27nat, 'g', 'n', '\0', 't', 'A', 'a', 'n', 'e', 'd') {
        Some(I550Error::AutoTuningCancelled)
    } else {
        None
    }
}

/// Each description is told apart by its features and is not empty.
#[verifier::rlimit(50)]
proof fn lemma_description_key(e: I550Error)
    ensures
        error_of_key(description_key(e.spec_description())) == Some(e),
        e.spec_description().len() > 0,
{
    match e {
        I550Error::NoError => {
            reveal_strlit("None");
        },
        I550Error::ContinuousOverCurrent => {
            reveal_strlit("CiA: Continuous over current (internal) Fault");
        },
        I550Error::ShortCircuitInternal => {
            reveal_strlit("CiA: Short circuit/earth leakage (internal) Fault");
        },
        I550Error::ShortCircuitDeviceInternal => {
            reveal_strlit("CiA: Short circuit (device internal) Fault");
        },
        I550Error::I2tOverload => {
            reveal_strlit("CiA: i²*t overload (thermal state) Fault 0x2D4B:003 (P308.03)");
        },
        I550Error::ItError => {
            reveal_strlit("I*t error Fault 0x2D40:005 (P135.05)");
        },
        I550Error::ItWarning => {
            reveal_strlit("I*t warning Warning");
        },
        I550Error::ImaxClampRespondedTooOften => {
            reveal_strlit("Imax: Clamp responded too often Fault");
        },
        I550Error::StallDetectionActive => {
            reveal_strlit("SL-PSM stall detection active Trouble");
        },
        I550Error::MaximumCurrentReached => {
            reveal_strlit("Maximum current reached Information");
        },
        I550Error::MainsPhaseFault => {
            reveal_strlit("Mains phase fault Fault");
        },
        I550Error::UpsOperationActive => {
            reveal_strlit("UPS operation active Warning");
        },
        I550Error::DcBusOvervoltage => {
            reveal_strlit("DC bus overvoltage Fault");
        },
        I550Error::DcBusOvervoltageWarning => {
            reveal_strlit("DC bus overvoltage warning Warning");
        },
        I550Error::DcBusUndervoltage => {
            reveal_strlit("DC bus undervoltage Trouble");
        },
        I550Error::DcBusUndervoltageWarning => {
            reveal_strlit("DC bus undervoltage warning Warning");
        },
        I550Error::DcBusVoltageTooLowForPowerUp => {
            reveal_strlit("DC-bus voltage too low for power up Warning");
        },
        I550Error::PowerUnitOvertemperature => {
            reveal_strlit("PU: overtemperature fault Fault");
        },
        I550Error::HeatSinkTemperatureSensorFault => {
            reveal_strlit("Heat sink temperature sensor fault Fault");
        },
        I550Error::HeatSinkFanWarning => {
            reveal_strlit("Heat sink fan warning Warning");
        },
        I550Error::PowerUnitOvertemperatureWarning => {
            reveal_strlit("PU overtemperature warning Warning");
        },
        I550Error::MotorTemperatureError => {
            reveal_strlit("Motor temperature error Fault 0x2D49:002 (P309.02)");
        },
        I550Error::TwentyFourVSupplyCritical => {
            reveal_strlit("24 V supply critical Warning");
        },
        I550Error::OverloadTwentyFourVSupply => {
            reveal_strlit("Overload 24 V supply Warning");
        },
        I550Error::OemHardwareIncompatible => {
            reveal_strlit("OEM hardware incompatible Fault");
        },
        I550Error::InternalFanWarning => {
            reveal_strlit("Internal fan warning Warning");
        },
        I550Error::TriggerFunctionsConnectedIncorrectly => {
            reveal_strlit("Trigger/functions connected incorrectly Trouble");
        },
        I550Error::UserDefinedFault1 => {
            reveal_strlit("User-defined fault 1 Fault");
        },
        I550Error::UserDefinedFault2 => {
            reveal_strlit("User-defined fault 2 Fault");
        },
        I550Error::WarningInvertRotation => {
            reveal_strlit("Warning invert rotation Warning");
        },
        I550Error::MaximumAllowedTroublesExceeded => {
            reveal_strlit("Maximum allowed troubles exceeded Fault");
        },
        I550Error::UserDefinedFaultLecom => {
            reveal_strlit("User-defined fault (LECOM) Fault");
        },
        I550Error::NetworkUserFault1 => {
            reveal_strlit("Network: user fault 1 Fault");
        },
        I550Error::NetworkUserFault2 => {
            reveal_strlit("Network: user fault 2 Fault");
        },
        I550Error::NetworkWordIn1ConfigurationIncorrect => {
            reveal_strlit("Network: IN1 configuration incorrect Trouble");
        },
        I550Error::LoadErrorIdTag => {
            reveal_strlit("CU: load error ID tag Fault");
        },
        I550Error::PuLoadErrorIdTag => {
            reveal_strlit("PU: load error ID tag Fault");
        },
        I550Error::PowerUnitUnknown => {
            reveal_strlit("Power unit unknown Fault");
        },
        I550Error::AssertionLevelMonitoring => {
            reveal_strlit("Assertion level monitoring (Low/High) Fault");
        },
        I550Error::AnalogInput1Fault => {
            reveal_strlit("Analog input 1 fault Fault 0x2636:010 (P430.10)");
        },
        I550Error::AnalogInput2Fault => {
            reveal_strlit("Analog input 2 fault Fault 0x2637:010 (P431.10)");
        },
        I550Error::HtlInputFault => {
            reveal_strlit("HTL input fault No response 0x2641:006 (P416.06)");
        },
        I550Error::AnalogOutput1Fault => {
            reveal_strlit("Analog output 1 fault Warning");
        },
        I550Error::AnalogOutput2Fault => {
            reveal_strlit("Analog output 2 fault Warning");
        },
        I550Error::PolePositionIdentificationFault => {
            reveal_strlit("Pole position identification fault Fault 0x2C60");
        },
        I550Error::MotorOvercurrent => {
            reveal_strlit("Motor overcurrent Fault 0x2D46:002 (P353.02)");
        },
        I550Error::EncoderOpenCircuit => {
            reveal_strlit("Encoder open circuit Warning 0x2C45 (P342.00)");
        },
        I550Error::FeedbackSystemSpeedLimit => {
            reveal_strlit("Feedback system: speed limit Warning");
        },
        I550Error::MemoryModuleIsFull => {
            reveal_strlit("Memory module is full Warning");
        },
        I550Error::MemoryModuleNotPresent => {
            reveal_strlit("Memory module not present Fault");
        },
        I550Error::MemoryModuleInvalidUserData => {
            reveal_strlit("Memory module: Invalid user data Fault");
        },
        I550Error::DataNotComplSavedBeforePowerdown => {
            reveal_strlit("Data not completely saved before powerdown Warning");
        },
        I550Error::MemoryModuleInvalidOemData => {
            reveal_strlit("Memory module: invalid OEM data Warning");
        },
        I550Error::EpmFirmwareVersionIncompatible => {
            reveal_strlit("EPM firmware version incompatible Fault");
        },
        I550Error::EpmDataFirmwareTypeIncompatible => {
            reveal_strlit("EPM data: firmware type incompatible Fault");
        },
        I550Error::EpmDataNewFirmwareTypeDetected => {
            reveal_strlit("EPM data: new firmware type detected Fault");
        },
        I550Error::EpmDataPusizeIncompatible => {
            reveal_strlit("EPM data: PU size incompatible Fault");
        },
        I550Error::EpmDataNewPusizeDetected => {
            reveal_strlit("EPM data: new PU size detected Fault");
        },
        I550Error::InvalidParameterChangeoverConfiguration => {
            reveal_strlit("Invalid parameter changeover configuration Warning");
        },
        I550Error::EpmDataUnknownParameterFound => {
            reveal_strlit("EPM data: unknown parameter found Information");
        },
        I550Error::ParameterChangesLost => {
            reveal_strlit("Parameter changes lost Fault");
        },
        I550Error::NetworkTimeoutExplicitMessage => {
            reveal_strlit("Network: timeout explicit message Warning 0x2859:006 (P515.06)");
        },
        I550Error::NetworkOverallCommunicationTimeout => {
            reveal_strlit("Network: overall communication timeout Warning See details for 33044");
        },
        I550Error::TimeOutPAM => {
            reveal_strlit("Time-out (PAM) No response 0x2552:004 (P595.04)");
        },
        I550Error::ModbusTcpMasterTimeOut => {
            reveal_strlit("Modbus TCP master time-out Fault 0x2859:008 (P515.08)");
        },
        I550Error::ModbusTcpKeepAliveTimeOut => {
            reveal_strlit("Modbus TCP Keep Alive time-out Fault 0x2859:009 (P515.09)");
        },
        I550Error::CanBusOff => {
            reveal_strlit("CAN: bus off Trouble 0x2857:010");
        },
        I550Error::CanWarning => {
            reveal_strlit("CAN: warning Warning 0x2857:011");
        },
        I550Error::CanHeartbeatTimeOutConsumer1 => {
            reveal_strlit("CAN: heartbeat time-out consumer 1 Fault 0x2857:005");
        },
        I550Error::CanHeartbeatTimeOutConsumer2 => {
            reveal_strlit("CAN: heartbeat time-out consumer 2 Fault 0x2857:006");
        },
        I550Error::CanHeartbeatTimeOutConsumer3 => {
            reveal_strlit("CAN: heartbeat time-out consumer 3 Fault 0x2857:007");
        },
        I550Error::CanHeartbeatTimeOutConsumer4 => {
            reveal_strlit("CAN: heartbeat time-out consumer 4 Fault 0x2857:008");
        },
        I550Error::NetworkWatchdogTimeout => {
            reveal_strlit("Network: watchdog timeout Trouble See details for 33168");
        },
        I550Error::NetworkDisruptionOfCyclicDataExchange => {
            reveal_strlit("Network: disruption of cyclic data exchange No response 0x2859:002 (P515.02)");
        },
        I550Error::NetworkInitialisationError => {
            reveal_strlit("Network: initialization error Trouble See details for 33170");
        },
        I550Error::NetworkInvalidCyclicProcessData => {
            reveal_strlit("Network: invalid cyclic process data Trouble See details for 33171");
        },
        I550Error::ModbusNetworkTimeOut => {
            reveal_strlit("Modbus: network time-out Fault 0x2858:001 (P515.01)");
        },
        I550Error::ModbusIncorrectRequestByMaster => {
            reveal_strlit("Modbus: incorrect request by master Warning");
        },
        I550Error::NetworkCommunicationFaulty => {
            reveal_strlit("Network communication faulty Trouble");
        },
        I550Error::PowerlinkLossOfSoc => {
            reveal_strlit("POWERLINK: Loss of SoC Trouble 0x2859:011");
        },
        I550Error::PowerlinkCrcError => {
            reveal_strlit("POWERLINK: CRC error Trouble 0x2859:010");
        },
        I550Error::NetworkPdoMappingError => {
            reveal_strlit("Network: PDO mapping error Trouble See details for 33414");
        },
        I550Error::CanRpdo1TimeOut => {
            reveal_strlit("CAN: RPDO1 time-out Fault 0x2857:001");
        },
        I550Error::CanRpdo2TimeOut => {
            reveal_strlit("CAN: RPDO2 time-out Fault 0x2857:002");
        },
        I550Error::CanRpdo3TimeOut => {
            reveal_strlit("CAN: RPDO3 time-out Fault 0x2857:003");
        },
        I550Error::TorqueLimitReached => {
            reveal_strlit("Torque limit reached No response 0x2D67:001 (P329.01)");
        },
        I550Error::FunctionNotAllowedInSelectedOperatingMode => {
            reveal_strlit("Function not allowed in selected operating mode Warning");
        },
        I550Error::KeypadRemoved => {
            reveal_strlit("Keypad removed Fault");
        },
        I550Error::BrakeResistorOverloadFault => {
            reveal_strlit("Brake resistor: overload fault Fault 0x2550:011 (P707.11)");
        },
        I550Error::SafeTorqueOffIsLocked => {
            reveal_strlit("Safe Torque Off is locked Fault");
        },
        I550Error::MotorOverspeed => {
            reveal_strlit("Motor overspeed Fault 0x2D44:002 (P350.02)");
        },
        I550Error::MotorPhaseMissing => {
            reveal_strlit("Motor phase missing No response 0x2D45:001 (P310.01)");
        },
        I550Error::MotorPhaseFailurePhaseU => {
            reveal_strlit("Motor phase failure phase U No response 0x2D45:001 (P310.01)");
        },
        I550Error::MotorPhaseFailurePhaseV => {
            reveal_strlit("Motor phase failure phase V No response 0x2D45:001 (P310.01)");
        },
        I550Error::MotorPhaseFailurePhaseW => {
            reveal_strlit("Motor phase failure phase W No response 0x2D45:001 (P310.01)");
        },
        I550Error::MotorParameterIdentificationFault => {
            reveal_strlit("Motor parameter identification fault Fault");
        },
        I550Error::FmfError => {
            reveal_strlit("FMF Error Fault");
        },
        I550Error::BrakeResistorOverloadWarning => {
            reveal_strlit("Brake resistor: overload warning Warning 0x2550:010 (P707.10)");
        },
        I550Error::AutomaticStartDisabled => {
            reveal_strlit("Automatic start disabled Fault");
        },
        I550Error::LoadLossDetected => {
            reveal_strlit("Load loss detected No response 0x4006:003 (P710.03)");
        },
        I550Error::MotorOverload => {
            reveal_strlit("Motor overload No response 0x4007:003");
        },
        I550Error::MaximumMotorFrequencyReached => {
            reveal_strlit("Maximum motor frequency reached Warning");
        },
        I550Error::ManualModeDeactivated => {
            reveal_strlit("Manual mode deactivated Warning");
        },
        I550Error::ManualModeActivated => {
            reveal_strlit("Manual mode activated Warning");
        },
        I550Error::ManualModeTimeOut => {
            reveal_strlit("Manual mode time-out Fault");
        },
        I550Error::WrongPassword => {
            reveal_strlit("Wrong password Warning");
        },
        I550Error::Warning => {
            reveal_strlit("Warning Warning 0xFF72");
        },
        I550Error::FatalError => {
            reveal_strlit("Fatal Error Fault");
        },
        I550Error::PowerUnitFatalError => {
            reveal_strlit("Power unit fatal error Fault");
        },
        I550Error::KeypadFullControlActive => {
            reveal_strlit("Keypad full control active Warning");
        },
        I550Error::AutoTuningActive => {
            reveal_strlit("Auto-tuning active Warning");
        },
        I550Error::AutoTuningCancelled => {
            reveal_strlit("Auto-tuning cancelled Fault");
        },
    }
}

/// Every error has its own description, and none is empty.
pub proof fn lemma_descriptions_distinct(a: I550Error, b: I550Error)
    ensures
        a.spec_description().len() > 0,
        a != b ==> a.spec_description() != b.spec_description(),
{
    lemma_description_key(a);
    lemma_description_key(b);
}

} // verus!
