use vstd::prelude::*;
use vstd::string::StringExecFns;
use crate::response::{envelope, lemma_envelope_round_trip, parse_response, response_value, AcpiError};

verus! {

/// State of a two-way battery setting (conservation mode, rapid charge).
#[derive(Clone, Copy, Debug, PartialEq, Eq, Structural)]
pub enum Setting {
    On,
    Off,
}

/// The firmware's thermal and performance profile; exactly one is active.
#[derive(Clone, Copy, Debug, PartialEq, Eq, Structural)]
pub enum PerformanceMode {
    IntelligentCooling,
    ExtremePerformance,
    BatterySaving,
}

/// Which of the three settings a command addresses.
#[derive(Clone, Copy, Debug, PartialEq, Eq, Structural)]
pub enum SettingKind {
    Conservation,
    RapidCharge,
    Performance,
}

pub open spec fn setting_label(v: Setting) -> Seq<char> {
    match v {
        Setting::On => "on"@,
        Setting::Off => "off"@,
    }
}

pub open spec fn mode_label(m: PerformanceMode) -> Seq<char> {
    match m {
        PerformanceMode::IntelligentCooling => "Intelligent Cooling"@,
        PerformanceMode::ExtremePerformance => "Extreme Performance"@,
        PerformanceMode::BatterySaving => "Battery Saving"@,
    }
}

impl Setting {
    /// The word an operator reads for this state.
    pub fn label(&self) -> (r: &'static str)
        ensures
            r@ == setting_label(*self),
    {
        match self {
            Setting::On => "on",
            Setting::Off => "off",
        }
    }
}

impl PerformanceMode {
    /// The name an operator reads for this profile.
    pub fn label(&self) -> (r: &'static str)
        ensures
            r@ == mode_label(*self),
    {
        match self {
            PerformanceMode::IntelligentCooling => "Intelligent Cooling",
            PerformanceMode::ExtremePerformance => "Extreme Performance",
            PerformanceMode::BatterySaving => "Battery Saving",
        }
    }
}

// ---------------------------------------------------------------------------
// The firmware's method vocabulary
// ---------------------------------------------------------------------------

/// The method that switches the battery settings.
pub open spec fn battery_method() -> Seq<char> {
    "\\_SB.PCI0.LPC0.EC0.VPC0.SBMC"@
}

/// The method that selects the performance profile.
pub open spec fn profile_method() -> Seq<char> {
    "\\_SB.PCI0.LPC0.EC0.VPC0.DYTC"@
}

/// The method that reports a setting's current value.
pub open spec fn query_method(kind: SettingKind) -> Seq<char> {
    match kind {
        SettingKind::Conservation => "\\_SB.PCI0.LPC0.EC0.BTSM"@,
        SettingKind::RapidCharge => "\\_SB.PCI0.LPC0.EC0.QCHO"@,
        SettingKind::Performance => "\\_SB.PCI0.LPC0.EC0.SPMO"@,
    }
}

pub open spec fn conservation_operand(v: Setting) -> Seq<char> {
    match v {
        Setting::On => "0x03"@,
        Setting::Off => "0x05"@,
    }
}

pub open spec fn rapid_operand(v: Setting) -> Seq<char> {
    match v {
        Setting::On => "0x07"@,
        Setting::Off => "0x08"@,
    }
}

pub open spec fn performance_operand(m: PerformanceMode) -> Seq<char> {
    match m {
        PerformanceMode::IntelligentCooling => "0x000FB001"@,
        PerformanceMode::ExtremePerformance => "0x0012B001"@,
        PerformanceMode::BatterySaving => "0x0013B001"@,
    }
}

/// A write command: the method, one space, the operand.
pub open spec fn write_command(method: Seq<char>, operand: Seq<char>) -> Seq<char> {
    method + " "@ + operand
}

/// What the firmware reports for a two-way setting in each state.
pub open spec fn toggle_code(v: Setting) -> u8 {
    match v {
        Setting::Off => 0,
        Setting::On => 1,
    }
}

/// What the firmware reports for each performance profile.
pub open spec fn mode_code(m: PerformanceMode) -> u8 {
    match m {
        PerformanceMode::IntelligentCooling => 0,
        PerformanceMode::ExtremePerformance => 1,
        PerformanceMode::BatterySaving => 2,
    }
}

pub open spec fn toggle_of_code(n: u8) -> Result<Setting, AcpiError> {
    if n == 0 {
        Ok(Setting::Off)
    } else if n == 1 {
        Ok(Setting::On)
    } else {
        Err(AcpiError::UnexpectedValue)
    }
}

pub open spec fn mode_of_code(n: u8) -> Result<PerformanceMode, AcpiError> {
    if n == 0 {
        Ok(PerformanceMode::IntelligentCooling)
    } else if n == 1 {
        Ok(PerformanceMode::ExtremePerformance)
    } else if n == 2 {
        Ok(PerformanceMode::BatterySaving)
    } else {
        Err(AcpiError::UnexpectedValue)
    }
}

/// A two-way setting as an answer of the firmware reports it.
pub open spec fn decode_toggle(s: Seq<char>) -> Result<Setting, AcpiError> {
    match response_value(s) {
        Ok(n) => toggle_of_code(n),
        Err(e) => Err(e),
    }
}

/// The performance profile as an answer of the firmware reports it.
pub open spec fn decode_mode(s: Seq<char>) -> Result<PerformanceMode, AcpiError> {
    match response_value(s) {
        Ok(n) => mode_of_code(n),
        Err(e) => Err(e),
    }
}

// ---------------------------------------------------------------------------
// Commands
// ---------------------------------------------------------------------------

fn command(method: &str, operand: &str) -> (r: String)
    ensures
        r@ == write_command(method@, operand@),
{
    let mut r = String::from_str(method);
    r.append(" ");
    r.append(operand);
    r
}

/// The command that switches conservation mode on or off.
pub fn set_conservation(setting: Setting) -> (r: String)
    ensures
        r@ == write_command(battery_method(), conservation_operand(setting)),
{
    let operand = match setting {
        Setting::On => "0x03",
        Setting::Off => "0x05",
    };
    command("\\_SB.PCI0.LPC0.EC0.VPC0.SBMC", operand)
}

/// The command that switches rapid charge on or off.
pub fn set_rapid(setting: Setting) -> (r: String)
    ensures
        r@ == write_command(battery_method(), rapid_operand(setting)),
{
    let operand = match setting {
        Setting::On => "0x07",
        Setting::Off => "0x08",
    };
    command("\\_SB.PCI0.LPC0.EC0.VPC0.SBMC", operand)
}

/// The command that selects a performance profile.
pub fn set_performance(setting: PerformanceMode) -> (r: String)
    ensures
        r@ == write_command(profile_method(), performance_operand(setting)),
{
    let operand = match setting {
        PerformanceMode::IntelligentCooling => "0x000FB001",
        PerformanceMode::ExtremePerformance => "0x0012B001",
        PerformanceMode::BatterySaving => "0x0013B001",
    };
    command("\\_SB.PCI0.LPC0.EC0.VPC0.DYTC", operand)
}

/// The command that asks the firmware for a setting's current value.
pub fn query_command(kind: SettingKind) -> (r: String)
    ensures
        r@ == query_method(kind),
{
    let method = match kind {
        SettingKind::Conservation => "\\_SB.PCI0.LPC0.EC0.BTSM",
        SettingKind::RapidCharge => "\\_SB.PCI0.LPC0.EC0.QCHO",
        SettingKind::Performance => "\\_SB.PCI0.LPC0.EC0.SPMO",
    };
    String::from_str(method)
}

// ---------------------------------------------------------------------------
// Answers
// ---------------------------------------------------------------------------

fn toggle_from_code(n: u8) -> (r: Result<Setting, AcpiError>)
    ensures
        r == toggle_of_code(n),
{
    match n {
        0 => Ok(Setting::Off),
        1 => Ok(Setting::On),
        _ => Err(AcpiError::UnexpectedValue),
    }
}

fn decode_toggle_response(response: &str) -> (r: Result<Setting, AcpiError>)
    ensures
        r == decode_toggle(response@),
{
    match parse_response(response) {
        Ok(n) => toggle_from_code(n),
        Err(e) => Err(e),
    }
}

/// Conservation mode as the answer to its query reports it.
pub fn get_conservation(response: &str) -> (r: Result<Setting, AcpiError>)
    ensures
        r == decode_toggle(response@),
{
    decode_toggle_response(response)
}

/// Rapid charge as the answer to its query reports it.
pub fn get_rapid(response: &str) -> (r: Result<Setting, AcpiError>)
    ensures
        r == decode_toggle(response@),
{
    decode_toggle_response(response)
}

/// The performance profile as the answer to its query reports it.
pub fn get_performance(response: &str) -> (r: Result<PerformanceMode, AcpiError>)
    ensures
        r == decode_mode(response@),
{
    match parse_response(response) {
        Ok(0) => Ok(PerformanceMode::IntelligentCooling),
        Ok(1) => Ok(PerformanceMode::ExtremePerformance),
        Ok(2) => Ok(PerformanceMode::BatterySaving),
        Ok(_) => Err(AcpiError::UnexpectedValue),
        Err(e) => Err(e),
    }
}

// ---------------------------------------------------------------------------
// Laws
// ---------------------------------------------------------------------------

/// A two-way setting survives the trip through the firmware's answer: the
/// answer that reports `v` decodes to `v`, for conservation mode and rapid
/// charge alike.
pub proof fn lemma_toggle_round_trip(v: Setting)
    ensures
        decode_toggle(envelope(toggle_code(v) as nat)) == Ok::<Setting, AcpiError>(v),
{
    lemma_envelope_round_trip(toggle_code(v));
}

/// A performance profile survives the trip through the firmware's answer.
pub proof fn lemma_mode_round_trip(m: PerformanceMode)
    ensures
        decode_mode(envelope(mode_code(m) as nat)) == Ok::<PerformanceMode, AcpiError>(m),
{
    lemma_envelope_round_trip(mode_code(m));
}

} // verus!
