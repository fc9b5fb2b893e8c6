//! The hardware-monitoring tree: its attributes, and finding a device in it.
//!
//! A device's directory is found by the identifier in its `name` attribute,
//! since the numbers that the kernel gives the directories change between
//! boots. The caller lists the directories in the order the file system gives
//! them and reads each `name`; the first one that matches wins.
use vstd::prelude::*;
use crate::text::{decimal, decimal_text, parse_i32, parse_i32_spec, same_text, trim_text, trimmed};

verus! {

/// Why an operation on the tree failed.
#[derive(PartialEq, Eq, Structural, Clone, Copy, Debug)]
pub enum ControlError {
    /// No device has the identifier sought.
    NotFound,
    /// An attribute does not hold the number it should.
    InvalidData,
    /// A mode other than `manual` or `auto` was asked for.
    InvalidInput,
    /// Reading or writing an attribute failed.
    Io,
}

/// One directory of the tree: where it is, and the identifier its `name`
/// attribute holds, if that could be read.
pub struct HwmonEntry {
    pub path: String,
    pub name: Option<String>,
}

/// An attribute of a device, by kind and 1-based index.
#[derive(PartialEq, Eq, Structural, Clone, Copy, Debug)]
pub enum Attr {
    Name,
    TempInput(u8),
    FanInput(u8),
    Pwm(u8),
    PwmEnable(u8),
    PwmMax(u8),
}

/// The file name of an attribute inside a device's directory.
pub open spec fn attr_file(a: Attr) -> Seq<char> {
    match a {
        Attr::Name => "name"@,
        Attr::TempInput(n) => "temp"@ + decimal(n as nat) + "_input"@,
        Attr::FanInput(n) => "fan"@ + decimal(n as nat) + "_input"@,
        Attr::Pwm(n) => "pwm"@ + decimal(n as nat),
        Attr::PwmEnable(n) => "pwm"@ + decimal(n as nat) + "_enable"@,
        Attr::PwmMax(n) => "pwm"@ + decimal(n as nat) + "_max"@,
    }
}

fn indexed_name(prefix: &str, n: u8, suffix: &str) -> (r: String)
    ensures
        r@ == prefix@ + decimal(n as nat) + suffix@,
{
    let mut r = String::from_str(prefix);
    let digits = decimal_text(n);
    r.append(digits.as_str());
    r.append(suffix);
    r
}

impl Attr {
    /// The file name of this attribute inside a device's directory.
    pub fn file_name(&self) -> (r: String)
        ensures
            r@ == attr_file(*self),
    {
        match *self {
            Attr::Name => String::from_str("name"),
            Attr::TempInput(n) => indexed_name("temp", n, "_input"),
            Attr::FanInput(n) => indexed_name("fan", n, "_input"),
            Attr::Pwm(n) => {
                proof {
                    reveal_strlit("");
                }
                let r = indexed_name("pwm", n, "");
                assert(r@ =~= "pwm"@ + decimal(n as nat));
                r
            },
            Attr::PwmEnable(n) => indexed_name("pwm", n, "_enable"),
            Attr::PwmMax(n) => indexed_name("pwm", n, "_max"),
        }
    }
}

/// The identifier of the device that reports the CPU temperature.
pub const CPU_SENSOR: &'static str = "k10temp";

/// The kernel module that drives the fan controllers.
pub const FAN_MODULE: &'static str = "nct6775";

/// The identifiers of the fan-controller chips that share one register
/// layout, in order of preference.
pub fn sensor_candidates() -> (r: Vec<String>)
    ensures
        r@.len() == 4,
        r@[0]@ == "nct6799"@,
        r@[1]@ == "nct6775"@,
        r@[2]@ == "nct7802"@,
        r@[3]@ == "as99127f"@,
{
    let mut r: Vec<String> = Vec::new();
    r.push(String::from_str("nct6799"));
    r.push(String::from_str("nct6775"));
    r.push(String::from_str("nct7802"));
    r.push(String::from_str("as99127f"));
    r
}

/// Whether the list of loaded kernel modules holds the fan-controller module.
pub fn check_module_loaded(modules: &Vec<String>) -> (r: bool)
    ensures
        r == exists|i: int| 0 <= i < modules@.len() && #[trigger] modules@[i]@ == FAN_MODULE@,
{
    let mut i: usize = 0;
    while i < modules.len()
        invariant
            i <= modules@.len(),
            forall|k: int| 0 <= k < i ==> #[trigger] modules@[k]@ != FAN_MODULE@,
        decreases modules@.len() - i,
    {
        if same_text(modules[i].as_str(), FAN_MODULE) {
            return true;
        }
        i = i + 1;
    }
    false
}

/// Whether an entry's identifier, trimmed, is `target`.
pub open spec fn names_sensor(e: HwmonEntry, target: Seq<char>) -> bool {
    match e.name {
        Some(n) => trimmed(n@) == target,
        None => false,
    }
}

/// Whether an entry's identifier, trimmed, is one of `candidates`.
pub open spec fn names_candidate(e: HwmonEntry, candidates: Seq<String>) -> bool {
    match e.name {
        Some(n) => exists|j: int| 0 <= j < candidates.len() && #[trigger] candidates[j]@ == trimmed(n@),
        None => false,
    }
}

/// `i` is the first entry that `p` holds of.
pub open spec fn first_where(entries: Seq<HwmonEntry>, p: spec_fn(HwmonEntry) -> bool, i: int) -> bool {
    &&& 0 <= i < entries.len()
    &&& p(entries[i])
    &&& forall|j: int| 0 <= j < i ==> !p(#[trigger] entries[j])
}

/// What discovery gives: the path of the first entry that `p` holds of, or
/// `NotFound` where it holds of none.
pub open spec fn located(
    entries: Seq<HwmonEntry>,
    p: spec_fn(HwmonEntry) -> bool,
    r: Result<String, ControlError>,
) -> bool {
    match r {
        Ok(path) => exists|i: int| first_where(entries, p, i) && path@ == #[trigger] entries[i].path@,
        Err(e) => e == ControlError::NotFound && forall|i: int|
            0 <= i < entries.len() ==> !p(#[trigger] entries[i]),
    }
}

fn entry_names_sensor(e: &HwmonEntry, target: &str) -> (r: bool)
    ensures
        r == names_sensor(*e, target@),
{
    match &e.name {
        Some(n) => same_text(trim_text(n.as_str()), target),
        None => false,
    }
}

fn entry_names_candidate(e: &HwmonEntry, candidates: &Vec<String>) -> (r: bool)
    ensures
        r == names_candidate(*e, candidates@),
{
    match &e.name {
        Some(n) => {
            let t = trim_text(n.as_str());
            let mut j: usize = 0;
            while j < candidates.len()
                invariant
                    j <= candidates@.len(),
                    t@ == trimmed(n@),
                    e.name == Some(*n),
                    forall|k: int| 0 <= k < j ==> #[trigger] candidates@[k]@ != t@,
                decreases candidates@.len() - j,
            {
                if same_text(candidates[j].as_str(), t) {
                    assert(candidates@[j as int]@ == trimmed(n@));
                    return true;
                }
                j = j + 1;
            }
            false
        },
        None => false,
    }
}

/// Finds the device whose identifier is `sensor_name`.
pub fn find_hwmon_path(entries: &Vec<HwmonEntry>, sensor_name: &str) -> (r: Result<
    String,
    ControlError,
>)
    ensures
        located(entries@, |e: HwmonEntry| names_sensor(e, sensor_name@), r),
{
    let ghost p = |e: HwmonEntry| names_sensor(e, sensor_name@);
    let mut i: usize = 0;
    while i < entries.len()
        invariant
            i <= entries@.len(),
            p == (|e: HwmonEntry| names_sensor(e, sensor_name@)),
            forall|k: int| 0 <= k < i ==> !p(#[trigger] entries@[k]),
        decreases entries@.len() - i,
    {
        if entry_names_sensor(&entries[i], sensor_name) {
            let path = entries[i].path.clone();
            assert(first_where(entries@, p, i as int));
            assert(path@ == entries@[i as int].path@);
            return Ok(path);
        }
        i = i + 1;
    }
    Err(ControlError::NotFound)
}

/// Finds the first device whose identifier is one of `candidates`.
pub fn find_hwmon_path_dynamic(entries: &Vec<HwmonEntry>, candidates: &Vec<String>) -> (r: Result<
    String,
    ControlError,
>)
    ensures
        located(entries@, |e: HwmonEntry| names_candidate(e, candidates@), r),
{
    let ghost p = |e: HwmonEntry| names_candidate(e, candidates@);
    let mut i: usize = 0;
    while i < entries.len()
        invariant
            i <= entries@.len(),
            p == (|e: HwmonEntry| names_candidate(e, candidates@)),
            forall|k: int| 0 <= k < i ==> !p(#[trigger] entries@[k]),
        decreases entries@.len() - i,
    {
        if entry_names_candidate(&entries[i], candidates) {
            let path = entries[i].path.clone();
            assert(first_where(entries@, p, i as int));
            assert(path@ == entries@[i as int].path@);
            return Ok(path);
        }
        i = i + 1;
    }
    Err(ControlError::NotFound)
}

/// The reading of a temperature attribute, in milli-degrees Celsius: its
/// text, trimmed, as a decimal `i32`, or `InvalidData`.
pub fn parse_temperature(raw: &str) -> (r: Result<i32, ControlError>)
    ensures
        match parse_i32_spec(trimmed(raw@)) {
            Some(v) => r == Ok::<i32, ControlError>(v),
            None => r == Err::<i32, ControlError>(ControlError::InvalidData),
        },
{
    match parse_i32(trim_text(raw)) {
        Some(v) => Ok(v),
        None => Err(ControlError::InvalidData),
    }
}

} // verus!
