//! Fan outputs (PWM channels) and fan speed inputs of a fan-controller chip.
//!
//! Reading: the caller reads a channel's attributes and this module says what
//! they mean. Writing: this module says which attributes to write, with what
//! text, in what order; the caller writes them in that order and stops at the
//! first write that fails, leaving the earlier ones in place.
use vstd::prelude::*;
use crate::hwmon::{
    find_hwmon_path_dynamic, names_candidate, located, Attr, ControlError, HwmonEntry,
};
use crate::policy::{duty_for, duty_spec};
use crate::text::{decimal, decimal_text, parse_u8, parse_u8_spec, same_text, trim_text, trimmed};

verus! {

/// Who drives a fan output.
#[derive(PartialEq, Eq, Structural, Clone, Copy, Debug)]
pub enum Mode {
    /// This tool sets the duty (enable attribute `1`).
    Manual,
    /// The chip's firmware sets the duty (enable attribute `2`).
    Auto,
    /// Any other enable value.
    Unknown,
}

impl Mode {
    /// The mode's name, as shown to the user.
    pub fn as_text(&self) -> (r: &'static str)
        ensures
            *self == Mode::Manual ==> r@ == "manual"@,
            *self == Mode::Auto ==> r@ == "auto"@,
            *self == Mode::Unknown ==> r@ == "unknown"@,
    {
        match *self {
            Mode::Manual => "manual",
            Mode::Auto => "auto",
            Mode::Unknown => "unknown",
        }
    }
}

/// The mode that an enable attribute's text stands for.
pub open spec fn mode_spec(enable: Seq<char>) -> Mode {
    if trimmed(enable) == "1"@ {
        Mode::Manual
    } else if trimmed(enable) == "2"@ {
        Mode::Auto
    } else {
        Mode::Unknown
    }
}

/// Reads an enable attribute: `1` is manual, `2` is automatic, anything else
/// is unknown.
pub fn mode_of_enable(enable: &str) -> (r: Mode)
    ensures
        r == mode_spec(enable@),
{
    let t = trim_text(enable);
    if same_text(t, "1") {
        Mode::Manual
    } else if same_text(t, "2") {
        Mode::Auto
    } else {
        Mode::Unknown
    }
}

/// The duty that a duty attribute's text gives, 0 where it is no `u8`.
pub open spec fn duty_value_spec(pwm: Seq<char>) -> u8 {
    match parse_u8_spec(trimmed(pwm)) {
        Some(v) => v,
        None => 0,
    }
}

/// Reads a duty attribute; text that is no `u8` reads as 0.
pub fn duty_value(pwm: &str) -> (r: u8)
    ensures
        r == duty_value_spec(pwm@),
{
    match parse_u8(trim_text(pwm)) {
        Some(v) => v,
        None => 0,
    }
}

/// The full scale of a channel: its maximum attribute where that is present
/// and a `u8`, else 255.
pub open spec fn max_scale_spec(max: Option<Seq<char>>) -> u8 {
    match max {
        Some(t) => match parse_u8_spec(trimmed(t)) {
            Some(v) => v,
            None => 255,
        },
        None => 255,
    }
}

pub open spec fn opt_view(s: Option<String>) -> Option<Seq<char>> {
    match s {
        Some(t) => Some(t@),
        None => None,
    }
}

/// Reads a channel's maximum attribute, `None` where it is absent.
pub fn max_scale(max: &Option<String>) -> (r: u8)
    ensures
        r == max_scale_spec(opt_view(*max)),
{
    match max {
        Some(t) => match parse_u8(trim_text(t.as_str())) {
            Some(v) => v,
            None => 255,
        },
        None => 255,
    }
}

/// `value` as a share of `max`, in tenths of a percent, rounded to the
/// nearest with halves up; `None` where `max` is 0.
pub open spec fn percent_tenths_spec(value: u8, max: u8) -> Option<u32> {
    if max == 0 {
        None
    } else {
        Some(((1000 * value + max / 2) / max as int) as u32)
    }
}

/// `value` as a share of `max`, in tenths of a percent.
pub fn percent_tenths(value: u8, max: u8) -> (r: Option<u32>)
    ensures
        r == percent_tenths_spec(value, max),
        r is Some ==> r->0 * max <= 1000 * value + max / 2 < (r->0 + 1) * max,
{
    if max == 0 {
        None
    } else {
        let v = value as u32;
        let m = max as u32;
        let p = (1000 * v + m / 2) / m;
        proof {
            let a = (1000 * v + m / 2) as int;
            let m = m as int;
            assert(p as int * m <= a < (p as int + 1) * m) by (nonlinear_arith)
                requires
                    p as int == a / m,
                    m > 0,
            {
            }
        }
        Some(p)
    }
}

/// What the caller read of one channel's attributes; each is `None` where its
/// file is absent.
pub struct PwmFiles {
    pub pwm: Option<String>,
    pub enable: Option<String>,
    pub max: Option<String>,
}

/// The state of one fan output.
#[derive(PartialEq, Eq, Structural, Clone, Copy, Debug)]
pub struct PwmStatus {
    pub index: u8,
    pub value: u8,
    pub max: u8,
    /// `value` as a share of `max`, in tenths of a percent.
    pub percent_tenths: Option<u32>,
    pub mode: Mode,
}

/// The state of channel `index`, from what was read of it.
pub open spec fn status_spec(index: u8, f: PwmFiles) -> PwmStatus {
    let value = duty_value_spec(f.pwm->0@);
    let max = max_scale_spec(opt_view(f.max));
    PwmStatus {
        index,
        value,
        max,
        percent_tenths: percent_tenths_spec(value, max),
        mode: mode_spec(f.enable->0@),
    }
}

/// A channel is reported where both its duty and its enable attribute exist.
pub open spec fn channel_present(f: PwmFiles) -> bool {
    f.pwm is Some && f.enable is Some
}

/// The report over channels `1..=files.len()`, `files[k]` being channel
/// `k + 1`, in order, skipping absent channels.
pub open spec fn pwm_report(files: Seq<PwmFiles>) -> Seq<PwmStatus>
    decreases files.len(),
{
    if files.len() == 0 {
        Seq::empty()
    } else {
        let earlier = pwm_report(files.drop_last());
        if channel_present(files.last()) {
            earlier.push(status_spec(files.len() as u8, files.last()))
        } else {
            earlier
        }
    }
}

/// The state of each fan output that is present, `files[k]` being channel
/// `k + 1`.
pub fn list_pwm(files: &Vec<PwmFiles>) -> (r: Vec<PwmStatus>)
    requires
        files@.len() <= 255,
    ensures
        r@ == pwm_report(files@),
{
    let mut r: Vec<PwmStatus> = Vec::new();
    let mut i: usize = 0;
    while i < files.len()
        invariant
            i <= files@.len() <= 255,
            r@ == pwm_report(files@.subrange(0, i as int)),
        decreases files@.len() - i,
    {
        let ghost upto = files@.subrange(0, i + 1);
        assert(upto.drop_last() =~= files@.subrange(0, i as int));
        assert(upto.last() == files@[i as int]);
        let f = &files[i];
        match (&f.pwm, &f.enable) {
            (Some(p), Some(e)) => {
                let value = duty_value(p.as_str());
                let max = max_scale(&f.max);
                let status = PwmStatus {
                    index: (i + 1) as u8,
                    value,
                    max,
                    percent_tenths: percent_tenths(value, max),
                    mode: mode_of_enable(e.as_str()),
                };
                r.push(status);
            },
            _ => {},
        }
        i = i + 1;
    }
    assert(files@.subrange(0, files@.len() as int) =~= files@);
    r
}

/// The reading of one fan speed input.
#[derive(Debug)]
pub struct FanStatus {
    pub index: u8,
    /// The input's text, trimmed, as the chip gives it.
    pub rpm: String,
}

/// The report over fan inputs `1..=inputs.len()`, in order, skipping absent
/// ones: each as its index and trimmed text.
pub open spec fn fan_report(inputs: Seq<Option<String>>) -> Seq<(u8, Seq<char>)>
    decreases inputs.len(),
{
    if inputs.len() == 0 {
        Seq::empty()
    } else {
        let earlier = fan_report(inputs.drop_last());
        match inputs.last() {
            Some(t) => earlier.push((inputs.len() as u8, trimmed(t@))),
            None => earlier,
        }
    }
}

pub open spec fn fans_view(fans: Seq<FanStatus>) -> Seq<(u8, Seq<char>)> {
    fans.map_values(|f: FanStatus| (f.index, f.rpm@))
}

/// The reading of each fan input that is present, `inputs[k]` being input
/// `k + 1`.
pub fn list_fans(inputs: &Vec<Option<String>>) -> (r: Vec<FanStatus>)
    requires
        inputs@.len() <= 255,
    ensures
        fans_view(r@) == fan_report(inputs@),
{
    let mut r: Vec<FanStatus> = Vec::new();
    let mut i: usize = 0;
    while i < inputs.len()
        invariant
            i <= inputs@.len() <= 255,
            fans_view(r@) == fan_report(inputs@.subrange(0, i as int)),
        decreases inputs@.len() - i,
    {
        let ghost upto = inputs@.subrange(0, i + 1);
        assert(upto.drop_last() =~= inputs@.subrange(0, i as int));
        assert(upto.last() == inputs@[i as int]);
        match &inputs[i] {
            Some(t) => {
                let rpm = String::from_str(trim_text(t.as_str()));
                let ghost before = r@;
                r.push(FanStatus { index: (i + 1) as u8, rpm });
                assert(fans_view(r@) =~= fans_view(before).push(((i + 1) as u8, rpm@)));
            },
            None => {},
        }
        i = i + 1;
    }
    assert(inputs@.subrange(0, inputs@.len() as int) =~= inputs@);
    r
}

/// One attribute write: the attribute, and the text to write to it.
pub struct AttrWrite {
    pub attr: Attr,
    pub text: String,
}

pub open spec fn writes_view(w: Seq<AttrWrite>) -> Seq<(Attr, Seq<char>)> {
    w.map_values(|x: AttrWrite| (x.attr, x.text@))
}

/// Writes to carry out, in order, in the device directory at `path`.
pub struct PwmCommand {
    pub path: String,
    pub writes: Vec<AttrWrite>,
}

/// What a command comes to: the writes it makes, or the error it fails with
/// before any write.
pub open spec fn outcome(r: Result<PwmCommand, ControlError>) -> Result<
    Seq<(Attr, Seq<char>)>,
    ControlError,
> {
    match r {
        Ok(c) => Ok(writes_view(c.writes@)),
        Err(e) => Err(e),
    }
}

/// The path that a command's writes go to.
pub open spec fn command_path(r: Result<PwmCommand, ControlError>) -> Result<String, ControlError> {
    match r {
        Ok(c) => Ok(c.path),
        Err(e) => Err(e),
    }
}

/// Some directory names one of the candidate chips.
pub open spec fn any_candidate(entries: Seq<HwmonEntry>, candidates: Seq<String>) -> bool {
    exists|i: int| 0 <= i < entries.len() && names_candidate(#[trigger] entries[i], candidates)
}

/// Setting a duty: the channel to manual first, then the duty.
pub open spec fn set_pwm_writes_spec(pwm_index: u8, value: u8) -> Seq<(Attr, Seq<char>)> {
    seq![(Attr::PwmEnable(pwm_index), "1"@), (Attr::Pwm(pwm_index), decimal(value as nat))]
}

/// What setting channel `pwm_index` to `value` comes to.
pub open spec fn set_pwm_outcome(
    entries: Seq<HwmonEntry>,
    candidates: Seq<String>,
    pwm_index: u8,
    value: u8,
) -> Result<Seq<(Attr, Seq<char>)>, ControlError> {
    if any_candidate(entries, candidates) {
        Ok(set_pwm_writes_spec(pwm_index, value))
    } else {
        Err(ControlError::NotFound)
    }
}

/// The enable text for a requested mode name.
pub open spec fn enable_text_spec(mode: Seq<char>) -> Option<Seq<char>> {
    if mode == "manual"@ {
        Some("1"@)
    } else if mode == "auto"@ {
        Some("2"@)
    } else {
        None
    }
}

/// What setting channel `pwm_index` to the mode named `mode` comes to: the
/// chip must be found, then the mode must be `manual` or `auto`.
pub open spec fn set_mode_outcome(
    entries: Seq<HwmonEntry>,
    candidates: Seq<String>,
    pwm_index: u8,
    mode: Seq<char>,
) -> Result<Seq<(Attr, Seq<char>)>, ControlError> {
    if !any_candidate(entries, candidates) {
        Err(ControlError::NotFound)
    } else {
        match enable_text_spec(mode) {
            Some(t) => Ok(seq![(Attr::PwmEnable(pwm_index), t)]),
            None => Err(ControlError::InvalidInput),
        }
    }
}

fn write_of(attr: Attr, text: &str) -> (r: AttrWrite)
    ensures
        r.attr == attr,
        r.text@ == text@,
{
    AttrWrite { attr, text: String::from_str(text) }
}

/// Finds the fan-controller chip among `entries`, then plans to set channel
/// `pwm_index` to manual and its duty to `value`, in that order.
pub fn set_pwm(entries: &Vec<HwmonEntry>, candidates: &Vec<String>, pwm_index: u8, value: u8) -> (r:
    Result<PwmCommand, ControlError>)
    ensures
        outcome(r) == set_pwm_outcome(entries@, candidates@, pwm_index, value),
        located(entries@, |e: HwmonEntry| names_candidate(e, candidates@), command_path(r)),
{
    let path = find_hwmon_path_dynamic(entries, candidates);
    match path {
        Ok(path) => {
            let mut writes: Vec<AttrWrite> = Vec::new();
            writes.push(write_of(Attr::PwmEnable(pwm_index), "1"));
            writes.push(AttrWrite { attr: Attr::Pwm(pwm_index), text: decimal_text(value) });
            assert(writes_view(writes@) =~= set_pwm_writes_spec(pwm_index, value));
            let r = Ok(PwmCommand { path, writes });
            assert(command_path(r) == Ok::<String, ControlError>(path));
            r
        },
        Err(e) => {
            assert(!any_candidate(entries@, candidates@));
            Err(e)
        },
    }
}

/// Finds the fan-controller chip among `entries`, then plans to set channel
/// `pwm_index` to the mode named `mode`: `manual` or `auto`, anything else
/// being `InvalidInput` with nothing to write.
pub fn set_mode(entries: &Vec<HwmonEntry>, candidates: &Vec<String>, pwm_index: u8, mode: &str) -> (r:
    Result<PwmCommand, ControlError>)
    ensures
        outcome(r) == set_mode_outcome(entries@, candidates@, pwm_index, mode@),
        r is Ok ==> located(
            entries@,
            |e: HwmonEntry| names_candidate(e, candidates@),
            command_path(r),
        ),
{
    let path = find_hwmon_path_dynamic(entries, candidates);
    match path {
        Ok(path) => {
            let text = if same_text(mode, "manual") {
                "1"
            } else if same_text(mode, "auto") {
                "2"
            } else {
                return Err(ControlError::InvalidInput);
            };
            let mut writes: Vec<AttrWrite> = Vec::new();
            writes.push(write_of(Attr::PwmEnable(pwm_index), text));
            assert(writes_view(writes@) =~= seq![(Attr::PwmEnable(pwm_index), text@)]);
            let r = Ok(PwmCommand { path, writes });
            assert(command_path(r) == Ok::<String, ControlError>(path));
            r
        },
        Err(e) => {
            assert(!any_candidate(entries@, candidates@));
            Err(e)
        },
    }
}

/// One turn of the control loop, after the caller read the CPU temperature
/// (`milli`, in milli-degrees Celsius): set channel `pwm_index` to the duty
/// that the policy gives for it.
pub fn control_step(entries: &Vec<HwmonEntry>, candidates: &Vec<String>, pwm_index: u8, milli: i32) -> (r:
    Result<PwmCommand, ControlError>)
    ensures
        outcome(r) == set_pwm_outcome(entries@, candidates@, pwm_index, duty_spec(milli as int)),
        located(entries@, |e: HwmonEntry| names_candidate(e, candidates@), command_path(r)),
{
    set_pwm(entries, candidates, pwm_index, duty_for(milli))
}

/// Where no directory names a candidate chip, setting a duty and setting a
/// mode both fail with `NotFound`, and neither writes anything.
pub proof fn no_chip_no_writes(
    entries: Seq<HwmonEntry>,
    candidates: Seq<String>,
    pwm_index: u8,
    value: u8,
    mode: Seq<char>,
)
    requires
        forall|i: int| 0 <= i < entries.len() ==> !names_candidate(#[trigger] entries[i], candidates),
    ensures
        set_pwm_outcome(entries, candidates, pwm_index, value) == Err::<
            Seq<(Attr, Seq<char>)>,
            ControlError,
        >(ControlError::NotFound),
        set_mode_outcome(entries, candidates, pwm_index, mode) == Err::<
            Seq<(Attr, Seq<char>)>,
            ControlError,
        >(ControlError::NotFound),
{
}

/// Once the chip is found, a mode name other than `manual` and `auto` fails
/// with `InvalidInput` and writes nothing, so the enable attribute keeps its
/// value.
pub proof fn bad_mode_no_writes(
    entries: Seq<HwmonEntry>,
    candidates: Seq<String>,
    pwm_index: u8,
    mode: Seq<char>,
)
    requires
        any_candidate(entries, candidates),
        mode != "manual"@,
        mode != "auto"@,
    ensures
        set_mode_outcome(entries, candidates, pwm_index, mode) == Err::<
            Seq<(Attr, Seq<char>)>,
            ControlError,
        >(ControlError::InvalidInput),
{
}

/// Setting a duty writes the enable attribute to manual before it writes the
/// duty, and writes nothing else.
pub proof fn enable_before_duty(
    entries: Seq<HwmonEntry>,
    candidates: Seq<String>,
    pwm_index: u8,
    value: u8,
)
    requires
        any_candidate(entries, candidates),
    ensures
        set_pwm_outcome(entries, candidates, pwm_index, value) is Ok,
        ({
            let w = set_pwm_outcome(entries, candidates, pwm_index, value)->Ok_0;
            &&& w.len() == 2
            &&& w[0] == (Attr::PwmEnable(pwm_index), "1"@)
            &&& w[1].0 == Attr::Pwm(pwm_index)
        }),
{
}

} // verus!
