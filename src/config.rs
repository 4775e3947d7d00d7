//! Serial-link settings and the parsing of their textual forms.

use vstd::prelude::*;
use vstd::string::*;

verus! {

/// Read timeout of the link, in milliseconds.
pub const READ_TIMEOUT_MS: u64 = 10;

/// Baud rate used when none is given.
pub const DEFAULT_BAUD_RATE: u32 = 115200;

#[derive(Clone, Copy, Debug, PartialEq, Eq, Structural)]
pub enum DataBits {
    Five,
    Six,
    Seven,
    Eight,
}

#[derive(Clone, Copy, Debug, PartialEq, Eq, Structural)]
pub enum Parity {
    Off,
    Even,
    Odd,
}

#[derive(Clone, Copy, Debug, PartialEq, Eq, Structural)]
pub enum StopBits {
    One,
    Two,
}

#[derive(Clone, Copy, Debug, PartialEq, Eq, Structural)]
pub enum FlowControl {
    Off,
    Hardware,
    Software,
}

/// The setting that a rejected value was given for.
#[derive(Clone, Copy, Debug, PartialEq, Eq, Structural)]
pub enum Setting {
    DataBits,
    Parity,
    StopBits,
    FlowControl,
}

impl Setting {
    /// The text that leads the message for a value rejected for this setting.
    pub open spec fn prefix(self) -> Seq<char> {
        match self {
            Setting::DataBits => "Invalid data bits: "@,
            Setting::Parity => "Invalid parity: "@,
            Setting::StopBits => "Invalid stop bits: "@,
            Setting::FlowControl => "Invalid flow control: "@,
        }
    }

    fn prefix_text(self) -> (r: &'static str)
        ensures
            r@ == self.prefix(),
    {
        match self {
            Setting::DataBits => "Invalid data bits: ",
            Setting::Parity => "Invalid parity: ",
            Setting::StopBits => "Invalid stop bits: ",
            Setting::FlowControl => "Invalid flow control: ",
        }
    }
}

/// A value that is not one of the accepted forms of its setting.
#[derive(Clone, Debug)]
pub struct ConfigError {
    pub setting: Setting,
    pub input: String,
}

impl ConfigError {
    /// The diagnostic shown to the user, e.g. `Invalid data bits: 9`.
    pub fn message(&self) -> (r: String)
        ensures
            r@ == self.setting.prefix() + self.input@,
    {
        let mut m = String::from_str(self.setting.prefix_text());
        m.append(self.input.as_str());
        m
    }
}

/// The name of what `str::to_lowercase` returns for `s`.
pub uninterp spec fn lower_of(s: Seq<char>) -> Seq<char>;

/// Relies on `str::to_lowercase`: the result depends on the characters alone,
/// and the empty string stays empty.
#[verifier::external_body]
fn lowercase(s: &str) -> (r: String)
    ensures
        r@ == lower_of(s@),
        s@.len() == 0 ==> r@.len() == 0,
{
    s.to_lowercase()
}

fn text_is(s: &str, word: &str) -> (r: bool)
    ensures
        r == (s@ == word@),
{
    s.to_owned() == word.to_owned()
}

pub open spec fn data_bits_of(s: Seq<char>) -> Option<DataBits> {
    if s == "5"@ {
        Some(DataBits::Five)
    } else if s == "6"@ {
        Some(DataBits::Six)
    } else if s == "7"@ {
        Some(DataBits::Seven)
    } else if s == "8"@ {
        Some(DataBits::Eight)
    } else {
        None
    }
}

pub open spec fn parity_of(s: Seq<char>) -> Option<Parity> {
    if s == "none"@ {
        Some(Parity::Off)
    } else if s == "even"@ {
        Some(Parity::Even)
    } else if s == "odd"@ {
        Some(Parity::Odd)
    } else {
        None
    }
}

pub open spec fn stop_bits_of(s: Seq<char>) -> Option<StopBits> {
    if s == "1"@ {
        Some(StopBits::One)
    } else if s == "2"@ {
        Some(StopBits::Two)
    } else {
        None
    }
}

pub open spec fn flow_control_of(s: Seq<char>) -> Option<FlowControl> {
    if s == "none"@ {
        Some(FlowControl::Off)
    } else if s == "hardware"@ {
        Some(FlowControl::Hardware)
    } else if s == "software"@ {
        Some(FlowControl::Software)
    } else {
        None
    }
}

/// The outcome of parsing `s` for `setting`, given what the value denotes.
pub open spec fn parsed<T>(denoted: Option<T>, r: Result<T, ConfigError>, setting: Setting, s: Seq<char>) -> bool {
    match r {
        Ok(v) => denoted == Some(v),
        Err(e) => denoted is None && e.setting == setting && e.input@ == s,
    }
}

fn rejected(setting: Setting, s: &str) -> (e: ConfigError)
    ensures
        e.setting == setting,
        e.input@ == s@,
{
    ConfigError { setting, input: s.to_owned() }
}

/// Accepts `5`, `6`, `7` or `8`.
pub fn parse_data_bits(s: &str) -> (r: Result<DataBits, ConfigError>)
    ensures
        parsed(data_bits_of(s@), r, Setting::DataBits, s@),
{
    if text_is(s, "5") {
        Ok(DataBits::Five)
    } else if text_is(s, "6") {
        Ok(DataBits::Six)
    } else if text_is(s, "7") {
        Ok(DataBits::Seven)
    } else if text_is(s, "8") {
        Ok(DataBits::Eight)
    } else {
        Err(rejected(Setting::DataBits, s))
    }
}

/// Reads a parity from text that is already in lower case.
pub fn parity_from_lowercase(t: &str) -> (r: Option<Parity>)
    ensures
        r == parity_of(t@),
{
    if text_is(t, "none") {
        Some(Parity::Off)
    } else if text_is(t, "even") {
        Some(Parity::Even)
    } else if text_is(t, "odd") {
        Some(Parity::Odd)
    } else {
        None
    }
}

/// Accepts `none`, `even` or `odd`, in any case.
pub fn parse_parity(s: &str) -> (r: Result<Parity, ConfigError>)
    ensures
        parsed(parity_of(lower_of(s@)), r, Setting::Parity, s@),
{
    let t = lowercase(s);
    match parity_from_lowercase(t.as_str()) {
        Some(p) => Ok(p),
        None => Err(rejected(Setting::Parity, s)),
    }
}

/// Accepts `1` or `2`.
pub fn parse_stop_bits(s: &str) -> (r: Result<StopBits, ConfigError>)
    ensures
        parsed(stop_bits_of(s@), r, Setting::StopBits, s@),
{
    if text_is(s, "1") {
        Ok(StopBits::One)
    } else if text_is(s, "2") {
        Ok(StopBits::Two)
    } else {
        Err(rejected(Setting::StopBits, s))
    }
}

/// Reads a flow-control mode from text that is already in lower case.
pub fn flow_control_from_lowercase(t: &str) -> (r: Option<FlowControl>)
    ensures
        r == flow_control_of(t@),
{
    if text_is(t, "none") {
        Some(FlowControl::Off)
    } else if text_is(t, "hardware") {
        Some(FlowControl::Hardware)
    } else if text_is(t, "software") {
        Some(FlowControl::Software)
    } else {
        None
    }
}

/// Accepts `none`, `hardware` or `software`, in any case.
pub fn parse_flow_control(s: &str) -> (r: Result<FlowControl, ConfigError>)
    ensures
        parsed(flow_control_of(lower_of(s@)), r, Setting::FlowControl, s@),
{
    let t = lowercase(s);
    match flow_control_from_lowercase(t.as_str()) {
        Some(f) => Ok(f),
        None => Err(rejected(Setting::FlowControl, s)),
    }
}

/// The settings a serial link is opened with; fixed for the link's lifetime.
#[derive(Clone, Debug)]
pub struct SerialConfig {
    pub path: String,
    pub baud_rate: u32,
    pub data_bits: DataBits,
    pub parity: Parity,
    pub stop_bits: StopBits,
    pub flow_control: FlowControl,
    pub timeout_ms: u64,
}

impl SerialConfig {
    /// A link on `path` at `baud_rate` with 8 data bits, no parity, one stop
    /// bit, no flow control and the standard read timeout.
    pub fn new(path: String, baud_rate: u32) -> (r: SerialConfig)
        ensures
            r.path == path,
            r.baud_rate == baud_rate,
            r.data_bits == DataBits::Eight,
            r.parity == Parity::Off,
            r.stop_bits == StopBits::One,
            r.flow_control == FlowControl::Off,
            r.timeout_ms == READ_TIMEOUT_MS,
    {
        SerialConfig {
            path,
            baud_rate,
            data_bits: DataBits::Eight,
            parity: Parity::Off,
            stop_bits: StopBits::One,
            flow_control: FlowControl::Off,
            timeout_ms: READ_TIMEOUT_MS,
        }
    }

    /// Validates the textual settings, in the order data bits, parity, stop
    /// bits, flow control. The first value that is not accepted is reported,
    /// and nothing is opened or changed.
    pub fn from_text(
        path: String,
        baud_rate: u32,
        data_bits: &str,
        parity: &str,
        stop_bits: &str,
        flow_control: &str,
    ) -> (r: Result<SerialConfig, ConfigError>)
        ensures
            r is Ok <==> (data_bits_of(data_bits@) is Some && parity_of(lower_of(parity@)) is Some
                && stop_bits_of(stop_bits@) is Some && flow_control_of(lower_of(flow_control@)) is Some),
            r is Ok ==> (r->Ok_0.path == path && r->Ok_0.baud_rate == baud_rate
                && Some(r->Ok_0.data_bits) == data_bits_of(data_bits@)
                && Some(r->Ok_0.parity) == parity_of(lower_of(parity@))
                && Some(r->Ok_0.stop_bits) == stop_bits_of(stop_bits@)
                && Some(r->Ok_0.flow_control) == flow_control_of(lower_of(flow_control@))
                && r->Ok_0.timeout_ms == READ_TIMEOUT_MS),
            r is Err ==> first_rejected(
                r->Err_0,
                data_bits@,
                parity@,
                stop_bits@,
                flow_control@,
            ),
    {
        let d = match parse_data_bits(data_bits) {
            Ok(d) => d,
            Err(e) => return Err(e),
        };
        let p = match parse_parity(parity) {
            Ok(p) => p,
            Err(e) => return Err(e),
        };
        let s = match parse_stop_bits(stop_bits) {
            Ok(s) => s,
            Err(e) => return Err(e),
        };
        let f = match parse_flow_control(flow_control) {
            Ok(f) => f,
            Err(e) => return Err(e),
        };
        Ok(
            SerialConfig {
                path,
                baud_rate,
                data_bits: d,
                parity: p,
                stop_bits: s,
                flow_control: f,
                timeout_ms: READ_TIMEOUT_MS,
            },
        )
    }
}

/// `e` names the first of the four values that is not accepted, and holds it.
pub open spec fn first_rejected(
    e: ConfigError,
    data_bits: Seq<char>,
    parity: Seq<char>,
    stop_bits: Seq<char>,
    flow_control: Seq<char>,
) -> bool {
    if data_bits_of(data_bits) is None {
        e.setting == Setting::DataBits && e.input@ == data_bits
    } else if parity_of(lower_of(parity)) is None {
        e.setting == Setting::Parity && e.input@ == parity
    } else if stop_bits_of(stop_bits) is None {
        e.setting == Setting::StopBits && e.input@ == stop_bits
    } else {
        flow_control_of(lower_of(flow_control)) is None && e.setting == Setting::FlowControl
            && e.input@ == flow_control
    }
}

} // verus!
