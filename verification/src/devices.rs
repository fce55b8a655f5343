//! What the audio host reports about its input devices, and the choice of the
//! device a session captures from.

use vstd::prelude::*;
use crate::error::{AudioError, Failure};
use crate::text::optional_text;

verus! {

/// How a device encodes one sample.
#[derive(Clone, Copy, Debug, PartialEq, Eq, Structural)]
pub enum SampleEncoding {
    /// 32-bit floating point, already normalized.
    F32,
    /// Signed 16-bit integers.
    I16,
    /// Unsigned 16-bit integers.
    U16,
    /// Anything else; no session can capture it.
    Unsupported,
}

/// The input configuration a device prefers.
#[derive(Clone, Copy, Debug, PartialEq, Eq, Structural)]
pub struct InputConfig {
    pub sample_rate: u32,
    pub channels: u16,
    pub encoding: SampleEncoding,
}

/// One input device as the host reported it. `name` is `None` where the device
/// did not give its name; `default_config` holds the host's message where the
/// device has no usable default input configuration.
#[derive(Debug, PartialEq, Eq)]
pub struct InputDevice {
    pub name: Option<String>,
    pub default_config: Result<InputConfig, String>,
}

/// The host's input side: the devices it lists, in its order, or its message
/// where it could not list them, and the device it uses by default.
#[derive(Debug, PartialEq, Eq)]
pub struct HostDevices {
    pub inputs: Result<Vec<InputDevice>, String>,
    pub default_input: Option<InputDevice>,
}

/// Which of the host's devices was chosen.
#[derive(Clone, Copy, Debug, PartialEq, Eq, Structural)]
pub enum DeviceChoice {
    /// The device at this place of the host's list.
    Listed(usize),
    /// The host's default input device.
    Default,
}

/// The device a session will capture from and the format it delivers.
#[derive(Clone, Debug, PartialEq, Eq)]
pub struct CapturePlan {
    pub device: DeviceChoice,
    pub device_name: String,
    pub config: InputConfig,
}

/// A [`CapturePlan`] with the name as a sequence of characters.
pub struct PlanView {
    pub device: DeviceChoice,
    pub device_name: Seq<char>,
    pub config: InputConfig,
}

impl View for CapturePlan {
    type V = PlanView;

    open spec fn view(&self) -> PlanView {
        PlanView { device: self.device, device_name: self.device_name@, config: self.config }
    }
}

impl InputDevice {
    /// The device reported exactly this name.
    pub open spec fn is_named(self, wanted: Seq<char>) -> bool {
        self.name matches Some(n) && n@ == wanted
    }

    /// The name shown for the device.
    pub open spec fn display_name(self) -> Seq<char> {
        match self.name {
            Some(n) => n@,
            None => "Unknown Device"@,
        }
    }

    /// The format a session on this device captures in. The device's default
    /// configuration is taken as it is; one in an encoding that is not handled
    /// is refused.
    pub open spec fn negotiated(self) -> Result<InputConfig, Failure> {
        match self.default_config {
            Err(detail) => Err(Failure::StreamBuildFailure(detail@)),
            Ok(config) => if config.encoding is Unsupported {
                Err(Failure::UnsupportedSampleEncoding)
            } else {
                Ok(config)
            },
        }
    }
}

/// The names of the devices that reported one, in the host's order.
pub open spec fn reported_names(inputs: Seq<InputDevice>) -> Seq<Seq<char>> {
    inputs.filter(|d: InputDevice| d.name is Some).map_values(|d: InputDevice| d.name->0@)
}

/// `i` is the first place in `inputs` whose device is named `wanted`.
pub open spec fn first_named(inputs: Seq<InputDevice>, wanted: Seq<char>, i: int) -> bool {
    &&& 0 <= i < inputs.len()
    &&& inputs[i].is_named(wanted)
    &&& forall|j: int| 0 <= j < i ==> !(#[trigger] inputs[j]).is_named(wanted)
}

/// No device in `inputs` is named `wanted`.
pub open spec fn none_named(inputs: Seq<InputDevice>, wanted: Seq<char>) -> bool {
    forall|j: int| 0 <= j < inputs.len() ==> !(#[trigger] inputs[j]).is_named(wanted)
}

/// The first place in `inputs` whose device is named `wanted`, if there is one.
pub open spec fn position_of(inputs: Seq<InputDevice>, wanted: Seq<char>) -> Option<int> {
    if exists|i: int| first_named(inputs, wanted, i) {
        Some(choose|i: int| first_named(inputs, wanted, i))
    } else {
        None
    }
}

/// `position_of` is `Some(i)` exactly where `i` is the first match, and `None`
/// exactly where nothing matches.
pub proof fn lemma_position_of(inputs: Seq<InputDevice>, wanted: Seq<char>)
    ensures
        forall|i: int| #[trigger]
            first_named(inputs, wanted, i) <==> position_of(inputs, wanted) == Some(i),
        none_named(inputs, wanted) <==> position_of(inputs, wanted) is None,
{
    if !none_named(inputs, wanted) {
        lemma_some_named_has_first(inputs, wanted, inputs.len() as int);
    }
}

/// Where some device among the first `n` carries the name, one of them is the
/// first to do so.
proof fn lemma_some_named_has_first(inputs: Seq<InputDevice>, wanted: Seq<char>, n: int)
    requires
        0 <= n <= inputs.len(),
        exists|j: int| 0 <= j < n && (#[trigger] inputs[j]).is_named(wanted),
    ensures
        exists|i: int| first_named(inputs, wanted, i),
    decreases n,
{
    if exists|j: int| 0 <= j < n - 1 && (#[trigger] inputs[j]).is_named(wanted) {
        lemma_some_named_has_first(inputs, wanted, n - 1);
    } else {
        assert(first_named(inputs, wanted, n - 1));
    }
}

/// The device that a request resolves to. A request by name takes the first
/// listed device of exactly that name; a request without a name takes the
/// host's default device.
pub open spec fn resolved(host: HostDevices, wanted: Option<Seq<char>>) -> Result<
    (DeviceChoice, InputDevice),
    Failure,
> {
    match wanted {
        Some(name) => match host.inputs {
            Err(detail) => Err(Failure::StreamBuildFailure(detail@)),
            Ok(inputs) => match position_of(inputs@, name) {
                Some(i) => Ok((DeviceChoice::Listed(i as usize), inputs@[i])),
                None => Err(Failure::DeviceNotFound(name)),
            },
        },
        None => match host.default_input {
            Some(device) => Ok((DeviceChoice::Default, device)),
            None => Err(Failure::NoDevice),
        },
    }
}

/// The plan that a request leads to: the resolved device, the name shown for
/// it and the format negotiated with it.
pub open spec fn capture_plan(host: HostDevices, wanted: Option<Seq<char>>) -> Result<
    PlanView,
    Failure,
> {
    match resolved(host, wanted) {
        Err(e) => Err(e),
        Ok((device, found)) => match found.negotiated() {
            Err(e) => Err(e),
            Ok(config) => Ok(
                PlanView { device, device_name: found.display_name(), config },
            ),
        },
    }
}

/// A plan or a failure, with texts as sequences of characters.
pub open spec fn plan_outcome(r: Result<CapturePlan, AudioError>) -> Result<PlanView, Failure> {
    match r {
        Ok(plan) => Ok(plan@),
        Err(e) => Err(e@),
    }
}

/// Finds the first device in `inputs` that reported exactly the name `wanted`.
pub fn find_device(inputs: &Vec<InputDevice>, wanted: &String) -> (found: Option<usize>)
    ensures
        match found {
            Some(i) => first_named(inputs@, wanted@, i as int),
            None => none_named(inputs@, wanted@),
        },
        optional_place(found) == position_of(inputs@, wanted@),
{
    let mut i: usize = 0;
    while i < inputs.len()
        invariant
            i <= inputs.len(),
            forall|j: int| 0 <= j < i ==> !(#[trigger] inputs@[j]).is_named(wanted@),
        decreases inputs.len() - i,
    {
        let matches = match &inputs[i].name {
            Some(name) => *name == *wanted,
            None => false,
        };
        if matches {
            proof {
                lemma_position_of(inputs@, wanted@);
            }
            return Some(i);
        }
        i += 1;
    }
    proof {
        lemma_position_of(inputs@, wanted@);
    }
    None
}

/// A place in a list as a mathematical integer.
pub open spec fn optional_place(found: Option<usize>) -> Option<int> {
    match found {
        Some(i) => Some(i as int),
        None => None,
    }
}

/// The name shown for a device: the one it reported, or a fixed text where it
/// reported none.
pub fn display_name(device: &InputDevice) -> (name: String)
    ensures
        name@ == device.display_name(),
{
    match &device.name {
        Some(n) => n.clone(),
        None => String::from_str("Unknown Device"),
    }
}

/// Negotiates the capture format with a device: its default configuration,
/// which the caller cannot override.
pub fn negotiate(device: &InputDevice) -> (r: Result<InputConfig, AudioError>)
    ensures
        match r {
            Ok(config) => device.negotiated() == Ok::<InputConfig, Failure>(config),
            Err(e) => device.negotiated() == Err::<InputConfig, Failure>(e@),
        },
{
    match &device.default_config {
        Err(detail) => Err(AudioError::StreamBuildFailure(detail.clone())),
        Ok(config) => match config.encoding {
            SampleEncoding::Unsupported => Err(AudioError::UnsupportedSampleEncoding),
            _ => Ok(*config),
        },
    }
}

/// Resolves a request to a device and negotiates the capture format with it.
///
/// With a name, the first listed device of exactly that name is taken, and
/// `DeviceNotFound` is returned where there is none; where the host could not
/// list its devices, its message comes back as `StreamBuildFailure`. Without a
/// name, the host's default device is taken, and `NoDevice` is returned where
/// it has none. A device without a default configuration gives
/// `StreamBuildFailure`, one in an encoding that is not handled gives
/// `UnsupportedSampleEncoding`.
pub fn resolve_capture(host: &HostDevices, device_name: &Option<String>) -> (r: Result<
    CapturePlan,
    AudioError,
>)
    ensures
        plan_outcome(r) == capture_plan(*host, optional_text(*device_name)),
{
    let (choice, device) = match device_name {
        Some(name) => match &host.inputs {
            Err(detail) => {
                return Err(AudioError::StreamBuildFailure(detail.clone()));
            },
            Ok(inputs) => match find_device(inputs, name) {
                Some(i) => (DeviceChoice::Listed(i), &inputs[i]),
                None => {
                    return Err(AudioError::DeviceNotFound(name.clone()));
                },
            },
        },
        None => match &host.default_input {
            Some(device) => (DeviceChoice::Default, device),
            None => {
                return Err(AudioError::NoDevice);
            },
        },
    };
    match negotiate(device) {
        Err(e) => Err(e),
        Ok(config) => Ok(
            CapturePlan { device: choice, device_name: display_name(device), config },
        ),
    }
}

} // verus!
