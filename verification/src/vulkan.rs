//! Vulkan bootstrap: the version to request, the instance and device
//! requests, the choice of physical device and queue family, the handle
//! exchange with the drawing library, and the teardown order.
//!
//! Nothing here talks to a driver. The host loads the entry point, creates
//! the instance and the device, and enumerates what the platform offers; it
//! hands those outcomes in and performs what the functions here decide.

use vstd::prelude::*;
use vstd::string::StringSliceAdditionalSpecFns;
use crate::error::BootstrapError;

verus! {

/// The packed form of a Vulkan API version: three variant bits, seven major
/// bits, ten minor bits and twelve patch bits, from the top down.
pub open spec fn pack_version(variant: u32, major: u32, minor: u32, patch: u32) -> u32 {
    (variant << 29) | (major << 22) | (minor << 12) | patch
}

/// The major component of a packed version.
pub open spec fn version_major(version: u32) -> u32 {
    (version >> 22) & 0x7f
}

/// The minor component of a packed version.
pub open spec fn version_minor(version: u32) -> u32 {
    (version >> 12) & 0x3ff
}

/// The patch component of a packed version.
pub open spec fn version_patch(version: u32) -> u32 {
    version & 0xfff
}

/// The components of a detected version, as the bootstrap reports them.
pub open spec fn version_triple(version: u32) -> (usize, usize, usize) {
    (
        version_major(version) as usize,
        version_minor(version) as usize,
        version_patch(version) as usize,
    )
}

/// Version 1.1.0, packed: the version requested when the loader cannot
/// report its own.
pub const MINIMUM_VERSION: u32 = 0x0040_1000;

/// The version that an instance is asked for: the detected version without
/// its variant bits, or 1.1.0 where none was detected.
pub open spec fn requested_version(detected: Option<u32>) -> u32 {
    match detected {
        Some(v) => v & 0x1fff_ffff,
        None => MINIMUM_VERSION,
    }
}

/// `ash::vk::make_api_version` packs its four arguments by shifting each to
/// its field and or-ing the fields together; bits shifted past the top are
/// lost.
pub assume_specification[ ash::vk::make_api_version ](
    variant: u32,
    major: u32,
    minor: u32,
    patch: u32,
) -> (version: u32)
    ensures
        version == pack_version(variant, major, minor, patch),
;

/// `ash::vk::api_version_major` reads the seven major bits.
pub assume_specification[ ash::vk::api_version_major ](version: u32) -> (major: u32)
    ensures
        major == version_major(version),
;

/// `ash::vk::api_version_minor` reads the ten minor bits.
pub assume_specification[ ash::vk::api_version_minor ](version: u32) -> (minor: u32)
    ensures
        minor == version_minor(version),
;

/// `ash::vk::api_version_patch` reads the twelve patch bits.
pub assume_specification[ ash::vk::api_version_patch ](version: u32) -> (patch: u32)
    ensures
        patch == version_patch(version),
;

/// The bit of a queue family's flag word that advertises graphics support.
pub const GRAPHICS_BIT: u32 = 0b1;

/// The instance flag that lets portability implementations be enumerated.
pub const ENUMERATE_PORTABILITY_BIT: u32 = 0b1;

/// Whether a queue family with these flags can draw.
pub open spec fn is_graphics(flags: u32) -> bool {
    flags & GRAPHICS_BIT == GRAPHICS_BIT
}

/// Tests a raw flag word with `ash::vk::QueueFlags::contains` against
/// `ash::vk::QueueFlags::GRAPHICS`: true exactly when the graphics bit, the
/// lowest one, is set.
#[verifier::external_body]
fn supports_graphics(flags: u32) -> (capable: bool)
    ensures
        capable == is_graphics(flags),
{
    ash::vk::QueueFlags::from_raw(flags).contains(ash::vk::QueueFlags::GRAPHICS)
}

/// The raw value of `ash::vk::InstanceCreateFlags::ENUMERATE_PORTABILITY_KHR`,
/// which is the lowest bit.
#[verifier::external_body]
fn enumerate_portability_flag() -> (flags: u32)
    ensures
        flags == ENUMERATE_PORTABILITY_BIT,
{
    ash::vk::InstanceCreateFlags::ENUMERATE_PORTABILITY_KHR.as_raw()
}

/// The text of `ash::vk::KHR_GET_PHYSICAL_DEVICE_PROPERTIES2_NAME`, without
/// its terminator.
#[verifier::external_body]
fn physical_device_properties2_name() -> (name: String)
    ensures
        name@ == "VK_KHR_get_physical_device_properties2"@,
{
    ash::vk::KHR_GET_PHYSICAL_DEVICE_PROPERTIES2_NAME.to_string_lossy().into_owned()
}

/// The text of `ash::vk::KHR_PORTABILITY_ENUMERATION_NAME`, without its
/// terminator.
#[verifier::external_body]
fn portability_enumeration_name() -> (name: String)
    ensures
        name@ == "VK_KHR_portability_enumeration"@,
{
    ash::vk::KHR_PORTABILITY_ENUMERATION_NAME.to_string_lossy().into_owned()
}

/// What the instance is created with.
#[derive(Clone, Debug)]
pub struct InstanceRequest {
    /// The application's name.
    pub application_name: String,
    /// The application's version.
    pub application_version: u32,
    /// The engine's name.
    pub engine_name: String,
    /// The engine's version.
    pub engine_version: u32,
    /// The packed API version asked for.
    pub api_version: u32,
    /// The layers to enable.
    pub layers: Vec<String>,
    /// The instance extensions to enable.
    pub extensions: Vec<String>,
    /// The raw instance creation flags.
    pub flags: u32,
}

/// How urgent a queue's work is, at the two ends of the scale.
#[derive(Clone, Copy, Debug, PartialEq, Eq, Structural)]
pub enum QueuePriority {
    /// The least urgent.
    Lowest,
    /// The most urgent.
    Highest,
}

/// What the logical device is created with.
#[derive(Clone, Debug)]
pub struct DeviceRequest {
    /// The queue family that the device's queues come from.
    pub queue_family_index: usize,
    /// One priority for each queue asked for.
    pub queue_priorities: Vec<QueuePriority>,
    /// The device extensions to enable.
    pub extensions: Vec<String>,
    /// Whether the feature set is left at its default.
    pub default_features: bool,
}

/// The handles of a live context, as raw integers.
#[derive(Clone, Copy, Debug, PartialEq, Eq, Structural)]
pub struct RawHandles {
    /// The instance.
    pub instance: u64,
    /// The physical device that was selected.
    pub physical_device: u64,
    /// The logical device.
    pub device: u64,
    /// The queue that was retrieved from the device.
    pub queue: u64,
}

/// What the drawing library is given to build its own context on.
#[derive(Clone, Copy, Debug, PartialEq, Eq, Structural)]
pub struct BackendContext {
    /// The instance.
    pub instance: u64,
    /// The physical device.
    pub physical_device: u64,
    /// The logical device.
    pub device: u64,
    /// The queue.
    pub queue: u64,
    /// The queue's index within its family.
    pub queue_index: usize,
}

/// The scope that a function pointer is asked for in, with the raw handle
/// that the drawing library names.
#[derive(Clone, Copy, Debug, PartialEq, Eq, Structural)]
pub enum GetProcOf {
    /// A function of the instance with this handle.
    Instance(u64),
    /// A function of the device with this handle.
    Device(u64),
}

/// Who resolves a function pointer, and for which handle.
#[derive(Clone, Copy, Debug, PartialEq, Eq, Structural)]
pub enum ProcLookup {
    /// The entry point resolves it, for this instance.
    FromEntry(u64),
    /// The instance resolves it, for this device.
    FromInstance(u64),
}

/// One step of taking a context down.
#[derive(Clone, Copy, Debug, PartialEq, Eq, Structural)]
pub enum TeardownStep {
    /// Wait until the device has finished all submitted work.
    WaitIdle,
    /// Destroy the logical device.
    DestroyDevice,
    /// Destroy the instance.
    DestroyInstance,
}

/// Whether a name can be handed to the instance: it holds no NUL byte.
pub open spec fn is_valid_name(name: &str) -> bool {
    !name.spec_bytes().contains(0u8)
}

/// Whether `request` is the instance request for this name and detected
/// version.
pub open spec fn is_instance_request(
    request: InstanceRequest,
    app_name: &str,
    detected: Option<u32>,
) -> bool {
    &&& request.application_name@ == app_name@
    &&& request.application_version == 0
    &&& request.engine_name@ == app_name@
    &&& request.engine_version == 0
    &&& request.api_version == requested_version(detected)
    &&& request.layers@.len() == 0
    &&& request.extensions@.len() == 2
    &&& request.extensions@[0]@ == "VK_KHR_get_physical_device_properties2"@
    &&& request.extensions@[1]@ == "VK_KHR_portability_enumeration"@
    &&& request.flags == ENUMERATE_PORTABILITY_BIT
}

/// Whether `request` asks for exactly one queue of the given family, at the
/// highest priority, with no extension and the default features.
pub open spec fn is_device_request(request: DeviceRequest, queue_family_index: usize) -> bool {
    &&& request.queue_family_index == queue_family_index
    &&& request.queue_priorities@ == seq![QueuePriority::Highest]
    &&& request.extensions@.len() == 0
    &&& request.default_features
}

/// Whether some family of a device can draw.
pub open spec fn has_graphics(families: Seq<u32>) -> bool {
    exists|f: int| 0 <= f < families.len() && is_graphics(#[trigger] families[f])
}

/// Whether `f` is the first family of a device that can draw.
pub open spec fn is_first_graphics(families: Seq<u32>, f: int) -> bool {
    &&& 0 <= f < families.len()
    &&& is_graphics(families[f])
    &&& forall|j: int| 0 <= j < f ==> !is_graphics(#[trigger] families[j])
}

/// Whether any device of an enumeration can draw.
pub open spec fn any_graphics(devices: Seq<Vec<u32>>) -> bool {
    exists|d: int| 0 <= d < devices.len() && has_graphics(#[trigger] devices[d]@)
}

/// Whether device `d` is the first that can draw, and `f` its first family
/// that can.
pub open spec fn is_selection(devices: Seq<Vec<u32>>, d: int, f: int) -> bool {
    &&& 0 <= d < devices.len()
    &&& is_first_graphics(devices[d]@, f)
    &&& forall|i: int| 0 <= i < d ==> !has_graphics(#[trigger] devices[i]@)
}

/// Whether `choice` is what the selection yields for an enumeration: the
/// first device and family that can draw, or nothing where none can.
pub open spec fn selects(devices: Seq<Vec<u32>>, choice: Option<(usize, usize)>) -> bool {
    match choice {
        Some((d, f)) => is_selection(devices, d as int, f as int),
        None => !any_graphics(devices),
    }
}

/// The failure that a bootstrap ends in, if it fails: a name that cannot be
/// handed on, else an empty enumeration, else one without a family that can
/// draw.
pub open spec fn bootstrap_failure(app_name: &str, devices: Seq<Vec<u32>>) -> Option<
    BootstrapError,
> {
    if !is_valid_name(app_name) {
        Some(BootstrapError::ApplicationName)
    } else if devices.len() == 0 {
        Some(BootstrapError::NoDevice)
    } else if !any_graphics(devices) {
        Some(BootstrapError::NoGraphicsQueue)
    } else {
        None
    }
}

/// The first family of one device that supports graphics, if any does.
pub fn first_graphics_family(families: &Vec<u32>) -> (found: Option<usize>)
    ensures
        match found {
            Some(f) => is_first_graphics(families@, f as int),
            None => !has_graphics(families@),
        },
{
    let mut f: usize = 0;
    while f < families.len()
        invariant
            f <= families.len(),
            forall|j: int| 0 <= j < f ==> !is_graphics(#[trigger] families@[j]),
        decreases families.len() - f,
    {
        if supports_graphics(families[f]) {
            return Some(f);
        }
        f += 1;
    }
    None
}

/// Walks the physical devices in the order of their enumeration, and the
/// queue families of each in theirs, and picks the first pair whose family
/// supports graphics. `devices` holds, for each device, the raw flag word of
/// each of its queue families.
pub fn select_queue_family(devices: &Vec<Vec<u32>>) -> (choice: Option<(usize, usize)>)
    ensures
        selects(devices@, choice),
{
    let mut d: usize = 0;
    while d < devices.len()
        invariant
            d <= devices.len(),
            forall|i: int| 0 <= i < d ==> !has_graphics(#[trigger] devices@[i]@),
        decreases devices.len() - d,
    {
        match first_graphics_family(&devices[d]) {
            Some(f) => {
                return Some((d, f));
            },
            None => {},
        }
        d += 1;
    }
    None
}

/// The state of a Vulkan bootstrap: what was asked of the platform and what
/// was selected from its answers.
#[derive(Clone, Debug)]
pub struct AshGraphics {
    /// What the instance was created with.
    pub instance: InstanceRequest,
    /// The selected physical device, by its place in the enumeration.
    pub physical_device: usize,
    /// What the logical device was created with.
    pub device: DeviceRequest,
    /// The index, within its family, of the queue that is used.
    pub queue_index: usize,
}

impl AshGraphics {
    /// Splits the instance version that the loader reported into major,
    /// minor and patch. `None` stands for a loader that cannot report one.
    pub fn vulkan_version(detected: Option<u32>) -> (version: Option<(usize, usize, usize)>)
        ensures
            version == match detected {
                Some(v) => Some(version_triple(v)),
                None => None,
            },
    {
        match detected {
            Some(v) => {
                let major: u32 = ash::vk::api_version_major(v);
                let minor: u32 = ash::vk::api_version_minor(v);
                let patch: u32 = ash::vk::api_version_patch(v);
                Some((major as usize, minor as usize, patch as usize))
            },
            None => None,
        }
    }

    /// The packed version that the instance is created for: the detected
    /// one, repacked from its components with variant zero, or 1.1.0.
    pub fn api_version(detected: Option<u32>) -> (version: u32)
        ensures
            version == requested_version(detected),
    {
        match Self::vulkan_version(detected) {
            Some((major, minor, patch)) => {
                proof {
                    lemma_repack(detected->0);
                }
                ash::vk::make_api_version(0, major as u32, minor as u32, patch as u32)
            },
            None => {
                proof {
                    lemma_minimum_version();
                }
                ash::vk::make_api_version(0, 1, 1, 0)
            },
        }
    }

    /// The request that the instance is created with: the name for both
    /// application and engine, versions zero, the API version from
    /// `api_version`, no layers, the two portability extensions and the
    /// portability flag. A name that holds a NUL byte is refused.
    pub fn instance_request(app_name: &str, detected: Option<u32>) -> (request: Result<
        InstanceRequest,
        BootstrapError,
    >)
        ensures
            match request {
                Ok(r) => is_valid_name(app_name) && is_instance_request(r, app_name, detected),
                Err(e) => !is_valid_name(app_name) && e == BootstrapError::ApplicationName,
            },
    {
        if !name_is_valid(app_name) {
            return Err(BootstrapError::ApplicationName);
        }
        let mut extensions: Vec<String> = Vec::new();
        extensions.push(physical_device_properties2_name());
        extensions.push(portability_enumeration_name());
        Ok(
            InstanceRequest {
                application_name: app_name.to_owned(),
                application_version: 0,
                engine_name: app_name.to_owned(),
                engine_version: 0,
                api_version: Self::api_version(detected),
                layers: Vec::new(),
                extensions,
                flags: enumerate_portability_flag(),
            },
        )
    }

    /// The request that the logical device is created with: one queue of the
    /// selected family at the highest priority, no extension, default
    /// features.
    pub fn device_request(queue_family_index: usize) -> (request: DeviceRequest)
        ensures
            is_device_request(request, queue_family_index),
    {
        let mut queue_priorities: Vec<QueuePriority> = Vec::new();
        queue_priorities.push(QueuePriority::Highest);
        DeviceRequest {
            queue_family_index,
            queue_priorities,
            extensions: Vec::new(),
            default_features: true,
        }
    }

    /// Decides a whole bootstrap from what the platform reported: the
    /// loader's version, and for each physical device the flag words of its
    /// queue families. It fails on a name that cannot be handed on, on an
    /// empty enumeration, and on one in which no family supports graphics,
    /// in this order; otherwise it holds the instance request, the first
    /// device and family that support graphics, the device request for that
    /// family, and queue index zero.
    pub fn new(app_name: &str, detected: Option<u32>, devices: &Vec<Vec<u32>>) -> (graphics: Result<
        AshGraphics,
        BootstrapError,
    >)
        ensures
            match graphics {
                Ok(g) => {
                    &&& bootstrap_failure(app_name, devices@) is None
                    &&& is_instance_request(g.instance, app_name, detected)
                    &&& is_selection(
                        devices@,
                        g.physical_device as int,
                        g.device.queue_family_index as int,
                    )
                    &&& is_device_request(g.device, g.device.queue_family_index)
                    &&& g.queue_index == 0
                },
                Err(e) => bootstrap_failure(app_name, devices@) == Some(e),
            },
    {
        let instance = match Self::instance_request(app_name, detected) {
            Ok(request) => request,
            Err(e) => {
                return Err(e);
            },
        };
        if devices.len() == 0 {
            return Err(BootstrapError::NoDevice);
        }
        match select_queue_family(devices) {
            Some((physical_device, queue_family_index)) => {
                assert(has_graphics(devices@[physical_device as int]@));
                Ok(
                    AshGraphics {
                        instance,
                        physical_device,
                        device: Self::device_request(queue_family_index),
                        queue_index: 0,
                    },
                )
            },
            None => Err(BootstrapError::NoGraphicsQueue),
        }
    }

    /// Pairs the live handles with the queue's index for the drawing
    /// library. The handles stay owned by the bootstrap.
    pub fn backend_context(&self, handles: RawHandles) -> (context: BackendContext)
        ensures
            context == (BackendContext {
                instance: handles.instance,
                physical_device: handles.physical_device,
                device: handles.device,
                queue: handles.queue,
                queue_index: self.queue_index,
            }),
    {
        BackendContext {
            instance: handles.instance,
            physical_device: handles.physical_device,
            device: handles.device,
            queue: handles.queue,
            queue_index: self.queue_index,
        }
    }

    /// Says who resolves a function pointer: the entry point for a function
    /// of an instance, the instance for a function of a device.
    pub fn get_proc(&self, of: GetProcOf) -> (lookup: ProcLookup)
        ensures
            lookup == match of {
                GetProcOf::Instance(instance) => ProcLookup::FromEntry(instance),
                GetProcOf::Device(device) => ProcLookup::FromInstance(device),
            },
    {
        match of {
            GetProcOf::Instance(instance) => ProcLookup::FromEntry(instance),
            GetProcOf::Device(device) => ProcLookup::FromInstance(device),
        }
    }

    /// The address that the drawing library is answered with: the one that
    /// was resolved, or null where the lookup found nothing.
    pub fn proc_address(resolved: Option<usize>) -> (address: usize)
        ensures
            address == match resolved {
                Some(a) => a,
                None => 0,
            },
    {
        match resolved {
            Some(a) => a,
            None => 0,
        }
    }

    /// The step that follows in a teardown, given the step that was just
    /// performed and whether it succeeded; `None` at the start. The device is
    /// destroyed only after a wait that succeeded, the instance only after
    /// the device; a wait that failed ends the teardown with both alive.
    pub fn next_teardown(done: Option<TeardownStep>, succeeded: bool) -> (next: Option<
        TeardownStep,
    >)
        ensures
            next == teardown_after(done, succeeded),
    {
        match done {
            None => Some(TeardownStep::WaitIdle),
            Some(TeardownStep::WaitIdle) => if succeeded {
                Some(TeardownStep::DestroyDevice)
            } else {
                None
            },
            Some(TeardownStep::DestroyDevice) => Some(TeardownStep::DestroyInstance),
            Some(TeardownStep::DestroyInstance) => None,
        }
    }
}

/// The teardown step that follows `done`.
pub open spec fn teardown_after(done: Option<TeardownStep>, succeeded: bool) -> Option<
    TeardownStep,
> {
    match done {
        None => Some(TeardownStep::WaitIdle),
        Some(TeardownStep::WaitIdle) => if succeeded {
            Some(TeardownStep::DestroyDevice)
        } else {
            None
        },
        Some(TeardownStep::DestroyDevice) => Some(TeardownStep::DestroyInstance),
        Some(TeardownStep::DestroyInstance) => None,
    }
}

/// Whether a name holds no NUL byte.
fn name_is_valid(name: &str) -> (valid: bool)
    ensures
        valid == is_valid_name(name),
{
    let bytes = name.as_bytes();
    let mut i: usize = 0;
    while i < bytes.len()
        invariant
            i <= bytes@.len(),
            bytes@ == name.spec_bytes(),
            forall|j: int| 0 <= j < i ==> bytes@[j] != 0u8,
        decreases bytes.len() - i,
    {
        if bytes[i] == 0 {
            return false;
        }
        i += 1;
    }
    true
}

/// Whether `steps` is a teardown as `AshGraphics::next_teardown` drives it,
/// from its first step on, with `outcomes` saying which steps succeeded.
pub open spec fn is_teardown_run(steps: Seq<TeardownStep>, outcomes: Seq<bool>) -> bool {
    &&& steps.len() == outcomes.len()
    &&& steps.len() > 0 ==> teardown_after(None, true) == Some(steps[0])
    &&& forall|i: int|
        0 <= i < steps.len() - 1 ==> teardown_after(Some(#[trigger] steps[i]), outcomes[i])
            == Some(steps[i + 1])
}

/// In every teardown the wait for the idle device comes first, and no
/// destruction happens unless that wait succeeded: the device is destroyed
/// second, the instance third, and nothing follows.
pub proof fn lemma_wait_precedes_destruction(
    steps: Seq<TeardownStep>,
    outcomes: Seq<bool>,
    j: int,
)
    requires
        is_teardown_run(steps, outcomes),
        0 <= j < steps.len(),
    ensures
        steps[0] == TeardownStep::WaitIdle,
        steps.len() <= 3,
        steps[j] == TeardownStep::DestroyDevice ==> j == 1 && outcomes[0],
        steps[j] == TeardownStep::DestroyInstance ==> j == 2 && outcomes[0] && steps[1]
            == TeardownStep::DestroyDevice,
        steps[j] == TeardownStep::WaitIdle ==> j == 0,
{
    if steps.len() > 1 {
        assert(teardown_after(Some(steps[0]), outcomes[0]) == Some(steps[1]));
    }
    if steps.len() > 2 {
        assert(teardown_after(Some(steps[1]), outcomes[1]) == Some(steps[2]));
    }
    if steps.len() > 3 {
        assert(teardown_after(Some(steps[2]), outcomes[2]) == Some(steps[3]));
    }
}

/// An enumeration has at most one selection.
pub proof fn lemma_selection_unique(devices: Seq<Vec<u32>>, d1: int, f1: int, d2: int, f2: int)
    requires
        is_selection(devices, d1, f1),
        is_selection(devices, d2, f2),
    ensures
        d1 == d2,
        f1 == f2,
{
    assert(has_graphics(devices[d1]@));
    assert(has_graphics(devices[d2]@));
}

/// Where exactly one device of an enumeration has a family that can draw,
/// the selection is that device with the first such family on it.
pub proof fn lemma_only_capable_device_is_selected(
    devices: Seq<Vec<u32>>,
    k: int,
    choice: Option<(usize, usize)>,
)
    requires
        0 <= k < devices.len(),
        has_graphics(devices[k]@),
        forall|i: int| 0 <= i < devices.len() && i != k ==> !has_graphics(#[trigger] devices[i]@),
        selects(devices, choice),
    ensures
        choice matches Some((d, f)) && d == k && is_first_graphics(devices[k]@, f as int),
{
    assert(any_graphics(devices));
    let (d, f) = choice->0;
    assert(has_graphics(devices[d as int]@));
}

/// Components that fit their fields survive packing: unpacking gives them
/// back.
pub proof fn lemma_version_round_trip(major: u32, minor: u32, patch: u32)
    requires
        major <= 0x7f,
        minor <= 0x3ff,
        patch <= 0xfff,
    ensures
        version_major(pack_version(0, major, minor, patch)) == major,
        version_minor(pack_version(0, major, minor, patch)) == minor,
        version_patch(pack_version(0, major, minor, patch)) == patch,
{
    assert((((0u32 << 29) | (major << 22) | (minor << 12) | patch) >> 22) & 0x7f == major
        && (((0u32 << 29) | (major << 22) | (minor << 12) | patch) >> 12) & 0x3ff == minor
        && ((0u32 << 29) | (major << 22) | (minor << 12) | patch) & 0xfff == patch) by (bit_vector)
        requires
            major <= 0x7f,
            minor <= 0x3ff,
            patch <= 0xfff,
    ;
}

/// The version that is requested for a detected one has its major, minor
/// and patch components, and variant zero.
pub proof fn lemma_requested_version_keeps_components(v: u32)
    ensures
        version_major(requested_version(Some(v))) == version_major(v),
        version_minor(requested_version(Some(v))) == version_minor(v),
        version_patch(requested_version(Some(v))) == version_patch(v),
        requested_version(Some(v)) >> 29 == 0,
{
    assert(((v & 0x1fff_ffff) >> 22) & 0x7f == (v >> 22) & 0x7f && ((v & 0x1fff_ffff) >> 12)
        & 0x3ff == (v >> 12) & 0x3ff && (v & 0x1fff_ffff) & 0xfff == v & 0xfff && (v
        & 0x1fff_ffff) >> 29 == 0) by (bit_vector);
}

/// Repacking the components of a version with variant zero gives the
/// version without its variant bits.
proof fn lemma_repack(v: u32)
    ensures
        pack_version(
            0,
            version_triple(v).0 as u32,
            version_triple(v).1 as u32,
            version_triple(v).2 as u32,
        ) == v & 0x1fff_ffff,
{
    let major = version_major(v);
    let minor = version_minor(v);
    let patch = version_patch(v);
    assert(major as usize as u32 == major);
    assert(minor as usize as u32 == minor);
    assert(patch as usize as u32 == patch);
    assert(((0u32 << 29) | ((((v >> 22) & 0x7f) as u32) << 22) | ((((v >> 12) & 0x3ff) as u32)
        << 12) | ((v & 0xfff) as u32)) == v & 0x1fff_ffff) by (bit_vector);
}

/// Version 1.1.0 packs to the minimum version.
proof fn lemma_minimum_version()
    ensures
        pack_version(0, 1, 1, 0) == MINIMUM_VERSION,
{
    assert(((0u32 << 29) | (1u32 << 22) | (1u32 << 12) | 0u32) == 0x0040_1000u32) by (bit_vector);
}

} // verus!
