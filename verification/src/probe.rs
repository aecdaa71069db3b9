//! The passive inventory of one device, and what a report must satisfy.

use crate::string_map::StringMap;
use crate::text::{
    copy_optional, push_decimal, push_string, push_text, spells, str_eq, to_chars, CharSet,
};
use vstd::prelude::*;
use vstd::slice::slice_subrange;
use vstd::utf8::encode_utf8;

verus! {

/// The version of the report format.
pub const PROBE_SCHEMA_VERSION: u32 = 1;

/// One complete device inventory.
#[derive(Debug, Clone, PartialEq, Eq)]
pub struct ProbeReport {
    /// Version of the report format.
    pub schema_version: u32,
    /// Version of the program that wrote the report.
    pub probe_version: String,
    /// When the report was written.
    pub captured_at_unix_seconds: u64,
    /// What was left out.
    pub redaction: RedactionMetadata,
    /// What identifies the device model.
    pub identity: DeviceIdentity,
    /// Firmware, kernel and user land.
    pub system: SystemCapability,
    /// Every framebuffer.
    pub framebuffers: Vec<FramebufferCapability>,
    /// Every input event device.
    pub inputs: Vec<InputDeviceCapability>,
    /// Clocks, sleep states, supplies and lights.
    pub power: PowerCapability,
    /// Services and their start jobs.
    pub services: ServiceCapability,
    /// Mounts and file systems.
    pub storage: StorageCapability,
    /// Processes that matter for a foreground shell.
    pub processes: Vec<ProcessCapability>,
    /// What could not be read.
    pub warnings: Vec<ProbeWarning>,
}

/// What a report leaves out.
#[derive(Debug, Clone, PartialEq, Eq)]
pub struct RedactionMetadata {
    /// Whether anything is left out at all.
    pub enabled: bool,
    /// Name of the rule set.
    pub policy: String,
    /// Kinds of data that never appear.
    pub excluded_categories: Vec<String>,
}

/// What identifies the device model.
#[derive(Debug, Clone, Default, PartialEq, Eq)]
pub struct DeviceIdentity {
    /// Model prefix of the serial number.
    pub serial_prefix: Option<String>,
    /// Serial number with everything but its beginning removed.
    pub serial_redacted: Option<String>,
    /// File the serial number came from.
    pub serial_source: Option<String>,
    /// Model name reported by the kernel.
    pub model_hint: Option<String>,
}

/// Firmware, kernel and user land.
#[derive(Debug, Clone, PartialEq, Eq)]
pub struct SystemCapability {
    /// Firmware version lines.
    pub firmware: Vec<SourcedValue>,
    /// Kernel release.
    pub kernel_release: Option<String>,
    /// Machine name reported by the kernel.
    pub machine: Option<String>,
    /// Architecture the reporting program was compiled for.
    pub compiled_architecture: String,
    /// Dynamic loaders that are installed.
    pub available_dynamic_loaders: Vec<String>,
    /// Floating-point calling convention of user land.
    pub userland_float_abi: UserlandFloatAbi,
    /// Layout of input events.
    pub input_event_abi: InputEventAbi,
    /// Processor description fields that are safe to report.
    pub cpu_fields: StringMap<Vec<String>>,
    /// Layout of the reporting program itself.
    pub executable_abi: Option<ElfAbi>,
}

/// Floating-point calling convention of user land.
#[derive(Debug, Clone, Copy, PartialEq, Eq, Structural)]
pub enum UserlandFloatAbi {
    /// Only hard-float loaders are installed.
    Hard,
    /// Only soft-float loaders are installed.
    Soft,
    /// Loaders of both kinds are installed.
    Mixed,
    /// No known loader is installed.
    Unknown,
    /// The device is not a 32-bit ARM device.
    NotApplicable,
}

impl Default for UserlandFloatAbi {
    fn default() -> (abi: Self)
        ensures
            abi == UserlandFloatAbi::Unknown,
    {
        UserlandFloatAbi::Unknown
    }
}

/// Layout of input events in the C library.
#[derive(Debug, Clone, Copy, Default, PartialEq, Eq, Structural)]
pub struct InputEventAbi {
    /// Width of a pointer.
    pub pointer_width_bits: u16,
    /// Size of a `timeval`.
    pub libc_timeval_bytes: u16,
    /// Size of an `input_event`.
    pub libc_input_event_bytes: u16,
}

/// A value and the file it came from.
#[derive(Debug, Clone, PartialEq, Eq)]
pub struct SourcedValue {
    /// File the value came from.
    pub source: String,
    /// The value.
    pub value: String,
}

/// Layout of an ELF executable.
#[derive(Debug, Clone, PartialEq, Eq, Structural)]
pub struct ElfAbi {
    /// Word size.
    pub class: ElfClass,
    /// Byte order.
    pub endianness: Endianness,
    /// Machine number.
    pub machine: u16,
    /// Machine-specific flags.
    pub flags: u32,
    /// EABI version of an ARM executable.
    pub arm_eabi_version: Option<u8>,
    /// Float convention of an ARM executable.
    pub arm_float_abi: Option<ArmFloatAbi>,
}

/// Word size of an executable.
#[derive(Debug, Clone, Copy, PartialEq, Eq, Structural)]
pub enum ElfClass {
    /// 32-bit.
    Elf32,
    /// 64-bit.
    Elf64,
}

impl ElfClass {
    /// The name of the word size.
    pub open spec fn spec_name(self) -> Seq<char> {
        match self {
            ElfClass::Elf32 => "Elf32"@,
            ElfClass::Elf64 => "Elf64"@,
        }
    }

    /// Returns the name of the word size.
    pub fn name(self) -> (name: &'static str)
        ensures
            name@ == self.spec_name(),
    {
        match self {
            ElfClass::Elf32 => "Elf32",
            ElfClass::Elf64 => "Elf64",
        }
    }
}

/// Byte order.
#[derive(Debug, Clone, Copy, PartialEq, Eq, Structural)]
pub enum Endianness {
    /// Least significant byte first.
    Little,
    /// Most significant byte first.
    Big,
}

/// Float convention of an ARM executable.
#[derive(Debug, Clone, Copy, PartialEq, Eq, Structural)]
pub enum ArmFloatAbi {
    /// Arguments in floating-point registers.
    Hard,
    /// Arguments in integer registers.
    Soft,
    /// Neither flag is set.
    Unspecified,
    /// Both flags are set.
    ConflictingFlags,
}

/// One framebuffer.
#[derive(Debug, Clone, PartialEq, Eq)]
pub struct FramebufferCapability {
    /// Device path.
    pub device: String,
    /// Driver name.
    pub driver_id: String,
    /// Visible width in pixels.
    pub visible_width: u32,
    /// Visible height in pixels.
    pub visible_height: u32,
    /// Virtual width in pixels.
    pub virtual_width: u32,
    /// Virtual height in pixels.
    pub virtual_height: u32,
    /// Column of the first visible pixel.
    pub x_offset: u32,
    /// Row of the first visible pixel.
    pub y_offset: u32,
    /// Bytes from one row to the next.
    pub line_length: u32,
    /// Bytes of framebuffer memory.
    pub memory_length: u32,
    /// Bits of one pixel.
    pub bits_per_pixel: u32,
    /// Kernel grayscale flag.
    pub grayscale: u32,
    /// How a pixel is encoded.
    pub pixel_layout: PixelLayout,
    /// Kernel rotation value.
    pub rotation: u32,
    /// Red bits.
    pub red: PixelBitfield,
    /// Green bits.
    pub green: PixelBitfield,
    /// Blue bits.
    pub blue: PixelBitfield,
    /// Transparency bits.
    pub transparency: PixelBitfield,
}

impl FramebufferCapability {
    /// Whether two descriptions hold the same values.
    pub open spec fn same_as(self, other: Self) -> bool {
        &&& self.device@ == other.device@
        &&& self.driver_id@ == other.driver_id@
        &&& self.visible_width == other.visible_width
        &&& self.visible_height == other.visible_height
        &&& self.virtual_width == other.virtual_width
        &&& self.virtual_height == other.virtual_height
        &&& self.x_offset == other.x_offset
        &&& self.y_offset == other.y_offset
        &&& self.line_length == other.line_length
        &&& self.memory_length == other.memory_length
        &&& self.bits_per_pixel == other.bits_per_pixel
        &&& self.grayscale == other.grayscale
        &&& self.pixel_layout == other.pixel_layout
        &&& self.rotation == other.rotation
        &&& self.red == other.red
        &&& self.green == other.green
        &&& self.blue == other.blue
        &&& self.transparency == other.transparency
    }

    /// Tests whether two descriptions hold the same values.
    pub fn test_same(&self, other: &Self) -> (same: bool)
        ensures
            same == self.same_as(*other),
    {
        str_eq(self.device.as_str(), other.device.as_str()) && str_eq(
            self.driver_id.as_str(),
            other.driver_id.as_str(),
        )
            && self.visible_width == other.visible_width
            && self.visible_height == other.visible_height
            && self.virtual_width == other.virtual_width
            && self.virtual_height == other.virtual_height
            && self.x_offset == other.x_offset
            && self.y_offset == other.y_offset
            && self.line_length == other.line_length
            && self.memory_length == other.memory_length
            && self.bits_per_pixel == other.bits_per_pixel
            && self.grayscale == other.grayscale
            && self.pixel_layout == other.pixel_layout
            && self.rotation == other.rotation
            && self.red == other.red
            && self.green == other.green
            && self.blue == other.blue
            && self.transparency == other.transparency
    }

    /// Copies the description.
    pub fn copy(&self) -> (copy: Self)
        ensures
            copy == *self,
    {
        FramebufferCapability {
            device: self.device.clone(),
            driver_id: self.driver_id.clone(),
            visible_width: self.visible_width,
            visible_height: self.visible_height,
            virtual_width: self.virtual_width,
            virtual_height: self.virtual_height,
            x_offset: self.x_offset,
            y_offset: self.y_offset,
            line_length: self.line_length,
            memory_length: self.memory_length,
            bits_per_pixel: self.bits_per_pixel,
            grayscale: self.grayscale,
            pixel_layout: self.pixel_layout,
            rotation: self.rotation,
            red: self.red,
            green: self.green,
            blue: self.blue,
            transparency: self.transparency,
        }
    }
}

/// How a pixel is encoded.
#[derive(Debug, Clone, Copy, PartialEq, Eq, Structural)]
pub enum PixelLayout {
    /// One byte of luminance.
    Grayscale8,
    /// Packed red, green and blue bits.
    PackedRgb,
    /// Anything else.
    Unknown,
}

impl PixelLayout {
    /// The name of the layout.
    pub open spec fn spec_name(self) -> Seq<char> {
        match self {
            PixelLayout::Grayscale8 => "Grayscale8"@,
            PixelLayout::PackedRgb => "PackedRgb"@,
            PixelLayout::Unknown => "Unknown"@,
        }
    }

    /// Returns the name of the layout.
    pub fn name(self) -> (name: &'static str)
        ensures
            name@ == self.spec_name(),
    {
        match self {
            PixelLayout::Grayscale8 => "Grayscale8",
            PixelLayout::PackedRgb => "PackedRgb",
            PixelLayout::Unknown => "Unknown",
        }
    }
}

/// Position of a color in a pixel.
#[derive(Debug, Clone, Copy, Default, PartialEq, Eq, Structural)]
pub struct PixelBitfield {
    /// First bit.
    pub offset: u32,
    /// Number of bits.
    pub length: u32,
    /// Whether the most significant bit is on the right.
    pub msb_right: u32,
}

/// One input event device.
#[derive(Debug, Clone, PartialEq, Eq)]
pub struct InputDeviceCapability {
    /// Device path.
    pub device: String,
    /// Device name.
    pub name: Option<String>,
    /// Bus and product numbers.
    pub id: InputDeviceId,
    /// Capability bitmaps by kind.
    pub capabilities: StringMap<String>,
    /// Absolute axes that answered.
    pub axes: Vec<InputAxisCapability>,
}

impl InputDeviceCapability {
    /// Whether two descriptions hold the same values.
    pub open spec fn same_as(self, other: Self) -> bool {
        &&& self.device@ == other.device@
        &&& crate::text::optional_text(self.name) == crate::text::optional_text(other.name)
        &&& self.id == other.id
        &&& self.capabilities.keys() == other.capabilities.keys()
        &&& crate::text::texts(self.capabilities.values()) == crate::text::texts(
            other.capabilities.values(),
        )
        &&& self.axes@ == other.axes@
    }

    /// Copies the description.
    pub fn copy(&self) -> (copy: Self)
        ensures
            copy.same_as(*self),
    {
        let mut axes: Vec<InputAxisCapability> = Vec::new();
        for i in 0..self.axes.len()
            invariant
                axes@ == self.axes@.take(i as int),
        {
            axes.push(self.axes[i].copy());
            assert(self.axes@.take(i + 1) =~= self.axes@.take(i as int).push(
                self.axes@[i as int],
            ));
        }
        assert(self.axes@.take(self.axes@.len() as int) =~= self.axes@);
        let capabilities: StringMap<String> = self.capabilities.clone();
        assert(crate::text::texts(capabilities.values()) =~= crate::text::texts(
            self.capabilities.values(),
        ));
        InputDeviceCapability {
            device: self.device.clone(),
            name: copy_optional(&self.name),
            id: self.id,
            capabilities,
            axes,
        }
    }
}

/// Bus and product numbers of an input device.
#[derive(Debug, Clone, Copy, PartialEq, Eq, Structural)]
pub struct InputDeviceId {
    /// Bus type.
    pub bus: Option<u16>,
    /// Vendor number.
    pub vendor: Option<u16>,
    /// Product number.
    pub product: Option<u16>,
    /// Version number.
    pub version: Option<u16>,
}

impl Default for InputDeviceId {
    fn default() -> (id: Self)
        ensures
            id == (InputDeviceId { bus: None, vendor: None, product: None, version: None }),
    {
        InputDeviceId { bus: None, vendor: None, product: None, version: None }
    }
}

/// One absolute axis of an input device.
#[derive(Debug, Clone, PartialEq, Eq)]
pub struct InputAxisCapability {
    /// Axis code.
    pub code: u16,
    /// Axis name.
    pub name: Option<String>,
    /// Smallest value.
    pub minimum: i32,
    /// Largest value.
    pub maximum: i32,
    /// Noise filter width.
    pub fuzz: i32,
    /// Dead zone width.
    pub flat: i32,
    /// Units per millimetre.
    pub resolution: i32,
}

impl InputAxisCapability {
    /// Copies the description.
    pub fn copy(&self) -> (copy: Self)
        ensures
            copy == *self,
    {
        let name: Option<String> = match &self.name {
            Some(name) => Some(name.clone()),
            None => None,
        };
        InputAxisCapability {
            code: self.code,
            name,
            minimum: self.minimum,
            maximum: self.maximum,
            fuzz: self.fuzz,
            flat: self.flat,
            resolution: self.resolution,
        }
    }
}

/// Clocks, sleep states, supplies and lights.
#[derive(Debug, Clone, Default, PartialEq, Eq)]
pub struct PowerCapability {
    /// Real-time clocks.
    pub rtcs: Vec<RtcCapability>,
    /// Sleep states.
    pub suspend: SuspendCapability,
    /// Batteries and chargers.
    pub power_supplies: Vec<PowerSupplyCapability>,
    /// Front lights.
    pub front_lights: Vec<FrontLightCapability>,
    /// Battery nodes of older kernels.
    pub legacy_battery_nodes: Vec<KernelNodeCapability>,
    /// Cover sensors.
    pub hall_sensor_nodes: Vec<KernelNodeCapability>,
    /// Deep sleep nodes.
    pub deep_sleep_nodes: Vec<KernelNodeCapability>,
}

/// One kernel file.
#[derive(Debug, Clone, PartialEq, Eq)]
pub struct KernelNodeCapability {
    /// File path.
    pub path: String,
    /// Whether it could be opened for reading.
    pub readable: bool,
    /// Whether its mode has a write bit.
    pub has_write_permission_bits: bool,
}

/// One real-time clock.
#[derive(Debug, Clone, PartialEq, Eq)]
pub struct RtcCapability {
    /// Clock name.
    pub name: String,
    /// Alarm file.
    pub wakealarm: Option<String>,
    /// Whether the alarm file could be opened for reading.
    pub wakealarm_readable: bool,
    /// Whether the mode of the alarm file has a write bit.
    pub wakealarm_has_write_permission_bits: bool,
}

/// Sleep states.
#[derive(Debug, Clone, Default, PartialEq, Eq)]
pub struct SuspendCapability {
    /// State file.
    pub state_path: Option<String>,
    /// Sleep states.
    pub states: Vec<String>,
    /// Memory sleep file.
    pub mem_sleep_path: Option<String>,
    /// Memory sleep modes.
    pub mem_sleep_modes: Vec<String>,
}

/// One battery or charger.
#[derive(Debug, Clone, PartialEq, Eq)]
pub struct PowerSupplyCapability {
    /// Supply name.
    pub name: String,
    /// Supply type.
    pub supply_type: Option<String>,
    /// Property files.
    pub properties: Vec<String>,
}

/// One front light.
#[derive(Debug, Clone, PartialEq, Eq)]
pub struct FrontLightCapability {
    /// Light name.
    pub name: String,
    /// Directory of the light.
    pub path: String,
    /// Brightest level.
    pub max_brightness: Option<u32>,
    /// Whether the requested level has a file.
    pub brightness_property_available: bool,
    /// Whether the actual level has a file.
    pub actual_brightness_property_available: bool,
}

/// Services and their start jobs.
#[derive(Debug, Clone, Default, PartialEq, Eq)]
pub struct ServiceCapability {
    /// Program that reads service properties.
    pub lipc_getter: Option<String>,
    /// Service properties.
    pub lipc_properties: Vec<LipcPropertyCapability>,
    /// Upstart jobs.
    pub upstart_jobs: Vec<UpstartJobCapability>,
    /// System V scripts.
    pub sysv_scripts: Vec<String>,
}

/// One service property.
#[derive(Debug, Clone, PartialEq, Eq)]
pub struct LipcPropertyCapability {
    /// Service name.
    pub service: String,
    /// Property name.
    pub property: String,
    /// Whether it could be read.
    pub readable: bool,
    /// Outcome of reading it.
    pub result: String,
}

/// One Upstart job.
#[derive(Debug, Clone, PartialEq, Eq)]
pub struct UpstartJobCapability {
    /// Job name.
    pub name: String,
    /// Start conditions.
    pub start_on: Vec<String>,
    /// Stop conditions.
    pub stop_on: Vec<String>,
    /// Whether it is restarted.
    pub respawn: bool,
    /// Whether it is a task.
    pub task: bool,
}

/// Mounts and file systems.
#[derive(Debug, Clone, Default, PartialEq, Eq)]
pub struct StorageCapability {
    /// Every mount.
    pub mounts: Vec<MountCapability>,
    /// Sizes of the file systems that matter.
    pub filesystems: Vec<FilesystemSpace>,
    /// The user partition.
    pub userstore: UserstoreCapability,
}

/// One mount.
#[derive(Debug, Clone, PartialEq, Eq)]
pub struct MountCapability {
    /// Mount point.
    pub mount_point: String,
    /// File system type.
    pub filesystem_type: String,
    /// Whether it is mounted read-only.
    pub read_only: bool,
}

/// Size of one file system.
#[derive(Debug, Clone, PartialEq, Eq)]
pub struct FilesystemSpace {
    /// A path on the file system.
    pub path: String,
    /// Bytes of one block.
    pub block_size: u64,
    /// Bytes in all.
    pub total_bytes: u64,
    /// Bytes that are free for users.
    pub available_bytes: u64,
}

/// The user partition.
#[derive(Debug, Clone, Default, PartialEq, Eq)]
pub struct UserstoreCapability {
    /// Its directory.
    pub path: String,
    /// Whether the directory exists.
    pub exists: bool,
    /// Whether it is a mount point.
    pub mounted: bool,
    /// Whether it is mounted read-only.
    pub read_only: Option<bool>,
}

/// One process.
#[derive(Debug, Clone, PartialEq, Eq)]
pub struct ProcessCapability {
    /// Process number.
    pub pid: u32,
    /// Number of the parent process.
    pub parent_pid: Option<u32>,
    /// Command name.
    pub name: String,
    /// Scheduling state.
    pub state: Option<String>,
}

/// Something that could not be read.
#[derive(Debug, Clone, PartialEq, Eq)]
pub struct ProbeWarning {
    /// Part of the report.
    pub subsystem: String,
    /// Short machine-readable reason.
    pub code: String,
    /// Reason in words.
    pub message: String,
}

/// Whether a model prefix is one to six ASCII letters or digits.
pub open spec fn is_short_prefix(prefix: Seq<char>) -> bool {
    1 <= prefix.len() <= 6 && CharSet::Alphanumeric.covers(prefix)
}

/// Whether a serial number shows at most eight bytes of itself, then an
/// ellipsis and the word `REDACTED`.
pub open spec fn is_redacted_serial(serial: Seq<char>) -> bool {
    let visible = serial.take(serial.len() - 9);
    &&& serial.len() > 9
    &&& serial.skip(serial.len() - 9) == "…REDACTED"@
    &&& !visible.contains('…')
    &&& encode_utf8(visible).len() <= 8
}

/// The bytes that one visible row of pixels takes at least.
pub open spec fn minimum_stride(framebuffer: FramebufferCapability) -> int {
    let bits = framebuffer.visible_width * framebuffer.bits_per_pixel;
    let bits = if bits > u32::MAX {
        u32::MAX as int
    } else {
        bits
    };
    (bits + 7) / 8
}

/// What is wrong with one framebuffer.
pub open spec fn framebuffer_violations(framebuffer: FramebufferCapability) -> Seq<Seq<char>> {
    let geometry = if framebuffer.visible_width == 0 || framebuffer.visible_height == 0 {
        seq![framebuffer.device@ + " has zero visible geometry"@]
    } else {
        seq![]
    };
    let stride = if framebuffer.line_length < minimum_stride(framebuffer) {
        seq![
            framebuffer.device@ + " line_length "@ + crate::text::decimal(
                framebuffer.line_length as nat,
            ) + " is smaller than minimum "@ + crate::text::decimal(
                minimum_stride(framebuffer) as nat,
            ),
        ]
    } else {
        seq![]
    };
    geometry + stride
}

/// What is wrong with a list of framebuffers, in their order.
pub open spec fn all_framebuffer_violations(framebuffers: Seq<FramebufferCapability>) -> Seq<
    Seq<char>,
>
    decreases framebuffers.len(),
{
    if framebuffers.len() == 0 {
        seq![]
    } else {
        all_framebuffer_violations(framebuffers.drop_last()) + framebuffer_violations(
            framebuffers.last(),
        )
    }
}

impl ProbeReport {
    /// Everything that is wrong with the report, in the order in which it is
    /// reported.
    pub open spec fn violations(&self) -> Seq<Seq<char>> {
        let version = if self.schema_version != PROBE_SCHEMA_VERSION {
            seq![
                "unsupported probe schema version "@ + crate::text::decimal(
                    self.schema_version as nat,
                ),
            ]
        } else {
            seq![]
        };
        let redaction = if !self.redaction.enabled {
            seq!["probe report redaction must be enabled"@]
        } else {
            seq![]
        };
        let prefix = if self.identity.serial_prefix is Some && !is_short_prefix(
            self.identity.serial_prefix->0@,
        ) {
            seq!["serial prefix is not a short alphanumeric prefix"@]
        } else {
            seq![]
        };
        let serial = if self.identity.serial_redacted is Some && !is_redacted_serial(
            self.identity.serial_redacted->0@,
        ) {
            seq!["serial identity is not in the required redacted form"@]
        } else {
            seq![]
        };
        version + redaction + prefix + serial + all_framebuffer_violations(self.framebuffers@)
    }

    /// Checks the report's version, redaction and framebuffer geometry.
    ///
    /// Every violation is reported.
    pub fn validate(&self) -> (result: Result<(), Vec<String>>)
        ensures
            match result {
                Ok(()) => self.violations().len() == 0,
                Err(errors) => errors@.len() > 0 && crate::text::texts(errors@)
                    == self.violations(),
            },
    {
        let mut errors: Vec<String> = Vec::new();
        let ghost mut expected: Seq<Seq<char>> = seq![];
        assert(crate::text::texts(errors@) =~= expected);
        if self.schema_version != PROBE_SCHEMA_VERSION {
            let mut message: String = "unsupported probe schema version ".to_owned();
            push_decimal(&mut message, self.schema_version as u64);
            proof {
                expected = expected.push(message@);
            }
            push_string(&mut errors, message);
        }
        if !self.redaction.enabled {
            push_text(&mut errors, "probe report redaction must be enabled");
            proof {
                expected = expected.push("probe report redaction must be enabled"@);
            }
        }
        if let Some(prefix) = &self.identity.serial_prefix {
            if !short_prefix(prefix.as_str()) {
                push_text(&mut errors, "serial prefix is not a short alphanumeric prefix");
                proof {
                    expected = expected.push(
                        "serial prefix is not a short alphanumeric prefix"@,
                    );
                }
            }
        }
        if let Some(serial) = &self.identity.serial_redacted {
            if !redacted_serial(serial.as_str()) {
                push_text(&mut errors, "serial identity is not in the required redacted form");
                proof {
                    expected = expected.push(
                        "serial identity is not in the required redacted form"@,
                    );
                }
            }
        }
        let ghost head = expected;
        for i in 0..self.framebuffers.len()
            invariant
                crate::text::texts(errors@) == head + all_framebuffer_violations(
                    self.framebuffers@.take(i as int),
                ),
        {
            check_framebuffer(&self.framebuffers[i], &mut errors);
            proof {
                let taken = self.framebuffers@.take(i + 1);
                assert(taken.drop_last() =~= self.framebuffers@.take(i as int));
                assert(taken.last() == self.framebuffers@[i as int]);
                assert(crate::text::texts(errors@) =~= head + all_framebuffer_violations(taken));
            }
        }
        proof {
            assert(self.framebuffers@.take(self.framebuffers@.len() as int)
                =~= self.framebuffers@);
            assert(crate::text::texts(errors@) =~= self.violations());
        }
        if errors.is_empty() {
            Ok(())
        } else {
            Err(errors)
        }
    }
}

fn check_framebuffer(framebuffer: &FramebufferCapability, errors: &mut Vec<String>)
    ensures
        crate::text::texts(final(errors)@) == crate::text::texts(old(errors)@)
            + framebuffer_violations(*framebuffer),
{
    if framebuffer.visible_width == 0 || framebuffer.visible_height == 0 {
        let mut message: String = framebuffer.device.clone();
        message.append(" has zero visible geometry");
        push_string(errors, message);
    }
    assert(0 <= framebuffer.visible_width * framebuffer.bits_per_pixel <= 0xffff_ffff
        * 0xffff_ffff) by (nonlinear_arith)
        requires
            0 <= framebuffer.visible_width <= 0xffff_ffff,
            0 <= framebuffer.bits_per_pixel <= 0xffff_ffff,
    ;
    let product: u64 = framebuffer.visible_width as u64 * framebuffer.bits_per_pixel as u64;
    let bits: u64 = if product > u32::MAX as u64 {
        u32::MAX as u64
    } else {
        product
    };
    let stride: u32 = ((bits + 7) / 8) as u32;
    assert(stride == minimum_stride(*framebuffer));
    if framebuffer.line_length < stride {
        let mut message: String = framebuffer.device.clone();
        message.append(" line_length ");
        push_decimal(&mut message, framebuffer.line_length as u64);
        message.append(" is smaller than minimum ");
        push_decimal(&mut message, stride as u64);
        push_string(errors, message);
    }
    assert(crate::text::texts(errors@) =~= crate::text::texts(old(errors)@)
        + framebuffer_violations(*framebuffer));
}

fn short_prefix(prefix: &str) -> (valid: bool)
    ensures
        valid == is_short_prefix(prefix@),
{
    let chars: Vec<char> = to_chars(prefix);
    1 <= chars.len() && chars.len() <= 6 && CharSet::Alphanumeric.test_all(chars.as_slice())
}

fn redacted_serial(serial: &str) -> (valid: bool)
    ensures
        valid == is_redacted_serial(serial@),
{
    let chars: Vec<char> = to_chars(serial);
    if chars.len() <= 9 {
        return false;
    }
    let split: usize = chars.len() - 9;
    let visible: &[char] = slice_subrange(chars.as_slice(), 0, split);
    let rest: &[char] = slice_subrange(chars.as_slice(), split, chars.len());
    assert(visible@ =~= serial@.take(split as int));
    assert(rest@ =~= serial@.skip(split as int));
    let shown: String = crate::text::from_chars(visible);
    let bytes: &[u8] = shown.as_str().as_bytes();
    let ellipsis: bool = CharSet::Only('…').test_any(visible);
    proof {
        if ellipsis {
            let i = choose|i: int| 0 <= i < visible@.len() && CharSet::Only('…').has(visible@[i]);
            assert(visible@[i] == '…');
        } else {
            assert(!visible@.contains('…')) by {
                if visible@.contains('…') {
                    let i = visible@.index_of('…');
                    assert(CharSet::Only('…').has(visible@[i]));
                }
            }
        }
    }
    spells(rest, "…REDACTED") && !ellipsis && bytes.len() <= 8
}

// ---------------------------------------------------------------------------
// What a report must say
// ---------------------------------------------------------------------------
/// A framebuffer is fine exactly when its visible part is not empty and a line
/// holds the bits of a visible row, as far as 32 bits can count them.
pub proof fn law_lines_hold_a_visible_row(framebuffer: FramebufferCapability)
    ensures
        framebuffer_violations(framebuffer).len() == 0 <==> {
            let bits = framebuffer.visible_width * framebuffer.bits_per_pixel;
            &&& framebuffer.visible_width > 0 && framebuffer.visible_height > 0
            &&& 8 * framebuffer.line_length >= (if bits <= 0xffff_ffff {
                bits
            } else {
                0xffff_ffff
            })
        },
{
    let bits = framebuffer.visible_width * framebuffer.bits_per_pixel;
    assert(0 <= bits) by (nonlinear_arith)
        requires
            bits == framebuffer.visible_width * framebuffer.bits_per_pixel,
    ;
}

proof fn all_framebuffers_are_fine(framebuffers: Seq<FramebufferCapability>)
    ensures
        all_framebuffer_violations(framebuffers).len() == 0 <==> forall|i: int|
            0 <= i < framebuffers.len() ==> framebuffer_violations(
                #[trigger] framebuffers[i],
            ).len() == 0,
    decreases framebuffers.len(),
{
    if framebuffers.len() > 0 {
        let front = framebuffers.drop_last();
        all_framebuffers_are_fine(front);
        if all_framebuffer_violations(framebuffers).len() == 0 {
            assert forall|i: int| 0 <= i < framebuffers.len() implies framebuffer_violations(
                #[trigger] framebuffers[i],
            ).len() == 0 by {
                if i < front.len() {
                    assert(front[i] == framebuffers[i]);
                }
            }
        } else if forall|i: int|
            0 <= i < framebuffers.len() ==> framebuffer_violations(
                #[trigger] framebuffers[i],
            ).len() == 0 {
            assert forall|i: int| 0 <= i < front.len() implies framebuffer_violations(
                #[trigger] front[i],
            ).len() == 0 by {
                assert(front[i] == framebuffers[i]);
            }
            assert(framebuffer_violations(framebuffers[framebuffers.len() - 1]).len() == 0);
        }
    }
}

/// A report is valid exactly when it has the known schema, is redacted, shows at
/// most a short prefix of a serial number, of 1 to 6 letters and digits, and a
/// serial number only as a beginning of at most 8 bytes before the mark of its
/// removal, and all of its framebuffers are fine.
pub proof fn law_valid_reports_are_redacted(report: ProbeReport)
    ensures
        report.violations().len() == 0 <==> {
            &&& report.schema_version == 1
            &&& report.redaction.enabled
            &&& report.identity.serial_prefix matches Some(prefix) ==> 1 <= prefix@.len() <= 6
                && CharSet::Alphanumeric.covers(prefix@)
            &&& report.identity.serial_redacted matches Some(serial) ==> exists|shown: Seq<char>|
                {
                    &&& shown.len() > 0
                    &&& serial@ == #[trigger] (shown + "…REDACTED"@)
                    &&& !shown.contains('…')
                    &&& encode_utf8(shown).len() <= 8
                }
            &&& forall|i: int|
                0 <= i < report.framebuffers@.len() ==> framebuffer_violations(
                    #[trigger] report.framebuffers@[i],
                ).len() == 0
        },
{
    all_framebuffers_are_fine(report.framebuffers@);
    if let Some(text) = report.identity.serial_redacted {
        let serial = text@;
        let mark = "…REDACTED"@;
        reveal_strlit("…REDACTED");
        assert(mark.len() == 9);
        if is_redacted_serial(serial) {
            let shown = serial.take(serial.len() - 9);
            assert(serial =~= shown + mark);
        }
        if exists|shown: Seq<char>|
            {
                &&& shown.len() > 0
                &&& serial == #[trigger] (shown + mark)
                &&& !shown.contains('…')
                &&& encode_utf8(shown).len() <= 8
            } {
            let shown = choose|shown: Seq<char>|
                {
                    &&& shown.len() > 0
                    &&& serial == #[trigger] (shown + mark)
                    &&& !shown.contains('…')
                    &&& encode_utf8(shown).len() <= 8
                };
            assert(serial.take(serial.len() - 9) =~= shown);
            assert(serial.skip(serial.len() - 9) =~= mark);
        }
    }
}

/// Framebuffers are the same when nothing tells them apart.
pub proof fn law_same_framebuffers_agree_in_everything(
    a: FramebufferCapability,
    b: FramebufferCapability,
)
    ensures
        a.same_as(b) <==> {
            &&& a.device@ == b.device@ && a.driver_id@ == b.driver_id@
            &&& (FramebufferCapability { device: b.device, driver_id: b.driver_id, ..a }) == b
        },
{
}

/// Input devices are the same when nothing tells them apart.
pub proof fn law_same_inputs_agree_in_everything(
    a: InputDeviceCapability,
    b: InputDeviceCapability,
)
    requires
        a.same_as(b),
    ensures
        a.device@ == b.device@,
        a.name is Some <==> b.name is Some,
        a.name is Some ==> a.name->0@ == b.name->0@,
        (a.id.bus, a.id.vendor) == (b.id.bus, b.id.vendor),
        (a.id.product, a.id.version) == (b.id.product, b.id.version),
        a.capabilities.keys() == b.capabilities.keys(),
        crate::text::texts(a.capabilities.values()) == crate::text::texts(
            b.capabilities.values(),
        ),
        a.axes@ == b.axes@,
{
}

/// Each rule that a report breaks is named.
pub proof fn law_broken_rules_are_named(report: ProbeReport, framebuffer: FramebufferCapability)
    ensures
        ({
            let named = report.violations();
            &&& report.schema_version != 1 ==> named.contains(
                "unsupported probe schema version "@ + crate::text::decimal(
                    report.schema_version as nat,
                ),
            )
            &&& !report.redaction.enabled ==> named.contains(
                "probe report redaction must be enabled"@,
            )
            &&& report.identity.serial_prefix is Some && !is_short_prefix(
                report.identity.serial_prefix->0@,
            ) ==> named.contains("serial prefix is not a short alphanumeric prefix"@)
            &&& report.identity.serial_redacted is Some && !is_redacted_serial(
                report.identity.serial_redacted->0@,
            ) ==> named.contains("serial identity is not in the required redacted form"@)
        }),
        framebuffer.visible_width == 0 || framebuffer.visible_height == 0
            ==> framebuffer_violations(framebuffer).contains(
            framebuffer.device@ + " has zero visible geometry"@,
        ),
        framebuffer.line_length < minimum_stride(framebuffer) ==> framebuffer_violations(
            framebuffer,
        ).contains(
            framebuffer.device@ + " line_length "@ + crate::text::decimal(
                framebuffer.line_length as nat,
            ) + " is smaller than minimum "@ + crate::text::decimal(
                minimum_stride(framebuffer) as nat,
            ),
        ),
{
    let version = crate::trace::when_wrong(
        report.schema_version != PROBE_SCHEMA_VERSION,
        "unsupported probe schema version "@ + crate::text::decimal(report.schema_version as nat),
    );
    let redaction = crate::trace::when_wrong(
        !report.redaction.enabled,
        "probe report redaction must be enabled"@,
    );
    let prefix = crate::trace::when_wrong(
        report.identity.serial_prefix is Some && !is_short_prefix(
            report.identity.serial_prefix->0@,
        ),
        "serial prefix is not a short alphanumeric prefix"@,
    );
    let serial = crate::trace::when_wrong(
        report.identity.serial_redacted is Some && !is_redacted_serial(
            report.identity.serial_redacted->0@,
        ),
        "serial identity is not in the required redacted form"@,
    );
    let screens = all_framebuffer_violations(report.framebuffers@);
    crate::text::either_list_holds(version, redaction);
    crate::text::either_list_holds(version + redaction, prefix);
    crate::text::either_list_holds(version + redaction + prefix, serial);
    crate::text::either_list_holds(version + redaction + prefix + serial, screens);
    assert(report.violations() == version + redaction + prefix + serial + screens);
    crate::trace::one_error_is_held(
        report.schema_version != PROBE_SCHEMA_VERSION,
        "unsupported probe schema version "@ + crate::text::decimal(report.schema_version as nat),
    );
    crate::trace::one_error_is_held(
        !report.redaction.enabled,
        "probe report redaction must be enabled"@,
    );
    crate::trace::one_error_is_held(
        report.identity.serial_prefix is Some && !is_short_prefix(
            report.identity.serial_prefix->0@,
        ),
        "serial prefix is not a short alphanumeric prefix"@,
    );
    crate::trace::one_error_is_held(
        report.identity.serial_redacted is Some && !is_redacted_serial(
            report.identity.serial_redacted->0@,
        ),
        "serial identity is not in the required redacted form"@,
    );
    let geometry = framebuffer.device@ + " has zero visible geometry"@;
    let stride = framebuffer.device@ + " line_length "@ + crate::text::decimal(
        framebuffer.line_length as nat,
    ) + " is smaller than minimum "@ + crate::text::decimal(minimum_stride(framebuffer) as nat);
    let empty = framebuffer.visible_width == 0 || framebuffer.visible_height == 0;
    let short = framebuffer.line_length < minimum_stride(framebuffer);
    crate::trace::one_error_is_held(empty, geometry);
    crate::trace::one_error_is_held(short, stride);
    crate::text::either_list_holds(
        crate::trace::when_wrong(empty, geometry),
        crate::trace::when_wrong(short, stride),
    );
}

} // verus!
