//! Clocks, sleep states, supplies, lights and kernel nodes.

use crate::probe::{
    FrontLightCapability, KernelNodeCapability, PowerCapability, PowerSupplyCapability,
    RtcCapability, SuspendCapability,
};
use crate::processes::parse_u32;
use crate::redaction::redact_text;
use crate::text::{from_chars, push_string, push_text, slices, split_words, to_chars, trim, CharSet};
use vstd::prelude::*;

verus! {

/// Whether the name of a kernel file, property or script may be reported.
pub open spec fn is_kernel_name(name: Seq<char>) -> bool {
    1 <= name.len() <= 128 && CharSet::KernelName.covers(name)
}

/// Tests whether the name of a kernel file, property or script may be
/// reported.
pub fn safe_kernel_name(value: &str) -> (held: bool)
    ensures
        held == is_kernel_name(value@),
{
    let chars: Vec<char> = to_chars(value);
    1 <= chars.len() && chars.len() <= 128 && CharSet::KernelName.test_all(chars.as_slice())
}

/// Keeps the names that may be reported.
pub fn safe_names(names: &Vec<String>) -> (kept: Vec<String>)
    ensures
        crate::text::texts(kept@) == crate::text::texts(names@).filter(
            |name: Seq<char>| is_kernel_name(name),
        ),
{
    let ghost all = crate::text::texts(names@);
    let ghost pred = |name: Seq<char>| is_kernel_name(name);
    let mut kept: Vec<String> = Vec::new();
    proof {
        reveal(Seq::filter);
    }
    assert(crate::text::texts(kept@) =~= all.take(0).filter(pred));
    for i in 0..names.len()
        invariant
            all == crate::text::texts(names@),
            pred == (|name: Seq<char>| is_kernel_name(name)),
            crate::text::texts(kept@) == all.take(i as int).filter(pred),
    {
        proof {
            reveal(Seq::filter);
        }
        assert(all.take(i + 1).drop_last() =~= all.take(i as int));
        assert(all.take(i + 1).last() == names@[i as int]@);
        if safe_kernel_name(names[i].as_str()) {
            push_text(&mut kept, names[i].as_str());
        }
    }
    assert(all.take(all.len() as int) =~= all);
    kept
}

/// A mode without the brackets that mark the current one, unless nothing is
/// left of it.
pub open spec fn bare_mode(word: Seq<char>) -> Option<Seq<char>> {
    let mode = crate::text::trimmed(word, CharSet::Either('[', ']'));
    if mode.len() > 0 {
        Some(mode)
    } else {
        None
    }
}

/// The modes that a mode file offers.
pub open spec fn modes(value: Seq<char>) -> Seq<Seq<char>> {
    crate::text::words(value).filter_map(|word: Seq<char>| bare_mode(word))
}

/// Splits a mode file into its modes.
pub fn split_modes(value: &str) -> (list: Vec<String>)
    ensures
        crate::text::texts(list@) == modes(value@),
{
    let chars: Vec<char> = to_chars(value);
    let words: Vec<&[char]> = split_words(chars.as_slice());
    let ghost all = crate::text::words(value@);
    let ghost bare = |word: Seq<char>| bare_mode(word);
    let mut list: Vec<String> = Vec::new();
    assert(crate::text::texts(list@) =~= all.take(0).filter_map(bare));
    for i in 0..words.len()
        invariant
            all == slices(words@),
            bare == (|word: Seq<char>| bare_mode(word)),
            crate::text::texts(list@) == all.take(i as int).filter_map(bare),
    {
        let ghost before = crate::text::texts(list@);
        assert(all.take(i + 1).drop_last() =~= all.take(i as int));
        assert(all.take(i + 1).last() == words@[i as int]@);
        let mode: &[char] = trim(words[i], CharSet::Either('[', ']'));
        if mode.len() > 0 {
            push_string(&mut list, from_chars(mode));
            assert(before.push(mode@) =~= before + seq![mode@]);
        }
    }
    assert(all.take(all.len() as int) =~= all);
    list
}

/// Describes a real-time clock from what is known of its alarm file.
pub fn describe_rtc(name: &str, exists: bool, readable: bool, writable: bool) -> (rtc:
    RtcCapability)
    ensures
        rtc.name@ == name@,
        crate::text::optional_text(rtc.wakealarm) == (if exists {
            Some("/sys/class/rtc/"@ + name@ + "/wakealarm"@)
        } else {
            None
        }),
        rtc.wakealarm_readable == (exists && readable),
        rtc.wakealarm_has_write_permission_bits == (exists && writable),
{
    let wakealarm: Option<String> = if exists {
        let mut path: String = "/sys/class/rtc/".to_owned();
        path.append(name);
        path.append("/wakealarm");
        Some(path)
    } else {
        None
    };
    RtcCapability {
        name: name.to_owned(),
        wakealarm,
        wakealarm_readable: exists && readable,
        wakealarm_has_write_permission_bits: exists && writable,
    }
}

/// The modes of a mode file that may not be there.
pub open spec fn optional_modes(value: Option<Seq<char>>) -> Seq<Seq<char>> {
    match value {
        Some(value) => modes(value),
        None => seq![],
    }
}

fn split_optional_modes(value: &Option<String>) -> (list: Vec<String>)
    ensures
        crate::text::texts(list@) == optional_modes(crate::text::optional_text(*value)),
{
    match value {
        Some(value) => split_modes(value.as_str()),
        None => {
            let list: Vec<String> = Vec::new();
            assert(crate::text::texts(list@) =~= seq![]);
            list
        },
    }
}

fn path_when(exists: bool, path: &str) -> (found: Option<String>)
    ensures
        crate::text::optional_text(found) == (if exists {
            Some(path@)
        } else {
            None
        }),
{
    if exists {
        Some(path.to_owned())
    } else {
        None
    }
}

/// Describes the sleep states from the two mode files.
pub fn describe_suspend(
    state_exists: bool,
    state: &Option<String>,
    mem_sleep_exists: bool,
    mem_sleep: &Option<String>,
) -> (suspend: SuspendCapability)
    ensures
        crate::text::optional_text(suspend.state_path) == (if state_exists {
            Some("/sys/power/state"@)
        } else {
            None
        }),
        crate::text::texts(suspend.states@) == optional_modes(crate::text::optional_text(*state)),
        crate::text::optional_text(suspend.mem_sleep_path) == (if mem_sleep_exists {
            Some("/sys/power/mem_sleep"@)
        } else {
            None
        }),
        crate::text::texts(suspend.mem_sleep_modes@) == optional_modes(
            crate::text::optional_text(*mem_sleep),
        ),
{
    SuspendCapability {
        state_path: path_when(state_exists, "/sys/power/state"),
        states: split_optional_modes(state),
        mem_sleep_path: path_when(mem_sleep_exists, "/sys/power/mem_sleep"),
        mem_sleep_modes: split_optional_modes(mem_sleep),
    }
}

/// Describes a battery or charger from its type and the names of its property
/// files.
pub fn describe_supply(name: &str, supply_type: &Option<String>, properties: &Vec<String>) -> (
    supply: PowerSupplyCapability)
    ensures
        supply.name@ == name@,
        crate::text::optional_text(supply.supply_type) == (match crate::text::optional_text(
            *supply_type,
        ) {
            Some(value) => Some(crate::redaction::redacted_text(value)),
            None => None,
        }),
        crate::text::texts(supply.properties@) == crate::text::texts(properties@).filter(
            |name: Seq<char>| is_kernel_name(name),
        ),
{
    let supply_type: Option<String> = match supply_type {
        Some(value) => Some(redact_text(value.as_str())),
        None => None,
    };
    PowerSupplyCapability {
        name: name.to_owned(),
        supply_type,
        properties: safe_names(properties),
    }
}

/// Describes a front light from its brightest level and the files it has.
pub fn describe_light(
    name: &str,
    max_brightness: &Option<String>,
    has_brightness: bool,
    has_actual_brightness: bool,
) -> (light: FrontLightCapability)
    ensures
        light.name@ == name@,
        light.path@ == "/sys/class/backlight/"@ + name@,
        light.max_brightness == (match crate::text::optional_text(*max_brightness) {
            Some(value) => crate::processes::number_u32(value),
            None => None,
        }),
        light.brightness_property_available == has_brightness,
        light.actual_brightness_property_available == has_actual_brightness,
{
    let mut path: String = "/sys/class/backlight/".to_owned();
    path.append(name);
    let max_brightness: Option<u32> = match max_brightness {
        Some(value) => parse_u32(value.as_str()),
        None => None,
    };
    FrontLightCapability {
        name: name.to_owned(),
        path,
        max_brightness,
        brightness_property_available: has_brightness,
        actual_brightness_property_available: has_actual_brightness,
    }
}

/// The battery nodes of older kernels.
pub open spec fn battery_paths() -> Seq<&'static str> {
    seq![
        "/sys/devices/system/yoshi_battery/yoshi_battery0/battery_capacity",
        "/sys/devices/platform/fsl-usb2-udc/charging",
        "/sys/devices/platform/aplite_charger.0/charging",
        "/sys/devices/system/wario_battery/wario_battery0/battery_capacity",
        "/sys/devices/system/wario_charger/wario_charger0/charging",
    ]
}

/// Returns the battery nodes of older kernels.
pub fn legacy_battery_paths() -> (paths: Vec<&'static str>)
    ensures
        paths@ == battery_paths(),
{
    let paths: Vec<&'static str> = vec![
        "/sys/devices/system/yoshi_battery/yoshi_battery0/battery_capacity",
        "/sys/devices/platform/fsl-usb2-udc/charging",
        "/sys/devices/platform/aplite_charger.0/charging",
        "/sys/devices/system/wario_battery/wario_battery0/battery_capacity",
        "/sys/devices/system/wario_charger/wario_charger0/charging",
    ];
    assert(paths@ =~= battery_paths());
    paths
}

/// The nodes of cover sensors.
pub open spec fn hall_paths() -> Seq<&'static str> {
    seq![
        "/sys/devices/platform/eink_hall/hall_enable",
        "/sys/devices/system/wario_hall/wario_hall0/hall_enable",
        "/sys/devices/system/heisenberg_hall/heisenberg_hall0/hall_enable",
        "/sys/bus/platform/drivers/hall_sensor/rex_hall/hall_enable",
    ]
}

/// Returns the nodes of cover sensors.
pub fn hall_sensor_paths() -> (paths: Vec<&'static str>)
    ensures
        paths@ == hall_paths(),
{
    let paths: Vec<&'static str> = vec![
        "/sys/devices/platform/eink_hall/hall_enable",
        "/sys/devices/system/wario_hall/wario_hall0/hall_enable",
        "/sys/devices/system/heisenberg_hall/heisenberg_hall0/hall_enable",
        "/sys/bus/platform/drivers/hall_sensor/rex_hall/hall_enable",
    ];
    assert(paths@ =~= hall_paths());
    paths
}

/// The nodes of deep sleep.
pub open spec fn sleep_paths() -> Seq<&'static str> {
    seq![
        "/sys/devices/platform/falconblk/uevent",
        "/var/local/system/powerd/hibernate_session_tracker",
    ]
}

/// Returns the nodes of deep sleep.
pub fn deep_sleep_paths() -> (paths: Vec<&'static str>)
    ensures
        paths@ == sleep_paths(),
{
    let paths: Vec<&'static str> = vec![
        "/sys/devices/platform/falconblk/uevent",
        "/var/local/system/powerd/hibernate_session_tracker",
    ];
    assert(paths@ =~= sleep_paths());
    paths
}

/// What is known of one kernel node.
#[derive(Debug, Clone, Copy, PartialEq, Eq, Structural)]
pub struct NodeState {
    /// Whether the file exists.
    pub exists: bool,
    /// Whether it could be opened for reading.
    pub readable: bool,
    /// Whether its mode has a write bit.
    pub writable: bool,
}

/// What is reported of one kernel node.
pub struct KernelNode {
    /// File path.
    pub path: Seq<char>,
    /// Whether it could be opened for reading.
    pub readable: bool,
    /// Whether its mode has a write bit.
    pub writable: bool,
}

impl View for KernelNodeCapability {
    type V = KernelNode;

    open spec fn view(&self) -> KernelNode {
        KernelNode {
            path: self.path@,
            readable: self.readable,
            writable: self.has_write_permission_bits,
        }
    }
}

/// What is reported of each kernel node.
pub open spec fn kernel_nodes(list: Seq<KernelNodeCapability>) -> Seq<KernelNode> {
    list.map_values(|node: KernelNodeCapability| node@)
}

/// What is reported of the first `n` nodes: those that exist.
pub open spec fn existing_nodes(paths: Seq<&'static str>, states: Seq<NodeState>, n: int) -> Seq<
    KernelNode,
>
    decreases n,
{
    if n <= 0 {
        seq![]
    } else {
        let before = existing_nodes(paths, states, n - 1);
        let state = states[n - 1];
        if state.exists {
            before.push(
                KernelNode {
                    path: paths[n - 1]@,
                    readable: state.readable,
                    writable: state.writable,
                },
            )
        } else {
            before
        }
    }
}

/// Describes the kernel nodes that exist.
pub fn collect_kernel_nodes(paths: &Vec<&'static str>, states: &Vec<NodeState>) -> (list: Vec<
    KernelNodeCapability,
>)
    requires
        paths@.len() == states@.len(),
    ensures
        kernel_nodes(list@) == existing_nodes(paths@, states@, paths@.len() as int),
{
    let mut list: Vec<KernelNodeCapability> = Vec::new();
    assert(kernel_nodes(list@) =~= existing_nodes(paths@, states@, 0));
    for i in 0..paths.len()
        invariant
            paths@.len() == states@.len(),
            kernel_nodes(list@) == existing_nodes(paths@, states@, i as int),
    {
        let ghost before = kernel_nodes(list@);
        let state: NodeState = states[i];
        if state.exists {
            let node: KernelNodeCapability = KernelNodeCapability {
                path: paths[i].to_owned(),
                readable: state.readable,
                has_write_permission_bits: state.writable,
            };
            list.push(node);
            assert(kernel_nodes(list@) =~= before.push(node@));
        }
    }
    list
}

// ---------------------------------------------------------------------------
// Everything together
// ---------------------------------------------------------------------------
/// What is known of one real-time clock.
#[derive(Debug, Clone, PartialEq, Eq)]
pub struct RtcFacts {
    /// Clock name.
    pub name: String,
    /// Whether it has an alarm file.
    pub exists: bool,
    /// Whether the alarm file could be opened for reading.
    pub readable: bool,
    /// Whether the mode of the alarm file has a write bit.
    pub writable: bool,
}

/// What is known of one battery or charger.
#[derive(Debug, Clone, PartialEq, Eq)]
pub struct SupplyFacts {
    /// Supply name.
    pub name: String,
    /// Supply type.
    pub supply_type: Option<String>,
    /// Names of its files.
    pub files: Vec<String>,
}

/// What is known of one front light.
#[derive(Debug, Clone, PartialEq, Eq)]
pub struct LightFacts {
    /// Light name.
    pub name: String,
    /// Text of its brightest level.
    pub max_brightness: Option<String>,
    /// Whether the requested level has a file.
    pub has_brightness: bool,
    /// Whether the actual level has a file.
    pub has_actual_brightness: bool,
}

/// What could be read of clocks, sleep states, supplies, lights and nodes.
#[derive(Debug, Clone, PartialEq, Eq)]
pub struct PowerFacts {
    /// Clocks.
    pub rtcs: Vec<RtcFacts>,
    /// Whether the state file exists.
    pub state_exists: bool,
    /// Text of the state file.
    pub state: Option<String>,
    /// Whether the memory sleep file exists.
    pub mem_sleep_exists: bool,
    /// Text of the memory sleep file.
    pub mem_sleep: Option<String>,
    /// Supplies.
    pub supplies: Vec<SupplyFacts>,
    /// Lights.
    pub lights: Vec<LightFacts>,
    /// States of the battery nodes.
    pub battery_nodes: Vec<NodeState>,
    /// States of the cover sensor nodes.
    pub hall_nodes: Vec<NodeState>,
    /// States of the deep sleep nodes.
    pub sleep_nodes: Vec<NodeState>,
}

/// What is reported of one real-time clock.
pub struct Rtc {
    /// Clock name.
    pub name: Seq<char>,
    /// Alarm file.
    pub wakealarm: Option<Seq<char>>,
    /// Whether the alarm file could be opened for reading.
    pub readable: bool,
    /// Whether the mode of the alarm file has a write bit.
    pub writable: bool,
}

impl View for RtcCapability {
    type V = Rtc;

    open spec fn view(&self) -> Rtc {
        Rtc {
            name: self.name@,
            wakealarm: crate::text::optional_text(self.wakealarm),
            readable: self.wakealarm_readable,
            writable: self.wakealarm_has_write_permission_bits,
        }
    }
}

impl RtcFacts {
    /// What is reported of the clock; only numbered clocks are.
    pub open spec fn described(self) -> Option<Rtc> {
        if crate::trace::is_numbered(self.name@, "rtc"@) {
            Some(
                Rtc {
                    name: self.name@,
                    wakealarm: if self.exists {
                        Some("/sys/class/rtc/"@ + self.name@ + "/wakealarm"@)
                    } else {
                        None
                    },
                    readable: self.exists && self.readable,
                    writable: self.exists && self.writable,
                },
            )
        } else {
            None
        }
    }
}

/// What is reported of each clock.
pub open spec fn rtcs(list: Seq<RtcCapability>) -> Seq<Rtc> {
    list.map_values(|rtc: RtcCapability| rtc@)
}

fn collect_rtcs(facts: &Vec<RtcFacts>) -> (list: Vec<RtcCapability>)
    ensures
        rtcs(list@) == facts@.filter_map(|rtc: RtcFacts| rtc.described()),
{
    let ghost describe = |rtc: RtcFacts| rtc.described();
    let mut list: Vec<RtcCapability> = Vec::new();
    assert(rtcs(list@) =~= facts@.take(0).filter_map(describe));
    for i in 0..facts.len()
        invariant
            describe == (|rtc: RtcFacts| rtc.described()),
            rtcs(list@) == facts@.take(i as int).filter_map(describe),
    {
        let ghost before = rtcs(list@);
        assert(facts@.take(i + 1).drop_last() =~= facts@.take(i as int));
        let rtc: &RtcFacts = &facts[i];
        if crate::inputs::is_numbered_name(rtc.name.as_str(), "rtc") {
            let described: RtcCapability = describe_rtc(
                rtc.name.as_str(),
                rtc.exists,
                rtc.readable,
                rtc.writable,
            );
            list.push(described);
            assert(rtcs(list@) =~= before + seq![described@]);
        }
    }
    assert(facts@.take(facts@.len() as int) =~= facts@);
    list
}

/// Whether a supply is described by what is known of it.
pub open spec fn is_supply_of(supply: PowerSupplyCapability, facts: SupplyFacts) -> bool {
    &&& supply.name@ == facts.name@
    &&& crate::text::optional_text(supply.supply_type) == (match crate::text::optional_text(
        facts.supply_type,
    ) {
        Some(value) => Some(crate::redaction::redacted_text(value)),
        None => None,
    })
    &&& crate::text::texts(supply.properties@) == crate::text::texts(facts.files@).filter(
        |name: Seq<char>| is_kernel_name(name),
    )
}

/// Whether a light is described by what is known of it.
pub open spec fn is_light_of(light: FrontLightCapability, facts: LightFacts) -> bool {
    &&& light.name@ == facts.name@
    &&& light.path@ == "/sys/class/backlight/"@ + facts.name@
    &&& light.max_brightness == (match crate::text::optional_text(facts.max_brightness) {
        Some(value) => crate::processes::number_u32(value),
        None => None,
    })
    &&& light.brightness_property_available == facts.has_brightness
    &&& light.actual_brightness_property_available == facts.has_actual_brightness
}

fn collect_supplies(facts: &Vec<SupplyFacts>) -> (list: Vec<PowerSupplyCapability>)
    ensures
        list@.len() == facts@.len(),
        forall|i: int| 0 <= i < facts@.len() ==> is_supply_of(#[trigger] list@[i], facts@[i]),
{
    let mut list: Vec<PowerSupplyCapability> = Vec::new();
    for i in 0..facts.len()
        invariant
            list@.len() == i,
            forall|j: int| 0 <= j < i ==> is_supply_of(#[trigger] list@[j], facts@[j]),
    {
        list.push(
            describe_supply(facts[i].name.as_str(), &facts[i].supply_type, &facts[i].files),
        );
    }
    list
}

fn collect_lights(facts: &Vec<LightFacts>) -> (list: Vec<FrontLightCapability>)
    ensures
        list@.len() == facts@.len(),
        forall|i: int| 0 <= i < facts@.len() ==> is_light_of(#[trigger] list@[i], facts@[i]),
{
    let mut list: Vec<FrontLightCapability> = Vec::new();
    for i in 0..facts.len()
        invariant
            list@.len() == i,
            forall|j: int| 0 <= j < i ==> is_light_of(#[trigger] list@[j], facts@[j]),
    {
        list.push(
            describe_light(
                facts[i].name.as_str(),
                &facts[i].max_brightness,
                facts[i].has_brightness,
                facts[i].has_actual_brightness,
            ),
        );
    }
    list
}

/// Describes clocks, sleep states, supplies, lights and nodes from what could
/// be read of them. There is one node state for each path of its list.
pub fn collect_power(facts: &PowerFacts) -> (power: PowerCapability)
    requires
        facts.battery_nodes@.len() == 5,
        facts.hall_nodes@.len() == 4,
        facts.sleep_nodes@.len() == 2,
    ensures
        rtcs(power.rtcs@) == facts.rtcs@.filter_map(|rtc: RtcFacts| rtc.described()),
        crate::text::optional_text(power.suspend.state_path) == (if facts.state_exists {
            Some("/sys/power/state"@)
        } else {
            None
        }),
        crate::text::texts(power.suspend.states@) == optional_modes(
            crate::text::optional_text(facts.state),
        ),
        crate::text::optional_text(power.suspend.mem_sleep_path) == (if facts.mem_sleep_exists {
            Some("/sys/power/mem_sleep"@)
        } else {
            None
        }),
        crate::text::texts(power.suspend.mem_sleep_modes@) == optional_modes(
            crate::text::optional_text(facts.mem_sleep),
        ),
        power.power_supplies@.len() == facts.supplies@.len(),
        forall|i: int|
            0 <= i < facts.supplies@.len() ==> is_supply_of(
                #[trigger] power.power_supplies@[i],
                facts.supplies@[i],
            ),
        power.front_lights@.len() == facts.lights@.len(),
        forall|i: int|
            0 <= i < facts.lights@.len() ==> is_light_of(
                #[trigger] power.front_lights@[i],
                facts.lights@[i],
            ),
        kernel_nodes(power.legacy_battery_nodes@) == existing_nodes(
            battery_paths(),
            facts.battery_nodes@,
            5,
        ),
        kernel_nodes(power.hall_sensor_nodes@) == existing_nodes(
            hall_paths(),
            facts.hall_nodes@,
            4,
        ),
        kernel_nodes(power.deep_sleep_nodes@) == existing_nodes(
            sleep_paths(),
            facts.sleep_nodes@,
            2,
        ),
{
    PowerCapability {
        rtcs: collect_rtcs(&facts.rtcs),
        suspend: describe_suspend(
            facts.state_exists,
            &facts.state,
            facts.mem_sleep_exists,
            &facts.mem_sleep,
        ),
        power_supplies: collect_supplies(&facts.supplies),
        front_lights: collect_lights(&facts.lights),
        legacy_battery_nodes: collect_kernel_nodes(
            &legacy_battery_paths(),
            &facts.battery_nodes,
        ),
        hall_sensor_nodes: collect_kernel_nodes(&hall_sensor_paths(), &facts.hall_nodes),
        deep_sleep_nodes: collect_kernel_nodes(&deep_sleep_paths(), &facts.sleep_nodes),
    }
}

/// A kernel name is 1 to 128 letters, digits, dots, underscores, colons, dashes
/// and at signs.
pub proof fn law_kernel_names_are_plain(name: Seq<char>)
    ensures
        is_kernel_name(name) <==> {
            &&& 1 <= name.len() <= 128
            &&& forall|i: int|
                0 <= i < name.len() ==> {
                    let c = #[trigger] name[i];
                    ||| 'a' <= c <= 'z'
                    ||| 'A' <= c <= 'Z'
                    ||| '0' <= c <= '9'
                    ||| c == '.' || c == '_' || c == ':' || c == '-' || c == '@'
                }
        },
{
    if is_kernel_name(name) {
        assert forall|i: int| 0 <= i < name.len() implies {
            let c = #[trigger] name[i];
            ||| 'a' <= c <= 'z'
            ||| 'A' <= c <= 'Z'
            ||| '0' <= c <= '9'
            ||| c == '.' || c == '_' || c == ':' || c == '-' || c == '@'
        } by {
            assert(CharSet::KernelName.has(name[i]));
        }
    }
}

/// A mode is the same with brackets around it and without, and brackets alone
/// are no mode.
pub proof fn law_brackets_only_mark_a_mode(mode: Seq<char>)
    requires
        mode.len() > 0,
        mode[0] != '[' && mode[0] != ']',
        mode.last() != '[' && mode.last() != ']',
    ensures
        bare_mode(mode) == Some(mode),
        bare_mode(seq!['['] + mode + seq![']']) == Some(mode),
        bare_mode(seq!['[', ']']) is None,
{
    let set = CharSet::Either('[', ']');
    let none = Seq::<char>::empty();
    crate::text::law_trimming_takes_off_both_ends(none, mode, none, set);
    assert(none + mode + none =~= mode);
    crate::text::law_trimming_takes_off_both_ends(seq!['['], mode, seq![']'], set);
    crate::text::law_trimming_takes_off_both_ends(seq!['['], none, seq![']'], set);
    assert(seq!['['] + none + seq![']'] =~= seq!['[', ']']);
}

/// The modes of a line are those of its words, in order.
pub proof fn law_modes_are_the_words_of_a_line(list: Seq<Seq<char>>, word: Seq<char>)
    requires
        forall|i: int|
            0 <= i < list.len() ==> (#[trigger] list[i]).len() > 0
                && CharSet::NotWhitespace.covers(list[i]),
        word.len() > 0,
        CharSet::NotWhitespace.covers(word),
    ensures
        modes(crate::text::joined(list.push(word), seq![' '])) == modes(
            crate::text::joined(list, seq![' ']),
        ) + (match bare_mode(word) {
            Some(mode) => seq![mode],
            None => seq![],
        }),
        modes(crate::text::joined(Seq::<Seq<char>>::empty(), seq![' '])) == Seq::<
            Seq<char>,
        >::empty(),
        optional_modes(None) == Seq::<Seq<char>>::empty(),
{
    let longer = list.push(word);
    assert forall|i: int| 0 <= i < longer.len() implies (#[trigger] longer[i]).len() > 0
        && CharSet::NotWhitespace.covers(longer[i]) by {
        if i < list.len() {
            assert(longer[i] == list[i]);
        }
    }
    crate::text::law_joined_words_are_found_again(list);
    crate::text::law_joined_words_are_found_again(longer);
    crate::text::law_joined_words_are_found_again(Seq::<Seq<char>>::empty());
    assert(longer.drop_last() =~= list);
}

/// Exactly the nodes that exist are listed, with what their state says.
pub proof fn law_existing_nodes_are_listed(
    paths: Seq<&'static str>,
    states: Seq<NodeState>,
    n: int,
    node: KernelNode,
)
    requires
        0 <= n <= paths.len(),
        n <= states.len(),
    ensures
        existing_nodes(paths, states, n).contains(node) <==> exists|i: int|
            0 <= i < n && (#[trigger] states[i]).exists && node.path == paths[i]@ && node.readable
                == states[i].readable && node.writable == states[i].writable,
        existing_nodes(paths, states, n).len() <= n,
    decreases n,
{
    if n > 0 {
        law_existing_nodes_are_listed(paths, states, n - 1, node);
        let before = existing_nodes(paths, states, n - 1);
        let all = existing_nodes(paths, states, n);
        let state = states[n - 1];
        if before.contains(node) {
            let k = choose|k: int| 0 <= k < before.len() && before[k] == node;
            assert(all[k] == node);
            let i = choose|i: int|
                0 <= i < n - 1 && (#[trigger] states[i]).exists && node.path == paths[i]@
                    && node.readable == states[i].readable && node.writable == states[i].writable;
            assert(states[i].exists);
        } else {
            if all.contains(node) {
                let k = choose|k: int| 0 <= k < all.len() && all[k] == node;
                if k < before.len() {
                    assert(before[k] == node);
                    assert(before.contains(node));
                }
                assert(state.exists);
            }
            if state.exists && node.path == paths[n - 1]@ && node.readable == state.readable
                && node.writable == state.writable {
                assert(all.last() == node);
                assert(all[all.len() - 1] == node);
            }
        }
    }
}

/// A clock is described exactly when its name is `rtc` and a number; without a
/// wake alarm nothing of one can be read or written.
pub proof fn law_clocks_are_numbered(facts: RtcFacts)
    ensures
        facts.described() is Some <==> (exists|number: Seq<char>|
            number.len() > 0 && CharSet::Digit.covers(number) && facts.name@
                == #[trigger] ("rtc"@ + number)),
        facts.described() matches Some(rtc) ==> {
            &&& rtc.name == facts.name@
            &&& rtc.wakealarm is Some <==> facts.exists
            &&& rtc.wakealarm matches Some(path) ==> path == "/sys/class/rtc/"@ + facts.name@
                + "/wakealarm"@
            &&& rtc.readable <==> facts.exists && facts.readable
            &&& rtc.writable <==> facts.exists && facts.writable
        },
{
    reveal_strlit("rtc");
    let name = facts.name@;
    let prefix = "rtc"@;
    assert(prefix.len() == 3);
    if facts.described() is Some {
        let number = name.skip(3);
        assert(name =~= name.subrange(0, 3) + number);
        assert(name == prefix + number);
    }
    if exists|number: Seq<char>|
        number.len() > 0 && CharSet::Digit.covers(number) && name == #[trigger] (prefix
            + number) {
        let number = choose|number: Seq<char>|
            number.len() > 0 && CharSet::Digit.covers(number) && name == #[trigger] (prefix
                + number);
        assert(name.subrange(0, 3) =~= prefix);
        assert(name.skip(3) =~= number);
    }
}

/// A light is described at its own path, with the brightness that its file holds
/// in decimal and with the properties that are there.
pub proof fn law_lights_are_described_by_their_files(
    light: FrontLightCapability,
    facts: LightFacts,
)
    requires
        is_light_of(light, facts),
    ensures
        light.name@ == facts.name@,
        light.path@ == "/sys/class/backlight/"@ + facts.name@,
        facts.max_brightness is None ==> light.max_brightness is None,
        facts.max_brightness matches Some(text) ==> light.max_brightness
            == crate::processes::number_u32(text@),
        light.brightness_property_available == facts.has_brightness,
        light.actual_brightness_property_available == facts.has_actual_brightness,
{
}

/// A supply is described by its kind, redacted, and by its files of proper names.
pub proof fn law_supplies_are_described_by_their_files(
    supply: PowerSupplyCapability,
    facts: SupplyFacts,
    name: Seq<char>,
)
    requires
        is_supply_of(supply, facts),
    ensures
        supply.name@ == facts.name@,
        supply.supply_type is Some <==> facts.supply_type is Some,
        facts.supply_type matches Some(kind) ==> supply.supply_type->0@
            == crate::redaction::redacted_text(kind@),
        crate::text::texts(supply.properties@).contains(name) <==> crate::text::texts(
            facts.files@,
        ).contains(name) && is_kernel_name(name),
{
    broadcast use vstd::seq_lib::group_filter_ensures;

    let all = crate::text::texts(facts.files@);
    let pred = |name: Seq<char>| is_kernel_name(name);
    let kept = crate::text::texts(supply.properties@);
    assert(kept == all.filter(pred));
    if kept.contains(name) {
        all.lemma_filter_contains_rev(pred, name);
        let i = choose|i: int| 0 <= i < kept.len() && kept[i] == name;
        assert(pred(kept[i]));
    }
    if all.contains(name) && is_kernel_name(name) {
        let i = choose|i: int| 0 <= i < all.len() && all[i] == name;
        assert(pred(all[i]));
        assert(kept.contains(all[i]));
    }
}

/// Nodes are looked for at these paths, of which no two are the same.
pub proof fn law_nodes_are_looked_for_at_known_paths()
    ensures
        battery_paths().len() == 5 && hall_paths().len() == 4 && sleep_paths().len() == 2,
        battery_paths()[0]@
            == "/sys/devices/system/yoshi_battery/yoshi_battery0/battery_capacity"@,
        battery_paths()[1]@ == "/sys/devices/platform/fsl-usb2-udc/charging"@,
        battery_paths()[2]@ == "/sys/devices/platform/aplite_charger.0/charging"@,
        battery_paths()[3]@
            == "/sys/devices/system/wario_battery/wario_battery0/battery_capacity"@,
        battery_paths()[4]@ == "/sys/devices/system/wario_charger/wario_charger0/charging"@,
        hall_paths()[0]@ == "/sys/devices/platform/eink_hall/hall_enable"@,
        hall_paths()[1]@ == "/sys/devices/system/wario_hall/wario_hall0/hall_enable"@,
        hall_paths()[2]@ == "/sys/devices/system/heisenberg_hall/heisenberg_hall0/hall_enable"@,
        hall_paths()[3]@ == "/sys/bus/platform/drivers/hall_sensor/rex_hall/hall_enable"@,
        sleep_paths()[0]@ == "/sys/devices/platform/falconblk/uevent"@,
        sleep_paths()[1]@ == "/var/local/system/powerd/hibernate_session_tracker"@,
{
}

} // verus!
