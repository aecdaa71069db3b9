//! Input devices: capability bitmaps, axis codes and the kernel's device list.

use crate::number::read_unsigned;
use crate::pattern::split_at_every;
use crate::probe::{InputAxisCapability, InputDeviceCapability, InputDeviceId, ProbeWarning};
use crate::redaction::redact_text;
use crate::string_map::StringMap;
use crate::text::{
    from_chars, join_slices, slices, spells, split_lines, split_once, split_words, strip_prefix,
    to_chars, to_lower, trim, CharSet,
};
use crate::trace::numbered;
use crate::warning::warn;
use vstd::prelude::*;
use vstd::slice::slice_subrange;

verus! {

/// What is reported of one input device.
pub struct InputDevice {
    /// The device path.
    pub device: Seq<char>,
    /// The device name.
    pub name: Option<Seq<char>>,
    /// Bus and product numbers.
    pub id: InputDeviceId,
    /// Capability bitmaps by kind.
    pub capabilities: Map<Seq<char>, Seq<char>>,
    /// Absolute axes that answered.
    pub axes: Seq<InputAxisCapability>,
}

/// The characters of each value.
pub open spec fn value_texts(map: Map<Seq<char>, String>) -> Map<Seq<char>, Seq<char>> {
    map.map_values(|value: String| value@)
}

impl View for InputDeviceCapability {
    type V = InputDevice;

    open spec fn view(&self) -> InputDevice {
        InputDevice {
            device: self.device@,
            name: crate::text::optional_text(self.name),
            id: self.id,
            capabilities: value_texts(self.capabilities@),
            axes: self.axes@,
        }
    }
}

/// What is reported of each input device.
pub open spec fn devices(list: Seq<InputDeviceCapability>) -> Seq<InputDevice> {
    list.map_values(|device: InputDeviceCapability| device@)
}

/// Tests whether `value` is `prefix` followed by decimal digits and nothing
/// else.
pub fn is_numbered_name(value: &str, prefix: &str) -> (held: bool)
    ensures
        held == crate::trace::is_numbered(value@, prefix@),
{
    numbered(value, prefix)
}

// ---------------------------------------------------------------------------
// Axis codes
// ---------------------------------------------------------------------------
/// Whether a capability bitmap has the bit of an axis code set: the last word
/// of the bitmap holds the lowest codes.
pub open spec fn has_axis_bit(words: Seq<Seq<char>>, word_bits: u32, code: u16) -> bool {
    let index = code as int / word_bits as int;
    let bit = code as int % word_bits as int;
    index < words.len() && {
        let value = crate::number::at_most(
            crate::number::unsigned_value(words[words.len() - 1 - index], 16),
            u64::MAX as nat,
        );
        value is Some && (value->0 as u64) & (1u64 << (bit as u64)) != 0
    }
}

/// The axis codes 0 to 63 whose bit a capability bitmap has set.
pub open spec fn axis_codes(bitmap: Seq<char>, word_bits: u32) -> Seq<u16> {
    if 1 <= word_bits <= 64 {
        Seq::new(64, |i: int| i as u16).filter(
            |code: u16| has_axis_bit(crate::text::words(bitmap), word_bits, code),
        )
    } else {
        seq![]
    }
}

fn test_axis_bit(words: &Vec<&[char]>, word_bits: u32, code: u16) -> (held: bool)
    requires
        1 <= word_bits <= 64,
    ensures
        held == has_axis_bit(slices(words@), word_bits, code),
{
    let index: usize = (code as u32 / word_bits) as usize;
    let bit: u64 = (code as u32 % word_bits) as u64;
    if index >= words.len() {
        return false;
    }
    assert(slices(words@)[words@.len() - 1 - index] == words@[words@.len() - 1 - index]@);
    match read_unsigned(words[words.len() - 1 - index], 16, u64::MAX) {
        Some(word) => word & (1u64 << bit) != 0,
        None => false,
    }
}

/// Decodes a capability bitmap, whose words are hexadecimal and come most
/// significant first, into the axis codes from 0 to 63.
pub fn input_axis_codes(bitmap: &str, word_bits: u32) -> (codes: Vec<u16>)
    ensures
        codes@ == axis_codes(bitmap@, word_bits),
{
    let mut codes: Vec<u16> = Vec::new();
    if word_bits < 1 || word_bits > 64 {
        assert(codes@ =~= axis_codes(bitmap@, word_bits));
        return codes;
    }
    let chars: Vec<char> = to_chars(bitmap);
    let words: Vec<&[char]> = split_words(chars.as_slice());
    let ghost pred = |code: u16| has_axis_bit(crate::text::words(bitmap@), word_bits, code);
    let ghost all = Seq::new(64, |i: int| i as u16);
    proof {
        reveal(Seq::filter);
    }
    assert(codes@ =~= all.take(0).filter(pred));
    for code in 0..64u16
        invariant
            1 <= word_bits <= 64,
            all == Seq::new(64, |i: int| i as u16),
            slices(words@) == crate::text::words(bitmap@),
            pred == (|code: u16| has_axis_bit(crate::text::words(bitmap@), word_bits, code)),
            codes@ == all.take(code as int).filter(pred),
    {
        proof {
            reveal(Seq::filter);
        }
        assert(all.take(code + 1).drop_last() =~= all.take(code as int));
        assert(all.take(code + 1).last() == code);
        if test_axis_bit(&words, word_bits, code) {
            codes.push(code);
        }
    }
    assert(all.take(64) =~= all);
    codes
}

/// The axis codes that a device's capabilities advertise.
pub open spec fn advertised(capabilities: Map<Seq<char>, Seq<char>>) -> Seq<u16> {
    if capabilities.contains_key("abs"@) {
        axis_codes(capabilities["abs"@], usize::BITS)
    } else {
        seq![]
    }
}

/// Returns the axis codes that a device's capabilities advertise.
pub fn advertised_input_axis_codes(capabilities: &StringMap<String>) -> (codes: Vec<u16>)
    ensures
        codes@ == advertised(value_texts(capabilities@)),
{
    match capabilities.get("abs") {
        Some(bitmap) => input_axis_codes(bitmap.as_str(), usize::BITS),
        None => {
            let codes: Vec<u16> = Vec::new();
            assert(codes@ =~= advertised(value_texts(capabilities@)));
            codes
        },
    }
}

/// The name of an axis, where it is known.
pub open spec fn known_axis(code: u16) -> Option<Seq<char>> {
    if code == 0x00 {
        Some("abs_x"@)
    } else if code == 0x01 {
        Some("abs_y"@)
    } else if code == 0x2f {
        Some("abs_mt_slot"@)
    } else if code == 0x35 {
        Some("abs_mt_position_x"@)
    } else if code == 0x36 {
        Some("abs_mt_position_y"@)
    } else if code == 0x39 {
        Some("abs_mt_tracking_id"@)
    } else {
        None
    }
}

/// Returns the name of an axis, where it is known.
pub fn axis_name(code: u16) -> (name: Option<String>)
    ensures
        crate::text::optional_text(name) == known_axis(code),
{
    if code == 0x00 {
        Some("abs_x".to_owned())
    } else if code == 0x01 {
        Some("abs_y".to_owned())
    } else if code == 0x2f {
        Some("abs_mt_slot".to_owned())
    } else if code == 0x35 {
        Some("abs_mt_position_x".to_owned())
    } else if code == 0x36 {
        Some("abs_mt_position_y".to_owned())
    } else if code == 0x39 {
        Some("abs_mt_tracking_id".to_owned())
    } else {
        None
    }
}

/// The number of an ioctl: direction, size, group and request number, shifted
/// to their places. What does not fit into its place runs into the others, and
/// what runs past the most significant bit is lost.
pub open spec fn ioctl_number(direction: u32, kind: u8, number: u32, size: u32) -> u32 {
    (direction << 30) | (size << 16) | ((kind as u32) << 8) | number
}

/// Encodes the number of an ioctl.
pub fn ioc(direction: u32, kind: u8, number: u32, size: u32) -> (request: u32)
    ensures
        request == ioctl_number(direction, kind, number, size),
{
    (direction << 30) | (size << 16) | ((kind as u32) << 8) | number
}

/// Fields that fit into their places stand beside each other: direction, size,
/// group and request number, in this order from the most significant bits down.
pub proof fn law_ioctl_fields_stand_side_by_side(
    direction: u32,
    kind: u8,
    number: u32,
    size: u32,
)
    requires
        direction < 4,
        number < 0x100,
        size < 0x4000,
    ensures
        ioctl_number(direction, kind, number, size) == direction * 0x4000_0000 + size * 0x1_0000
            + kind * 0x100 + number,
{
    assert((direction << 30) | (size << 16) | ((kind as u32) << 8) | number == direction
        * 0x4000_0000 + size * 0x1_0000 + kind * 0x100 + number) by (bit_vector)
        requires
            direction < 4,
            number < 0x100,
            size < 0x4000,
    ;
}

/// The number of the request for one absolute axis.
pub fn axis_request(code: u16) -> (request: u32)
    ensures
        request == ioctl_number(2, 0x45, (0x40 + code) as u32, 24),
{
    ioc(2, 0x45, 0x40 + code as u32, 24)
}

// ---------------------------------------------------------------------------
// Devices from their attribute files
// ---------------------------------------------------------------------------
/// The text without any number of `prefix` at its beginning.
pub open spec fn without_prefixes(s: Seq<char>, prefix: Seq<char>) -> Seq<char>
    decreases s.len(),
{
    if prefix.len() > 0 && crate::text::begins(s, prefix) {
        without_prefixes(s.skip(prefix.len() as int), prefix)
    } else {
        s
    }
}

/// The 16-bit number in an attribute file, which `0x` may precede.
pub open spec fn hex_u16(value: Seq<char>) -> Option<u16> {
    match crate::number::at_most(
        crate::number::unsigned_value(without_prefixes(value, "0x"@), 16),
        u16::MAX as nat,
    ) {
        Some(value) => Some(value as u16),
        None => None,
    }
}

/// Reads the 16-bit number in an attribute file.
pub fn read_hex_u16(value: &Option<String>) -> (number: Option<u16>)
    ensures
        number == (match crate::text::optional_text(*value) {
            Some(value) => hex_u16(value),
            None => None,
        }),
{
    match value {
        Some(value) => {
            let chars: Vec<char> = to_chars(value.as_str());
            let mut rest: &[char] = chars.as_slice();
            proof {
                reveal_strlit("0x");
            }
            loop
                invariant_except_break
                    "0x"@.len() == 2,
                    without_prefixes(rest@, "0x"@) == without_prefixes(value@, "0x"@),
                ensures
                    rest@ == without_prefixes(value@, "0x"@),
                decreases rest@.len(),
            {
                match strip_prefix(rest, "0x") {
                    Some(shorter) => {
                        rest = shorter;
                    },
                    None => {
                        break;
                    },
                }
            }
            match read_unsigned(rest, 16, 65_535) {
                Some(number) => Some(number as u16),
                None => None,
            }
        },
        None => None,
    }
}

/// A capability file: its name and what it holds.
#[derive(Debug, Clone, PartialEq, Eq)]
pub struct CapabilityFile {
    /// File name.
    pub name: String,
    /// Trimmed contents.
    pub value: String,
}

/// The capabilities in the first `n` files: a file counts when it holds
/// hexadecimal words only.
pub open spec fn capabilities_of(files: Seq<CapabilityFile>, n: int) -> Map<Seq<char>, Seq<char>>
    decreases n,
{
    if n <= 0 {
        Map::empty()
    } else {
        let file = files[n - 1];
        let before = capabilities_of(files, n - 1);
        if CharSet::HexOrSpace.covers(file.value@) {
            before.insert(
                file.name@,
                crate::text::joined(crate::text::words(file.value@), seq![' ']),
            )
        } else {
            before
        }
    }
}

/// Collects the capabilities of a device from its capability files.
pub fn collect_input_capabilities(files: &Vec<CapabilityFile>) -> (capabilities: StringMap<String>)
    ensures
        value_texts(capabilities@) == capabilities_of(files@, files@.len() as int),
{
    let mut capabilities: StringMap<String> = StringMap::new();
    assert(value_texts(capabilities@) =~= capabilities_of(files@, 0));
    for i in 0..files.len()
        invariant
            value_texts(capabilities@) == capabilities_of(files@, i as int),
    {
        let ghost before = capabilities@;
        let chars: Vec<char> = to_chars(files[i].value.as_str());
        if CharSet::HexOrSpace.test_all(chars.as_slice()) {
            let bits: String = from_chars(
                join_slices(&split_words(chars.as_slice())).as_slice(),
            );
            capabilities.insert(files[i].name.clone(), bits);
            assert(value_texts(capabilities@) =~= value_texts(before).insert(
                files@[i as int].name@,
                bits@,
            ));
        }
    }
    capabilities
}

/// What the attribute files of one input device hold.
#[derive(Debug, Clone, PartialEq, Eq)]
pub struct InputAttributes {
    /// Event name, such as `event1`.
    pub event: String,
    /// Trimmed device name.
    pub name: Option<String>,
    /// Bus number.
    pub bus: Option<String>,
    /// Vendor number.
    pub vendor: Option<String>,
    /// Product number.
    pub product: Option<String>,
    /// Version number.
    pub version: Option<String>,
    /// Capability files.
    pub capabilities: Vec<CapabilityFile>,
}

/// The number in an optional attribute file.
pub open spec fn optional_hex(value: Option<String>) -> Option<u16> {
    match crate::text::optional_text(value) {
        Some(value) => hex_u16(value),
        None => None,
    }
}

impl InputAttributes {
    /// The device that the attribute files describe, without its axes.
    pub open spec fn described(self) -> InputDevice {
        InputDevice {
            device: "/dev/input/"@ + self.event@,
            name: match crate::text::optional_text(self.name) {
                Some(name) => Some(crate::redaction::redacted_text(name)),
                None => None,
            },
            id: InputDeviceId {
                bus: optional_hex(self.bus),
                vendor: optional_hex(self.vendor),
                product: optional_hex(self.product),
                version: optional_hex(self.version),
            },
            capabilities: capabilities_of(self.capabilities@, self.capabilities@.len() as int),
            axes: seq![],
        }
    }

    /// Describes the device, without its axes.
    pub fn describe(&self) -> (device: InputDeviceCapability)
        ensures
            device@ == self.described(),
    {
        let name: Option<String> = match &self.name {
            Some(name) => Some(redact_text(name.as_str())),
            None => None,
        };
        let mut path: String = "/dev/input/".to_owned();
        path.append(self.event.as_str());
        let device: InputDeviceCapability = InputDeviceCapability {
            device: path,
            name,
            id: InputDeviceId {
                bus: read_hex_u16(&self.bus),
                vendor: read_hex_u16(&self.vendor),
                product: read_hex_u16(&self.product),
                version: read_hex_u16(&self.version),
            },
            capabilities: collect_input_capabilities(&self.capabilities),
            axes: Vec::new(),
        };
        assert(device.axes@ =~= seq![]);
        device
    }
}

// ---------------------------------------------------------------------------
// Devices from the kernel's device list
// ---------------------------------------------------------------------------
/// What a block of the kernel's device list says.
pub struct ProcDevice {
    /// The device name.
    pub name: Option<Seq<char>>,
    /// Bus and product numbers.
    pub id: InputDeviceId,
    /// The event handler.
    pub event: Option<Seq<char>>,
    /// Capability bitmaps by kind.
    pub capabilities: Map<Seq<char>, Seq<char>>,
}

/// A hexadecimal 16-bit number.
pub open spec fn plain_hex_u16(value: Seq<char>) -> Option<u16> {
    match crate::number::at_most(crate::number::unsigned_value(value, 16), u16::MAX as nat) {
        Some(value) => Some(value as u16),
        None => None,
    }
}

/// The numbers after one item of an identity line.
pub open spec fn id_after(id: InputDeviceId, item: Seq<char>) -> InputDeviceId {
    match crate::text::split_first(item, '=') {
        Some((key, value)) => if key == "Bus"@ {
            InputDeviceId { bus: plain_hex_u16(value), ..id }
        } else if key == "Vendor"@ {
            InputDeviceId { vendor: plain_hex_u16(value), ..id }
        } else if key == "Product"@ {
            InputDeviceId { product: plain_hex_u16(value), ..id }
        } else if key == "Version"@ {
            InputDeviceId { version: plain_hex_u16(value), ..id }
        } else {
            id
        },
        None => id,
    }
}

/// The numbers after the first `n` items of an identity line.
pub open spec fn id_after_all(id: InputDeviceId, items: Seq<Seq<char>>, n: int) -> InputDeviceId
    decreases n,
{
    if n <= 0 {
        id
    } else {
        id_after(id_after_all(id, items, n - 1), items[n - 1])
    }
}

/// The first event handler of a handler line.
pub open spec fn first_event(handlers: Seq<Seq<char>>) -> Option<Seq<char>>
    decreases handlers.len(),
{
    if handlers.len() == 0 {
        None
    } else if crate::trace::is_numbered(handlers[0], "event"@) {
        Some(handlers[0])
    } else {
        first_event(handlers.skip(1))
    }
}

impl ProcDevice {
    /// A block without lines.
    pub open spec fn blank() -> ProcDevice {
        ProcDevice {
            name: None,
            id: InputDeviceId { bus: None, vendor: None, product: None, version: None },
            event: None,
            capabilities: Map::empty(),
        }
    }

    /// What the block says after one more line. Physical paths and unique
    /// identifiers are ignored.
    pub open spec fn after(self, line: Seq<char>) -> ProcDevice {
        match (
            crate::text::after_prefix(line, "N: Name="@),
            crate::text::after_prefix(line, "I: "@),
            crate::text::after_prefix(line, "H: Handlers="@),
            crate::text::after_prefix(line, "B: "@),
        ) {
            (Some(value), _, _, _) => ProcDevice {
                name: Some(
                    crate::redaction::redacted_text(
                        crate::text::trimmed(value, CharSet::Only('"')),
                    ),
                ),
                ..self
            },
            (None, Some(value), _, _) => {
                let items = crate::text::words(value);
                ProcDevice { id: id_after_all(self.id, items, items.len() as int), ..self }
            },
            (None, None, Some(value), _) => ProcDevice {
                event: first_event(crate::text::words(value)),
                ..self
            },
            (None, None, None, Some(value)) => match crate::text::split_first(value, '=') {
                Some((kind, bits)) => if CharSet::HexOrSpace.covers(bits) {
                    ProcDevice {
                        capabilities: self.capabilities.insert(
                            crate::text::lowered(kind),
                            crate::text::joined(crate::text::words(bits), seq![' ']),
                        ),
                        ..self
                    }
                } else {
                    self
                },
                None => self,
            },
            (None, None, None, None) => self,
        }
    }

    /// What the block says after its first `n` lines.
    pub open spec fn after_all(lines: Seq<Seq<char>>, n: int) -> ProcDevice
        decreases n,
    {
        if n <= 0 {
            ProcDevice::blank()
        } else {
            ProcDevice::after_all(lines, n - 1).after(lines[n - 1])
        }
    }

    /// The device that a block describes, without its axes; a block without an
    /// event handler describes none.
    pub open spec fn device_of(block: Seq<char>) -> Option<InputDevice> {
        let rows = crate::text::lines(block);
        let facts = ProcDevice::after_all(rows, rows.len() as int);
        match facts.event {
            Some(event) => Some(
                InputDevice {
                    device: "/dev/input/"@ + event,
                    name: facts.name,
                    id: facts.id,
                    capabilities: facts.capabilities,
                    axes: seq![],
                },
            ),
            None => None,
        }
    }
}

/// What was read of a block so far.
struct ProcReader {
    name: Option<String>,
    id: InputDeviceId,
    event: Option<String>,
    capabilities: StringMap<String>,
}

impl View for ProcReader {
    type V = ProcDevice;

    closed spec fn view(&self) -> ProcDevice {
        ProcDevice {
            name: crate::text::optional_text(self.name),
            id: self.id,
            event: crate::text::optional_text(self.event),
            capabilities: value_texts(self.capabilities@),
        }
    }
}

fn read_plain_hex(value: &[char]) -> (number: Option<u16>)
    ensures
        number == plain_hex_u16(value@),
{
    match read_unsigned(value, 16, 65_535) {
        Some(number) => Some(number as u16),
        None => None,
    }
}

fn read_ids(id: InputDeviceId, value: &[char]) -> (after: InputDeviceId)
    ensures
        after == id_after_all(
            id,
            crate::text::words(value@),
            crate::text::words(value@).len() as int,
        ),
{
    let items: Vec<&[char]> = split_words(value);
    let ghost all = crate::text::words(value@);
    let mut after: InputDeviceId = id;
    for i in 0..items.len()
        invariant
            all == slices(items@),
            after == id_after_all(id, all, i as int),
    {
        assert(all[i as int] == items@[i as int]@);
        if let Some((key, value)) = split_once(items[i], '=') {
            let parsed: Option<u16> = read_plain_hex(value);
            if spells(key, "Bus") {
                after = InputDeviceId { bus: parsed, ..after };
            } else if spells(key, "Vendor") {
                after = InputDeviceId { vendor: parsed, ..after };
            } else if spells(key, "Product") {
                after = InputDeviceId { product: parsed, ..after };
            } else if spells(key, "Version") {
                after = InputDeviceId { version: parsed, ..after };
            }
        }
    }
    after
}

fn find_event(value: &[char]) -> (event: Option<String>)
    ensures
        crate::text::optional_text(event) == first_event(crate::text::words(value@)),
{
    let handlers: Vec<&[char]> = split_words(value);
    let ghost all = crate::text::words(value@);
    assert(all.skip(0) =~= all);
    for i in 0..handlers.len()
        invariant
            all == slices(handlers@),
            all == crate::text::words(value@),
            first_event(all) == first_event(all.skip(i as int)),
    {
        assert(all.skip(i as int)[0] == handlers@[i as int]@);
        let handler: String = from_chars(handlers[i]);
        if numbered(handler.as_str(), "event") {
            return Some(handler);
        }
        assert(all.skip(i as int).skip(1) =~= all.skip(i + 1));
    }
    None
}

impl ProcReader {
    fn new() -> (reader: Self)
        ensures
            reader@ == ProcDevice::blank(),
    {
        let reader: Self = ProcReader {
            name: None,
            id: InputDeviceId { bus: None, vendor: None, product: None, version: None },
            event: None,
            capabilities: StringMap::new(),
        };
        assert(value_texts(reader.capabilities@) =~= Map::<Seq<char>, Seq<char>>::empty());
        reader
    }

    fn read_line(&mut self, line: &[char])
        ensures
            final(self)@ == old(self)@.after(line@),
    {
        if let Some(value) = strip_prefix(line, "N: Name=") {
            self.name = Some(
                redact_text(from_chars(trim(value, CharSet::Only('"'))).as_str()),
            );
        } else if let Some(value) = strip_prefix(line, "I: ") {
            self.id = read_ids(self.id, value);
        } else if let Some(value) = strip_prefix(line, "H: Handlers=") {
            self.event = find_event(value);
        } else if let Some(value) = strip_prefix(line, "B: ") {
            if let Some((kind, bits)) = split_once(value, '=') {
                if CharSet::HexOrSpace.test_all(bits) {
                    let ghost before = self.capabilities@;
                    let joined: String = from_chars(join_slices(&split_words(bits)).as_slice());
                    let key: String = from_chars(to_lower(kind).as_slice());
                    self.capabilities.insert(key, joined);
                    assert(value_texts(self.capabilities@) =~= value_texts(before).insert(
                        key@,
                        joined@,
                    ));
                }
            }
        }
    }

    fn read_block(block: &[char]) -> (reader: Self)
        ensures
            ({
                let rows = crate::text::lines(block@);
                reader@ == ProcDevice::after_all(rows, rows.len() as int)
            }),
    {
        let rows: Vec<&[char]> = split_lines(block);
        let ghost all = crate::text::lines(block@);
        let mut reader: Self = ProcReader::new();
        for i in 0..rows.len()
            invariant
                all == slices(rows@),
                reader@ == ProcDevice::after_all(all, i as int),
        {
            assert(all[i as int] == rows@[i as int]@);
            reader.read_line(rows[i]);
        }
        reader
    }

    fn into_device(self) -> (device: Option<InputDeviceCapability>)
        ensures
            match device {
                Some(device) => {
                    &&& self@.event is Some
                    &&& device@ == (InputDevice {
                        device: "/dev/input/"@ + self@.event->0,
                        name: self@.name,
                        id: self@.id,
                        capabilities: self@.capabilities,
                        axes: seq![],
                    })
                },
                None => self@.event is None,
            },
    {
        match self.event {
            Some(event) => {
                let mut path: String = "/dev/input/".to_owned();
                path.append(event.as_str());
                let axes: Vec<InputAxisCapability> = Vec::new();
                assert(axes@ =~= seq![]);
                Some(
                    InputDeviceCapability {
                        device: path,
                        name: self.name,
                        id: self.id,
                        capabilities: self.capabilities,
                        axes,
                    },
                )
            },
            None => None,
        }
    }
}

/// Reads the kernel's device list: one device for each block with an event
/// handler. The axes are left empty.
pub fn parse_proc_input_devices(contents: &str) -> (list: Vec<InputDeviceCapability>)
    ensures
        devices(list@) == crate::pattern::split_at_all(contents@, "\n\n"@).filter_map(
            |block: Seq<char>| ProcDevice::device_of(block),
        ),
{
    proof {
        reveal_strlit("\n\n");
    }
    let chars: Vec<char> = to_chars(contents);
    let blocks: Vec<&[char]> = split_at_every(chars.as_slice(), "\n\n");
    let ghost all = crate::pattern::split_at_all(contents@, "\n\n"@);
    let ghost device_of = |block: Seq<char>| ProcDevice::device_of(block);
    let mut list: Vec<InputDeviceCapability> = Vec::new();
    assert(devices(list@) =~= all.take(0).filter_map(device_of));
    for i in 0..blocks.len()
        invariant
            all == slices(blocks@),
            device_of == (|block: Seq<char>| ProcDevice::device_of(block)),
            devices(list@) == all.take(i as int).filter_map(device_of),
    {
        assert(all.take(i + 1).drop_last() =~= all.take(i as int));
        assert(all.take(i + 1).last() == blocks@[i as int]@);
        let ghost before = devices(list@);
        match ProcReader::read_block(blocks[i]).into_device() {
            Some(device) => {
                list.push(device);
                assert(devices(list@) =~= before + seq![device@]);
            },
            None => {},
        }
    }
    assert(all.take(all.len() as int) =~= all);
    list
}

/// The devices that attribute files describe: those with a numbered event name.
pub open spec fn attributed(attributes: Seq<InputAttributes>) -> Seq<InputDevice> {
    attributes.filter_map(
        |device: InputAttributes|
            if crate::trace::is_numbered(device.event@, "event"@) {
                Some(device.described())
            } else {
                None
            },
    )
}

/// Describes the input devices, without their axes: those with attribute files,
/// or where there are none, those of the kernel's device list.
pub fn collect_inputs(attributes: &Vec<InputAttributes>, listed: &Option<String>) -> (list: Vec<
    InputDeviceCapability,
>)
    ensures
        devices(list@) == (if attributed(attributes@).len() > 0 {
            attributed(attributes@)
        } else {
            match crate::text::optional_text(*listed) {
                Some(contents) => crate::pattern::split_at_all(contents, "\n\n"@).filter_map(
                    |block: Seq<char>| ProcDevice::device_of(block),
                ),
                None => seq![],
            }
        }),
{
    let ghost describe = |device: InputAttributes|
        if crate::trace::is_numbered(device.event@, "event"@) {
            Some(device.described())
        } else {
            None
        };
    let mut list: Vec<InputDeviceCapability> = Vec::new();
    assert(devices(list@) =~= attributes@.take(0).filter_map(describe));
    for i in 0..attributes.len()
        invariant
            describe == (|device: InputAttributes|
                if crate::trace::is_numbered(device.event@, "event"@) {
                    Some(device.described())
                } else {
                    None
                }),
            devices(list@) == attributes@.take(i as int).filter_map(describe),
    {
        let ghost before = devices(list@);
        assert(attributes@.take(i + 1).drop_last() =~= attributes@.take(i as int));
        if is_numbered_name(attributes[i].event.as_str(), "event") {
            let device: InputDeviceCapability = attributes[i].describe();
            list.push(device);
            assert(devices(list@) =~= before + seq![device@]);
        }
    }
    assert(attributes@.take(attributes@.len() as int) =~= attributes@);
    assert(devices(list@).len() == list@.len());
    if list.len() == 0 {
        if let Some(contents) = listed {
            return parse_proc_input_devices(contents.as_str());
        }
        assert(devices(list@) =~= seq![]);
    }
    list
}

/// Whether a device did not answer for every axis that it advertises.
pub open spec fn is_incomplete(device: InputDevice) -> bool {
    let codes = advertised(device.capabilities);
    codes.len() > 0 && device.axes.len() != codes.len()
}

/// Whether some device did not answer for every axis that it advertises.
pub open spec fn some_incomplete(list: Seq<InputDevice>) -> bool {
    exists|i: int| 0 <= i < list.len() && is_incomplete(#[trigger] list[i])
}

/// Warns when some device did not answer for every axis that it advertises.
pub fn check_inputs(list: &Vec<InputDeviceCapability>, warnings: &mut Vec<ProbeWarning>)
    ensures
        crate::warning::notices(final(warnings)@) == crate::warning::notices(old(warnings)@)
            + crate::warning::when(
            some_incomplete(devices(list@)),
            "input"@,
            "axis_ranges_incomplete"@,
            "one or more input devices could not answer read-only EVIOCGABS queries"@,
        ),
{
    let mut incomplete: bool = false;
    let ghost all = devices(list@);
    for i in 0..list.len()
        invariant
            all == devices(list@),
            incomplete == exists|j: int| 0 <= j < i && is_incomplete(#[trigger] all[j]),
    {
        assert(all[i as int] == list@[i as int]@);
        let codes: Vec<u16> = advertised_input_axis_codes(&list[i].capabilities);
        if codes.len() > 0 && list[i].axes.len() != codes.len() {
            incomplete = true;
            assert(is_incomplete(all[i as int]));
        }
    }
    if incomplete {
        warn(
            warnings,
            "input",
            "axis_ranges_incomplete",
            "one or more input devices could not answer read-only EVIOCGABS queries",
        );
    }
    assert(!incomplete ==> crate::warning::notices(warnings@) =~= crate::warning::notices(
        old(warnings)@,
    ) + seq![]);
}

// ---------------------------------------------------------------------------
// What devices tell
// ---------------------------------------------------------------------------
/// The words of a bitmap stand with the lowest last, each in hexadecimal digits:
/// an axis is there exactly when the word that counts its bit has it.
pub proof fn law_axis_bits_count_from_the_last_word(
    words: Seq<Seq<char>>,
    word_bits: u32,
    index: nat,
    bit: nat,
    code: u16,
)
    requires
        1 <= word_bits <= 64,
        bit < word_bits,
        code as int == index as int * word_bits as int + bit as int,
    ensures
        has_axis_bit(words, word_bits, code) <==> index < words.len() && (
        crate::number::unsigned_value(words[words.len() - 1 - index], 16) matches Some(value)
            && value <= 0xffff_ffff_ffff_ffff && (value as int / vstd::arithmetic::power2::pow2(
            bit,
        ) as int) % 2 == 1),
{
    vstd::arithmetic::div_mod::lemma_fundamental_div_mod_converse(
        code as int,
        word_bits as int,
        index as int,
        bit as int,
    );
    if index < words.len() {
        if let Some(value) = crate::number::unsigned_value(words[words.len() - 1 - index], 16) {
            if value <= 0xffff_ffff_ffff_ffff {
                let v = value as u64;
                let b = bit as u64;
                assert((v & (1u64 << b) != 0) <==> ((v >> b) % 2 == 1)) by (bit_vector)
                    requires
                        b < 64,
                ;
                vstd::bits::lemma_u64_shr_is_div(v, b);
            }
        }
    }
}

/// The axis codes of a bitmap ascend, and are exactly those below 64 that it has;
/// words of no known width tell none.
pub proof fn law_axis_codes_are_those_of_the_bitmap(bitmap: Seq<char>, word_bits: u32, code: u16)
    ensures
        axis_codes(bitmap, word_bits).contains(code) <==> 1 <= word_bits <= 64 && code < 64
            && has_axis_bit(crate::text::words(bitmap), word_bits, code),
        forall|i: int, j: int|
            0 <= i < j < axis_codes(bitmap, word_bits).len() ==> #[trigger] axis_codes(
                bitmap,
                word_bits,
            )[i] < #[trigger] axis_codes(bitmap, word_bits)[j],
{
    if 1 <= word_bits <= 64 {
        let all = Seq::new(64, |i: int| i as u16);
        let pred = |code: u16| has_axis_bit(crate::text::words(bitmap), word_bits, code);
        let codes = axis_codes(bitmap, word_bits);
        assert(codes == all.filter(pred));
        broadcast use vstd::seq_lib::group_filter_ensures;

        if code < 64 && pred(code) {
            assert(all[code as int] == code);
            assert(codes.contains(all[code as int]));
        }
        if codes.contains(code) {
            all.lemma_filter_contains_rev(pred, code);
            let k = choose|k: int| 0 <= k < codes.len() && codes[k] == code;
            assert(pred(codes[k]));
            let i = choose|i: int| 0 <= i < all.len() && all[i] == code;
            assert(code < 64);
        }
        assert(all.take(64) =~= all);
        filtered_codes_ascend(all, pred, 64);
    }
}

proof fn filtered_codes_ascend(all: Seq<u16>, pred: spec_fn(u16) -> bool, n: int)
    requires
        0 <= n <= all.len(),
        forall|i: int| 0 <= i < all.len() ==> #[trigger] all[i] == i,
    ensures
        forall|i: int| 0 <= i < all.take(n).filter(pred).len() ==> #[trigger] all.take(n).filter(
            pred,
        )[i] < n,
        forall|i: int, j: int|
            0 <= i < j < all.take(n).filter(pred).len() ==> #[trigger] all.take(n).filter(pred)[i]
                < #[trigger] all.take(n).filter(pred)[j],
    decreases n,
{
    reveal(Seq::filter);
    if n > 0 {
        filtered_codes_ascend(all, pred, n - 1);
        assert(all.take(n).drop_last() =~= all.take(n - 1));
        assert(all.take(n).last() == n - 1);
        let before = all.take(n - 1).filter(pred);
        let now = all.take(n).filter(pred);
        assert(now == before || now == before.push((n - 1) as u16));
        assert forall|i: int, j: int| 0 <= i < j < now.len() implies #[trigger] now[i]
            < #[trigger] now[j] by {
            assert(now[i] == before[i]);
            if j < before.len() {
                assert(now[j] == before[j]);
            }
        }
        assert forall|i: int| 0 <= i < now.len() implies #[trigger] now[i] < n by {
            if i < before.len() {
                assert(now[i] == before[i]);
            }
        }
    }
}

/// A device advertises the axes of its `abs` bitmap and no others.
pub proof fn law_axes_are_advertised_by_one_bitmap(capabilities: Map<Seq<char>, Seq<char>>)
    ensures
        capabilities.contains_key("abs"@) ==> advertised(capabilities) == axis_codes(
            capabilities["abs"@],
            usize::BITS,
        ),
        !capabilities.contains_key("abs"@) ==> advertised(capabilities) == Seq::<u16>::empty(),
{
}

/// Six axes have a name.
pub proof fn law_six_axes_are_named(code: u16)
    ensures
        known_axis(0x00) == Some("abs_x"@),
        known_axis(0x01) == Some("abs_y"@),
        known_axis(0x2f) == Some("abs_mt_slot"@),
        known_axis(0x35) == Some("abs_mt_position_x"@),
        known_axis(0x36) == Some("abs_mt_position_y"@),
        known_axis(0x39) == Some("abs_mt_tracking_id"@),
        known_axis(code) is Some <==> code == 0 || code == 1 || code == 47 || code == 53 || code
            == 54 || code == 57,
{
}

/// Identifiers are hexadecimal numbers of 16 bits, which `0x` may precede.
pub proof fn law_identifiers_are_hexadecimal(digits: Seq<char>)
    requires
        !crate::text::begins(digits, "0x"@),
    ensures
        hex_u16("0x"@ + digits) == hex_u16(digits),
        hex_u16(digits) == plain_hex_u16(digits),
        match crate::number::unsigned_value(digits, 16) {
            Some(value) => if value <= 0xffff {
                plain_hex_u16(digits) == Some(value as u16)
            } else {
                plain_hex_u16(digits) is None
            },
            None => plain_hex_u16(digits) is None,
        },
{
    reveal_strlit("0x");
    assert("0x"@.len() == 2);
    crate::text::law_finding_is_cutting_out(Seq::empty(), "0x"@, digits);
    let whole = "0x"@ + digits;
    assert(whole.skip(2) =~= digits);
    assert(without_prefixes(digits, "0x"@) == digits);
    assert(without_prefixes(whole, "0x"@) == without_prefixes(digits, "0x"@));
}

/// A capability is known exactly when a file of its name holds hexadecimal words,
/// and the last such file tells it, with single spaces between its words.
pub proof fn law_the_last_capability_file_counts(
    files: Seq<CapabilityFile>,
    n: int,
    name: Seq<char>,
)
    requires
        0 <= n <= files.len(),
    ensures
        capabilities_of(files, n).contains_key(name) <==> exists|i: int|
            0 <= i < n && (#[trigger] files[i]).name@ == name && CharSet::HexOrSpace.covers(
                files[i].value@,
            ),
        capabilities_of(files, n).contains_key(name) ==> exists|i: int|
            0 <= i < n && (#[trigger] files[i]).name@ == name && CharSet::HexOrSpace.covers(
                files[i].value@,
            ) && capabilities_of(files, n)[name] == crate::text::joined(
                crate::text::words(files[i].value@),
                seq![' '],
            ) && forall|j: int|
                i < j < n ==> !((#[trigger] files[j]).name@ == name && CharSet::HexOrSpace.covers(
                    files[j].value@,
                )),
    decreases n,
{
    if n > 0 {
        law_the_last_capability_file_counts(files, n - 1, name);
        let file = files[n - 1];
        let before = capabilities_of(files, n - 1);
        if file.name@ == name && CharSet::HexOrSpace.covers(file.value@) {
            let i = n - 1;
            assert(files[i].name@ == name);
        } else if before.contains_key(name) {
            let i = choose|i: int|
                0 <= i < n - 1 && (#[trigger] files[i]).name@ == name
                    && CharSet::HexOrSpace.covers(files[i].value@) && before[name]
                    == crate::text::joined(crate::text::words(files[i].value@), seq![' '])
                    && forall|j: int|
                    i < j < n - 1 ==> !((#[trigger] files[j]).name@ == name
                        && CharSet::HexOrSpace.covers(files[j].value@));
            assert(files[i].name@ == name);
            assert(capabilities_of(files, n)[name] == before[name]);
        }
    }
}

/// A device has the path of its event, a redacted name and four identifiers, and
/// no axes yet.
pub proof fn law_devices_are_described_by_their_files(device: InputAttributes)
    ensures
        ({
            let described = device.described();
            &&& described.device == "/dev/input/"@ + device.event@
            &&& described.name is Some <==> device.name is Some
            &&& device.name matches Some(name) ==> described.name == Some(
                crate::redaction::redacted_text(name@),
            )
            &&& described.id.bus is Some <==> device.bus is Some && hex_u16(
                device.bus->0@,
            ) is Some
            &&& described.id.bus is Some ==> described.id.bus == hex_u16(device.bus->0@)
            &&& described.id.vendor is Some <==> device.vendor is Some && hex_u16(
                device.vendor->0@,
            ) is Some
            &&& described.id.vendor is Some ==> described.id.vendor == hex_u16(device.vendor->0@)
            &&& described.id.product is Some <==> device.product is Some && hex_u16(
                device.product->0@,
            ) is Some
            &&& described.id.product is Some ==> described.id.product == hex_u16(
                device.product->0@,
            )
            &&& described.id.version is Some <==> device.version is Some && hex_u16(
                device.version->0@,
            ) is Some
            &&& described.id.version is Some ==> described.id.version == hex_u16(
                device.version->0@,
            )
            &&& described.axes.len() == 0
            &&& described.capabilities == capabilities_of(
                device.capabilities@,
                device.capabilities@.len() as int,
            )
        }),
{
}

/// An item of a device's identity sets the identifier that it names.
pub proof fn law_identity_items_set_one_identifier(
    id: InputDeviceId,
    key: Seq<char>,
    value: Seq<char>,
)
    requires
        !key.contains('='),
    ensures
        ({
            let after = id_after(id, key + seq!['='] + value);
            let number = plain_hex_u16(value);
            &&& after.bus == (if key == "Bus"@ {
                number
            } else {
                id.bus
            })
            &&& after.vendor == (if key == "Vendor"@ {
                number
            } else {
                id.vendor
            })
            &&& after.product == (if key == "Product"@ {
                number
            } else {
                id.product
            })
            &&& after.version == (if key == "Version"@ {
                number
            } else {
                id.version
            })
        }),
        id_after(id, key) == id,
{
    reveal_strlit("Bus");
    reveal_strlit("Vendor");
    reveal_strlit("Product");
    reveal_strlit("Version");
    assert("Bus"@.len() == 3 && "Vendor"@.len() == 6);
    assert("Product"@.len() == 7 && "Version"@.len() == 7);
    assert("Product"@[0] == 'P' && "Version"@[0] == 'V');
    crate::text::law_the_first_separator_splits(key, '=', value);
}

/// The first handler that is `event` and a number is the device's event.
pub proof fn law_the_first_event_counts(handlers: Seq<Seq<char>>)
    ensures
        match first_event(handlers) {
            Some(event) => exists|i: int|
                0 <= i < handlers.len() && #[trigger] handlers[i] == event
                    && crate::trace::is_numbered(event, "event"@) && forall|j: int|
                    0 <= j < i ==> !crate::trace::is_numbered(#[trigger] handlers[j], "event"@),
            None => forall|i: int|
                0 <= i < handlers.len() ==> !crate::trace::is_numbered(
                    #[trigger] handlers[i],
                    "event"@,
                ),
        },
    decreases handlers.len(),
{
    if handlers.len() > 0 {
        if crate::trace::is_numbered(handlers[0], "event"@) {
            assert(handlers[0] == handlers[0]);
        } else {
            let rest = handlers.skip(1);
            law_the_first_event_counts(rest);
            match first_event(rest) {
                Some(event) => {
                    let i = choose|i: int|
                        0 <= i < rest.len() && #[trigger] rest[i] == event
                            && crate::trace::is_numbered(event, "event"@) && forall|j: int|
                            0 <= j < i ==> !crate::trace::is_numbered(
                                #[trigger] rest[j],
                                "event"@,
                            );
                    assert(handlers[i + 1] == event);
                    assert forall|j: int| 0 <= j < i + 1 implies !crate::trace::is_numbered(
                        #[trigger] handlers[j],
                        "event"@,
                    ) by {
                        if j > 0 {
                            assert(handlers[j] == rest[j - 1]);
                        }
                    }
                },
                None => {
                    assert forall|i: int| 0 <= i < handlers.len() implies
                        !crate::trace::is_numbered(#[trigger] handlers[i], "event"@) by {
                        if i > 0 {
                            assert(handlers[i] == rest[i - 1]);
                        }
                    }
                },
            }
        }
    }
}

/// A line of the kernel's device list tells the name, the identity, the handlers
/// or a bitmap of its device by its beginning, and otherwise nothing.
pub proof fn law_device_lines_tell_one_thing(
    device: ProcDevice,
    value: Seq<char>,
    kind: Seq<char>,
    bits: Seq<char>,
    line: Seq<char>,
)
    requires
        !kind.contains('='),
    ensures
        device.after("N: Name="@ + value) == (ProcDevice {
            name: Some(
                crate::redaction::redacted_text(
                    crate::text::trimmed(value, CharSet::Only('"')),
                ),
            ),
            ..device
        }),
        device.after("I: "@ + value) == (ProcDevice {
            id: id_after_all(
                device.id,
                crate::text::words(value),
                crate::text::words(value).len() as int,
            ),
            ..device
        }),
        device.after("H: Handlers="@ + value) == (ProcDevice {
            event: first_event(crate::text::words(value)),
            ..device
        }),
        CharSet::HexOrSpace.covers(bits) ==> device.after(
            "B: "@ + (kind + seq!['='] + bits),
        ) == (ProcDevice {
            capabilities: device.capabilities.insert(
                crate::text::lowered(kind),
                crate::text::joined(crate::text::words(bits), seq![' ']),
            ),
            ..device
        }),
        !CharSet::HexOrSpace.covers(bits) ==> device.after("B: "@ + (kind + seq!['='] + bits))
            == device,
        !crate::text::begins(line, "N: Name="@) && !crate::text::begins(line, "I: "@)
            && !crate::text::begins(line, "H: Handlers="@) && !crate::text::begins(line, "B: "@)
            ==> device.after(line) == device,
{
    reveal_strlit("N: Name=");
    reveal_strlit("I: ");
    reveal_strlit("H: Handlers=");
    reveal_strlit("B: ");
    let none = Seq::<char>::empty();
    crate::text::law_finding_is_cutting_out(none, "N: Name="@, value);
    crate::text::law_finding_is_cutting_out(none, "I: "@, value);
    crate::text::law_finding_is_cutting_out(none, "H: Handlers="@, value);
    let told = kind + seq!['='] + bits;
    crate::text::law_finding_is_cutting_out(none, "B: "@, told);
    crate::text::law_the_first_separator_splits(kind, '=', bits);
    beginnings_differ("I: "@ + value, 'I');
    beginnings_differ("H: Handlers="@ + value, 'H');
    beginnings_differ("B: "@ + told, 'B');
    assert(("I: "@ + value)[0] == 'I');
    assert(("H: Handlers="@ + value)[0] == 'H');
    assert(("B: "@ + told)[0] == 'B');
}

proof fn beginnings_differ(line: Seq<char>, first: char)
    requires
        line.len() > 0,
        line[0] == first,
    ensures
        first != 'N' ==> !crate::text::begins(line, "N: Name="@),
        first != 'I' ==> !crate::text::begins(line, "I: "@),
        first != 'H' ==> !crate::text::begins(line, "H: Handlers="@),
        first != 'B' ==> !crate::text::begins(line, "B: "@),
{
    reveal_strlit("N: Name=");
    reveal_strlit("I: ");
    reveal_strlit("H: Handlers=");
    reveal_strlit("B: ");
    assert("N: Name="@.len() == 8 && "I: "@.len() == 3);
    assert("H: Handlers="@.len() == 12 && "B: "@.len() == 3);
    assert("N: Name="@[0] == 'N' && "I: "@[0] == 'I');
    assert("H: Handlers="@[0] == 'H' && "B: "@[0] == 'B');
    if crate::text::begins(line, "N: Name="@) {
        assert(line.subrange(0, 8)[0] == line[0]);
    }
    if crate::text::begins(line, "I: "@) {
        assert(line.subrange(0, 3)[0] == line[0]);
    }
    if crate::text::begins(line, "H: Handlers="@) {
        assert(line.subrange(0, 12)[0] == line[0]);
    }
    if crate::text::begins(line, "B: "@) {
        assert(line.subrange(0, 3)[0] == line[0]);
    }
}

/// A block of the list is a device exactly when its lines name an event; each
/// line is told after those above it, from a device that is told nothing of.
pub proof fn law_blocks_with_an_event_are_devices(block: Seq<char>, lines: Seq<Seq<char>>)
    ensures
        ({
            let rows = crate::text::lines(block);
            let told = ProcDevice::after_all(rows, rows.len() as int);
            let device = ProcDevice::device_of(block);
            &&& device is Some <==> told.event is Some
            &&& device matches Some(device) ==> {
                &&& device.device == "/dev/input/"@ + told.event->0
                &&& device.name == told.name
                &&& device.id == told.id
                &&& device.capabilities == told.capabilities
                &&& device.axes.len() == 0
            }
        }),
        lines.len() > 0 ==> ProcDevice::after_all(lines, lines.len() as int)
            == ProcDevice::after_all(lines, lines.len() - 1).after(lines.last()),
        ({
            let blank = ProcDevice::after_all(lines, 0);
            &&& blank.name is None && blank.event is None
            &&& blank.id.bus is None && blank.id.vendor is None
            &&& blank.id.product is None && blank.id.version is None
            &&& blank.capabilities == Map::<Seq<char>, Seq<char>>::empty()
        }),
{
}

/// Devices that are `event` and a number are described, in order.
pub proof fn law_event_devices_are_described(
    attributes: Seq<InputAttributes>,
    device: InputAttributes,
)
    ensures
        attributed(Seq::<InputAttributes>::empty()) == Seq::<InputDevice>::empty(),
        crate::trace::is_numbered(device.event@, "event"@) ==> attributed(attributes.push(device))
            == attributed(attributes).push(device.described()),
        !crate::trace::is_numbered(device.event@, "event"@) ==> attributed(
            attributes.push(device),
        ) == attributed(attributes),
{
    assert(attributes.push(device).drop_last() =~= attributes);
}

/// A device is incomplete when it advertises axes and not as many are known.
pub proof fn law_missing_axes_are_noticed(list: Seq<InputDevice>)
    ensures
        !some_incomplete(list) <==> forall|i: int|
            0 <= i < list.len() ==> {
                let codes = advertised((#[trigger] list[i]).capabilities);
                codes.len() == 0 || codes.len() == list[i].axes.len()
            },
{
    if !some_incomplete(list) {
        assert forall|i: int| 0 <= i < list.len() implies {
            let codes = advertised((#[trigger] list[i]).capabilities);
            codes.len() == 0 || codes.len() == list[i].axes.len()
        } by {
            assert(!is_incomplete(list[i]));
        }
    }
}

} // verus!
