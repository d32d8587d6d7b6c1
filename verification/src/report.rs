//! The report on the devices of a machine: for each device what it is, what it
//! can do and what the selection made of it.

use crate::info::{DeviceInfo, LayerInfo, MemoryHeapInfo, MemoryTypeInfo, QueueFamilyInfo};
use crate::limits::{limit_lines, write_limit_lines};
use crate::native::{
    device_type_name, device_type_text, extensions_listing, extensions_text, features_listing,
    features_text, instance_extensions_listing, instance_extensions_text, version_name,
    version_text,
};
use crate::selection::{Stage, Verdict};
use crate::text::{
    decimal, digit, either, either_text, labelled, lemma_concat_empty, lemma_concat_twice,
    lower_hex, measured, no_lines, numeral, optional, optional_text, put, put_plain, spell, texts,
    truth, two_hex,
};
use vstd::prelude::*;
use vulkano::instance::InstanceExtensions;

verus! {

/// The lines that open the report on an implementation: its instance
/// extensions, and the heading of its layers.
pub open spec fn implementation_lines(extensions: InstanceExtensions) -> Seq<Seq<char>> {
    seq![
        "Supported instance extensions: "@ + instance_extensions_listing(extensions),
        "Available instance layers:"@,
    ]
}

/// Writes the lines that open the report on an implementation.
pub fn implementation_report(extensions: &InstanceExtensions) -> (lines: Vec<String>)
    ensures
        texts(lines@) == implementation_lines(*extensions),
{
    let mut lines: Vec<String> = Vec::new();
    put(
        &mut lines,
        labelled("Supported instance extensions: ", instance_extensions_text(extensions).as_str()),
    );
    put_plain(&mut lines, "Available instance layers:");
    assert(texts(lines@) =~= implementation_lines(*extensions));
    lines
}

/// The line for an instance layer: its name, what it is for, its version and
/// the API version it was written for.
pub open spec fn layer_line(layer: LayerInfo) -> Seq<char> {
    "    - "@ + layer.name@ + " ("@ + layer.description@ + ") [Version "@ + numeral(
        layer.implementation_version as nat,
        10,
    ) + ", targeting Vulkan v"@ + version_name(layer.vulkan_version) + "]"@
}

/// Writes the line for an instance layer.
pub fn layer_text(layer: &LayerInfo) -> (line: String)
    ensures
        line@ == layer_line(*layer),
{
    let mut line = measured("    - ", layer.name.as_str(), " (");
    line.append(layer.description.as_str());
    line.append(") [Version ");
    line.append(decimal(layer.implementation_version as u64).as_str());
    line.append(", targeting Vulkan v");
    line.append(version_text(&layer.vulkan_version).as_str());
    line.append("]");
    line
}

/// Bytes in base sixteen, two digits each, one after the other.
pub open spec fn hex_bytes(bytes: Seq<u8>) -> Seq<char>
    decreases bytes.len(),
{
    if bytes.len() == 0 {
        Seq::empty()
    } else {
        hex_bytes(bytes.drop_last()) + seq![
            digit(bytes.last() as nat / 16),
            digit(bytes.last() as nat % 16),
        ]
    }
}

/// Writes the identifier of a device in base sixteen.
pub fn uuid_text(uuid: &[u8; 16]) -> (text: String)
    ensures
        text@ == hex_bytes(uuid@),
{
    let mut text = String::new();
    let mut i: usize = 0;
    while i < 16
        invariant
            i <= 16,
            uuid@.len() == 16,
            text@ == hex_bytes(uuid@.take(i as int)),
        decreases 16 - i,
    {
        text.append(two_hex(uuid[i]).as_str());
        proof {
            let longer = uuid@.take(i + 1);
            assert(longer.drop_last() =~= uuid@.take(i as int));
            assert(longer.last() == uuid@[i as int]);
        }
        i += 1;
    }
    assert(uuid@.take(16) =~= uuid@);
    text
}

/// The lines that say what a device is: an empty line, then its number and
/// name, type, driver, PCI identifiers, unique identifier, API version,
/// extensions and features.
pub open spec fn identity_lines(info: DeviceInfo) -> Seq<Seq<char>> {
    seq![
        ""@,
        "Device #"@ + numeral(info.index as nat, 10) + ": "@ + info.name@,
        "Type: "@ + device_type_name(info.ty),
        "Driver version: "@ + numeral(info.driver_version as nat, 10),
        "PCI vendor/device id: 0x"@ + numeral(info.pci_vendor_id as nat, 16) + "/0x"@ + numeral(
            info.pci_device_id as nat,
            16,
        ),
        "UUID: 0x"@ + hex_bytes(info.uuid@),
        "Vulkan API version: "@ + version_name(info.api_version),
        "Supported device extensions: "@ + extensions_listing(info.extensions),
        features_listing(info.features),
    ]
}

/// Adds the lines that say what a device is.
pub fn write_identity_lines(lines: &mut Vec<String>, info: &DeviceInfo)
    ensures
        texts(final(lines)@) == texts(old(lines)@) + identity_lines(*info),
{
    put_plain(lines, "");
    let mut heading = measured("Device #", decimal(info.index as u64).as_str(), ": ");
    heading.append(info.name.as_str());
    put(lines, heading);
    put(lines, labelled("Type: ", device_type_text(info.ty).as_str()));
    put(lines, labelled("Driver version: ", decimal(info.driver_version as u64).as_str()));
    let mut pci = measured(
        "PCI vendor/device id: 0x",
        lower_hex(info.pci_vendor_id).as_str(),
        "/0x",
    );
    pci.append(lower_hex(info.pci_device_id).as_str());
    put(lines, pci);
    put(lines, labelled("UUID: 0x", uuid_text(&info.uuid).as_str()));
    put(lines, labelled("Vulkan API version: ", version_text(&info.api_version).as_str()));
    put(
        lines,
        labelled("Supported device extensions: ", extensions_text(&info.extensions).as_str()),
    );
    put(lines, features_text(&info.features));
    assert(texts(lines@) =~= texts(old(lines)@) + identity_lines(*info));
}

/// The line for a queue family: its identifier, how many queues it has and
/// what they can be used for.
pub open spec fn family_line(family: QueueFamilyInfo) -> Seq<char> {
    "    "@ + numeral(family.id as nat, 10) + ": "@ + numeral(family.queues_count as nat, 10)
        + " queue(s) for "@ + optional(family.supports_graphics, "graphics, "@) + optional(
        family.supports_compute,
        "compute, "@,
    ) + optional(family.supports_transfers, "transfers, "@) + optional(
        family.supports_sparse_binding,
        "sparse resource bindings, "@,
    )
}

/// Writes the line for a queue family.
pub fn family_text(family: &QueueFamilyInfo) -> (line: String)
    ensures
        line@ == family_line(*family),
{
    let mut line = measured("    ", decimal(family.id as u64).as_str(), ": ");
    line.append(decimal(family.queues_count as u64).as_str());
    line.append(" queue(s) for ");
    line.append(optional_text(family.supports_graphics, "graphics, "));
    line.append(optional_text(family.supports_compute, "compute, "));
    line.append(optional_text(family.supports_transfers, "transfers, "));
    line.append(optional_text(family.supports_sparse_binding, "sparse resource bindings, "));
    line
}

/// The line for a memory type: its identifier, its heap, where the memory is
/// and how the host gets at it.
pub open spec fn memory_type_line(memory: MemoryTypeInfo) -> Seq<char> {
    "    "@ + numeral(memory.id as nat, 10) + ": from heap #"@ + numeral(memory.heap_id as nat, 10)
        + ", "@ + either(memory.device_local, "on device, "@, "on host, "@) + either(
        memory.host_visible,
        "host-visible, "@,
        "only accessible by device, "@,
    ) + optional(memory.host_coherent, "host-coherent, "@) + optional(
        memory.host_cached,
        "host-cached, "@,
    ) + optional(memory.lazily_allocated, "lazily allocated, "@)
}

/// Writes the line for a memory type.
pub fn memory_type_text(memory: &MemoryTypeInfo) -> (line: String)
    ensures
        line@ == memory_type_line(*memory),
{
    let mut line = measured("    ", decimal(memory.id as u64).as_str(), ": from heap #");
    line.append(decimal(memory.heap_id as u64).as_str());
    line.append(", ");
    line.append(either_text(memory.device_local, "on device, ", "on host, "));
    line.append(either_text(memory.host_visible, "host-visible, ", "only accessible by device, "));
    line.append(optional_text(memory.host_coherent, "host-coherent, "));
    line.append(optional_text(memory.host_cached, "host-cached, "));
    line.append(optional_text(memory.lazily_allocated, "lazily allocated, "));
    line
}

/// The line for a memory heap: its identifier, its size and where it is.
pub open spec fn memory_heap_line(heap: MemoryHeapInfo) -> Seq<char> {
    "    "@ + numeral(heap.id as nat, 10) + ": "@ + numeral(heap.size as nat, 10) + " bytes, "@
        + either(heap.device_local, "on device, "@, "on host, "@)
}

/// Writes the line for a memory heap.
pub fn memory_heap_text(heap: &MemoryHeapInfo) -> (line: String)
    ensures
        line@ == memory_heap_line(*heap),
{
    let mut line = measured("    ", decimal(heap.id as u64).as_str(), ": ");
    line.append(decimal(heap.size as u64).as_str());
    line.append(" bytes, ");
    line.append(either_text(heap.device_local, "on device, ", "on host, "));
    line
}

/// A heading and one line for each queue family.
pub open spec fn family_lines(families: Seq<QueueFamilyInfo>) -> Seq<Seq<char>> {
    seq!["Queue familie(s):"@] + Seq::new(families.len(), |i: int| family_line(families[i]))
}

/// A heading and one line for each memory type.
pub open spec fn memory_type_lines(memories: Seq<MemoryTypeInfo>) -> Seq<Seq<char>> {
    seq!["Memory type(s):"@] + Seq::new(memories.len(), |i: int| memory_type_line(memories[i]))
}

/// A heading and one line for each memory heap.
pub open spec fn memory_heap_lines(heaps: Seq<MemoryHeapInfo>) -> Seq<Seq<char>> {
    seq!["Memory heap(s):"@] + Seq::new(heaps.len(), |i: int| memory_heap_line(heaps[i]))
}

/// Adds a heading and one line for each queue family.
pub fn write_family_lines(lines: &mut Vec<String>, families: &Vec<QueueFamilyInfo>)
    ensures
        texts(final(lines)@) == texts(old(lines)@) + family_lines(families@),
{
    let ghost start = texts(lines@);
    put_plain(lines, "Queue familie(s):");
    let mut i: usize = 0;
    while i < families.len()
        invariant
            i <= families.len(),
            texts(lines@) == start + (seq!["Queue familie(s):"@] + Seq::new(
                i as nat,
                |k: int| family_line(families@[k]),
            )),
        decreases families.len() - i,
    {
        put(lines, family_text(&families[i]));
        assert(texts(lines@) =~= start + (seq!["Queue familie(s):"@] + Seq::new(
            (i + 1) as nat,
            |k: int| family_line(families@[k]),
        )));
        i += 1;
    }
}

/// Adds a heading and one line for each memory type.
pub fn write_memory_type_lines(lines: &mut Vec<String>, memories: &Vec<MemoryTypeInfo>)
    ensures
        texts(final(lines)@) == texts(old(lines)@) + memory_type_lines(memories@),
{
    let ghost start = texts(lines@);
    put_plain(lines, "Memory type(s):");
    let mut i: usize = 0;
    while i < memories.len()
        invariant
            i <= memories.len(),
            texts(lines@) == start + (seq!["Memory type(s):"@] + Seq::new(
                i as nat,
                |k: int| memory_type_line(memories@[k]),
            )),
        decreases memories.len() - i,
    {
        put(lines, memory_type_text(&memories[i]));
        assert(texts(lines@) =~= start + (seq!["Memory type(s):"@] + Seq::new(
            (i + 1) as nat,
            |k: int| memory_type_line(memories@[k]),
        )));
        i += 1;
    }
}

/// Adds a heading and one line for each memory heap.
pub fn write_memory_heap_lines(lines: &mut Vec<String>, heaps: &Vec<MemoryHeapInfo>)
    ensures
        texts(final(lines)@) == texts(old(lines)@) + memory_heap_lines(heaps@),
{
    let ghost start = texts(lines@);
    put_plain(lines, "Memory heap(s):");
    let mut i: usize = 0;
    while i < heaps.len()
        invariant
            i <= heaps.len(),
            texts(lines@) == start + (seq!["Memory heap(s):"@] + Seq::new(
                i as nat,
                |k: int| memory_heap_line(heaps@[k]),
            )),
        decreases heaps.len() - i,
    {
        put(lines, memory_heap_text(&heaps[i]));
        assert(texts(lines@) =~= start + (seq!["Memory heap(s):"@] + Seq::new(
            (i + 1) as nat,
            |k: int| memory_heap_line(heaps@[k]),
        )));
        i += 1;
    }
}

/// The lines that say what the selection made of a device: whether it passed
/// the filter and, if it did, whether it became the favorite.
pub open spec fn verdict_lines(verdict: Verdict) -> Seq<Seq<char>> {
    if verdict.selected {
        seq!["Selected: "@ + truth(true), "Preferred: "@ + truth(verdict.preferred)]
    } else {
        seq!["Selected: "@ + truth(false)]
    }
}

/// Adds the lines that say what the selection made of a device.
pub fn write_verdict_lines(lines: &mut Vec<String>, verdict: &Verdict)
    ensures
        texts(final(lines)@) == texts(old(lines)@) + verdict_lines(*verdict),
{
    put(lines, labelled("Selected: ", spell(verdict.selected)));
    if verdict.selected {
        put(lines, labelled("Preferred: ", spell(verdict.preferred)));
    }
    assert(texts(lines@) =~= texts(old(lines)@) + verdict_lines(*verdict));
}

/// The lines that say what a device can do: its queue families, memory types,
/// memory heaps and limits.
pub open spec fn capability_lines(info: DeviceInfo) -> Seq<Seq<char>> {
    family_lines(info.queue_families@) + memory_type_lines(info.memory_types@) + memory_heap_lines(
        info.memory_heaps@,
    ) + limit_lines(info.limits)
}

/// Adds the lines that say what a device can do.
pub fn write_capability_lines(lines: &mut Vec<String>, info: &DeviceInfo)
    ensures
        texts(final(lines)@) == texts(old(lines)@) + capability_lines(*info),
{
    let ghost start = texts(lines@);
    let ghost families = family_lines(info.queue_families@);
    let ghost memories = memory_type_lines(info.memory_types@);
    let ghost heaps = memory_heap_lines(info.memory_heaps@);
    let ghost limits = limit_lines(info.limits);
    write_family_lines(lines, &info.queue_families);
    write_memory_type_lines(lines, &info.memory_types);
    write_memory_heap_lines(lines, &info.memory_heaps);
    write_limit_lines(lines, &info.limits);
    proof {
        lemma_concat_twice(start, families, memories);
        lemma_concat_twice(start, families + memories, heaps);
        lemma_concat_twice(start, families + memories + heaps, limits);
    }
}

/// All the lines of the report on one device.
pub open spec fn device_lines(info: DeviceInfo, verdict: Verdict) -> Seq<Seq<char>> {
    identity_lines(info) + capability_lines(info) + verdict_lines(verdict)
}

/// Adds all the lines of the report on one device.
pub fn write_device_lines(lines: &mut Vec<String>, info: &DeviceInfo, verdict: &Verdict)
    ensures
        texts(final(lines)@) == texts(old(lines)@) + device_lines(*info, *verdict),
{
    let ghost start = texts(lines@);
    write_identity_lines(lines, info);
    write_capability_lines(lines, info);
    write_verdict_lines(lines, verdict);
    proof {
        lemma_concat_twice(start, identity_lines(*info), capability_lines(*info));
        lemma_concat_twice(
            start,
            identity_lines(*info) + capability_lines(*info),
            verdict_lines(*verdict),
        );
    }
}

/// What the report says of a device at one moment of its examination: what
/// the device is when it comes up, what it can do once it has proved sound,
/// and what the selection made of it once its verdict is in.
pub open spec fn stage_text(info: DeviceInfo, stage: Stage) -> Seq<Seq<char>> {
    match stage {
        Stage::Found => identity_lines(info),
        Stage::Sound => capability_lines(info),
        Stage::Judged(verdict) => verdict_lines(verdict),
    }
}

/// Writes what the report says of a device at one moment of its examination.
/// A program that logs these lines as the moments come keeps the report in
/// step with the selection.
pub fn stage_lines(info: &DeviceInfo, stage: &Stage) -> (lines: Vec<String>)
    ensures
        texts(lines@) == stage_text(*info, *stage),
{
    let mut lines = no_lines();
    match stage {
        Stage::Found => write_identity_lines(&mut lines, info),
        Stage::Sound => write_capability_lines(&mut lines, info),
        Stage::Judged(verdict) => write_verdict_lines(&mut lines, verdict),
    }
    proof {
        lemma_concat_empty(stage_text(*info, *stage));
    }
    lines
}

/// The line that opens the report on a list of devices.
pub open spec fn opening_text() -> Seq<Seq<char>> {
    seq!["---- BEGINNING OF PHYSICAL DEVICE LIST ----"@]
}

/// The lines that close the report on a list of devices: an empty one and the
/// closing line.
pub open spec fn closing_text() -> Seq<Seq<char>> {
    seq![""@, "---- END OF PHYSICAL DEVICE LIST ----"@]
}

/// The opening line and the lines on the first `n` devices.
pub open spec fn examined_lines(infos: Seq<DeviceInfo>, verdicts: Seq<Verdict>, n: int) -> Seq<
    Seq<char>,
>
    decreases n,
{
    if n <= 0 {
        opening_text()
    } else {
        examined_lines(infos, verdicts, n - 1) + device_lines(infos[n - 1], verdicts[n - 1])
    }
}

/// The number of devices that the report covers in full: those that have both
/// a description and a verdict.
pub open spec fn examined(infos: Seq<DeviceInfo>, verdicts: Seq<Verdict>) -> int {
    if verdicts.len() < infos.len() {
        verdicts.len() as int
    } else {
        infos.len() as int
    }
}

/// The report on a list of devices.
///
/// It opens with a line that says so and goes through the devices in order.
/// Where every device has a verdict, it closes with an empty line and a closing
/// line. Where the verdicts end before the devices do, the examination was
/// given up at the first device without one: of that device the report says
/// what it is, and there it ends.
pub open spec fn list_lines(infos: Seq<DeviceInfo>, verdicts: Seq<Verdict>) -> Seq<Seq<char>> {
    let n = examined(infos, verdicts);
    if n < infos.len() {
        examined_lines(infos, verdicts, n) + identity_lines(infos[n])
    } else {
        examined_lines(infos, verdicts, n) + closing_text()
    }
}

/// The report grows with the examination: the lines on the first `n` devices
/// are those on the devices before the last of them, followed by what the
/// report says of that last one at each of the three moments of its
/// examination.
pub proof fn lemma_report_grows_by_stages(
    infos: Seq<DeviceInfo>,
    verdicts: Seq<Verdict>,
    n: int,
)
    requires
        n >= 1,
    ensures
        examined_lines(infos, verdicts, n) == examined_lines(infos, verdicts, n - 1) + stage_text(
            infos[n - 1],
            Stage::Found,
        ) + stage_text(infos[n - 1], Stage::Sound) + stage_text(
            infos[n - 1],
            Stage::Judged(verdicts[n - 1]),
        ),
{
    let before = examined_lines(infos, verdicts, n - 1);
    let found = identity_lines(infos[n - 1]);
    let sound = capability_lines(infos[n - 1]);
    let judged = verdict_lines(verdicts[n - 1]);
    lemma_concat_twice(before, found, sound);
    lemma_concat_twice(before, found + sound, judged);
}

/// Writes the line that opens the report on a list of devices.
pub fn opening_lines() -> (lines: Vec<String>)
    ensures
        texts(lines@) == opening_text(),
{
    let mut lines = no_lines();
    put_plain(&mut lines, "---- BEGINNING OF PHYSICAL DEVICE LIST ----");
    assert(texts(lines@) =~= opening_text());
    lines
}

/// Adds the lines that close the report on a list of devices.
fn write_closing_lines(lines: &mut Vec<String>)
    ensures
        texts(final(lines)@) == texts(old(lines)@) + closing_text(),
{
    put_plain(lines, "");
    put_plain(lines, "---- END OF PHYSICAL DEVICE LIST ----");
    assert(texts(lines@) =~= texts(old(lines)@) + closing_text());
}

/// Writes the lines that close the report on a list of devices.
pub fn closing_lines() -> (lines: Vec<String>)
    ensures
        texts(lines@) == closing_text(),
{
    let mut lines = no_lines();
    write_closing_lines(&mut lines);
    proof {
        lemma_concat_empty(closing_text());
    }
    lines
}

/// Writes the report on a list of devices, one line per entry of the result.
pub fn device_list_report(infos: &Vec<DeviceInfo>, verdicts: &Vec<Verdict>) -> (lines: Vec<String>)
    ensures
        texts(lines@) == list_lines(infos@, verdicts@),
{
    let n = if verdicts.len() < infos.len() {
        verdicts.len()
    } else {
        infos.len()
    };
    let mut lines = opening_lines();
    let mut i: usize = 0;
    while i < n
        invariant
            i <= n,
            n == examined(infos@, verdicts@),
            texts(lines@) == examined_lines(infos@, verdicts@, i as int),
        decreases n - i,
    {
        write_device_lines(&mut lines, &infos[i], &verdicts[i]);
        i += 1;
    }
    if n < infos.len() {
        write_identity_lines(&mut lines, &infos[n]);
    } else {
        write_closing_lines(&mut lines);
    }
    lines
}

} // verus!
