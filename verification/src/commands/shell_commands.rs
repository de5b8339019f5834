//! What the text answers of system queries say: the processor, the memory,
//! the disks, the graphics adapters, the network adapters in use and the
//! operating system.
//!
//! An answer is a list of lines of the form `Key=value`. Sizes are handed out
//! as numbers of bytes; how they are shown is the caller's to decide.

use crate::casing::{lowercase, lowercase_of};
use crate::commands::system_info::after_first_colon;
use crate::records::optional_text;
use crate::text::{
    chars_find, contains, join_texts, joined, lines, read_u64, remove_all, starts_with,
    str_contains, text_lines, text_starts_with, text_without, to_chars, trim, trim_text,
    unsigned64,
};
use vstd::prelude::*;

verus! {

/// The value that a line gives for `key`: the line without every occurrence
/// of the key and without the whitespace around what is left.
pub open spec fn field_value(line: Seq<char>, key: Seq<char>) -> Seq<char> {
    trim(remove_all(line, key))
}

/// The adapter that a line names: the value of a line that begins with
/// `Name=`, unless it is empty or names a loopback adapter.
pub open spec fn line_adapter(line: Seq<char>) -> Option<Seq<char>> {
    if starts_with(line, "Name="@) && field_value(line, "Name="@).len() > 0 && !contains(
        field_value(line, "Name="@),
        "Loopback"@,
    ) {
        Some(field_value(line, "Name="@))
    } else {
        None
    }
}

/// The adapters that the lines at or after `from` name, in their order.
pub open spec fn adapters_from(all: Seq<Seq<char>>, from: int) -> Seq<Seq<char>>
    decreases all.len() - from,
{
    if from < 0 || from >= all.len() {
        Seq::empty()
    } else {
        match line_adapter(all[from]) {
            Some(name) => seq![name] + adapters_from(all, from + 1),
            None => adapters_from(all, from + 1),
        }
    }
}

/// What is shown for the network: the adapters named, separated by a comma
/// and a space, or a word for "unknown" where none is named.
pub open spec fn network_summary(raw: Seq<char>) -> Seq<char> {
    list_summary(adapters_from(lines(raw), 0))
}

/// What an answer says of the operating system.
pub struct OsFields {
    pub caption: Seq<char>,
    pub version: Seq<char>,
    pub build: Seq<char>,
}

/// What the first `count` lines say of the operating system: each of
/// `Caption=`, `Version=` and `BuildNumber=` is taken from the last line that
/// begins with it, and is empty where there is none.
pub open spec fn os_fields(all: Seq<Seq<char>>, count: int) -> OsFields
    decreases count,
{
    if count <= 0 || count > all.len() {
        OsFields { caption: Seq::empty(), version: Seq::empty(), build: Seq::empty() }
    } else {
        let before = os_fields(all, count - 1);
        let line = all[count - 1];
        if starts_with(line, "Caption="@) {
            OsFields { caption: field_value(line, "Caption="@), ..before }
        } else if starts_with(line, "Version="@) {
            OsFields { version: field_value(line, "Version="@), ..before }
        } else if starts_with(line, "BuildNumber="@) {
            OsFields { build: field_value(line, "BuildNumber="@), ..before }
        } else {
            before
        }
    }
}

/// What is shown for the operating system: its caption, with the build
/// number in brackets, or else the version, where the answer gives one; a
/// word for "unknown" where it gives no caption.
pub open spec fn os_line(fields: OsFields) -> Seq<char> {
    if fields.caption.len() > 0 {
        if fields.build.len() > 0 {
            fields.caption + " (Build "@ + fields.build + ")"@
        } else if fields.version.len() > 0 {
            fields.caption + " ("@ + fields.version + ")"@
        } else {
            fields.caption
        }
    } else {
        "未知"@
    }
}

/// What is shown for the operating system that the answer `raw` describes.
pub open spec fn os_summary(raw: Seq<char>) -> Seq<char> {
    os_line(os_fields(lines(raw), lines(raw).len() as int))
}

/// The value that `line` gives for `key`.
pub fn value_of(line: &str, key: &str) -> (r: String)
    ensures
        r@ == field_value(line@, key@),
{
    let rest = text_without(line, key);
    trim_text(rest.as_str()).to_string()
}

/// What is shown for the network that the answer `raw` describes.
pub fn parse_network_info(raw: &str) -> (r: String)
    ensures
        r@ == network_summary(raw@),
{
    let all = text_lines(raw);
    let mut adapters: Vec<String> = Vec::new();
    let mut i: usize = 0;
    while i < all.len()
        invariant
            i <= all.len(),
            all.deep_view() == lines(raw@),
            adapters_from(lines(raw@), 0) == adapters.deep_view() + adapters_from(
                lines(raw@),
                i as int,
            ),
        decreases all.len() - i,
    {
        assert(all.deep_view()[i as int] == all@[i as int]@);
        let ghost shown = adapters.deep_view();
        let ghost rest = adapters_from(lines(raw@), i + 1);
        if text_starts_with(all[i], "Name=") {
            let name = value_of(all[i], "Name=");
            if name.as_str().unicode_len() > 0 && !str_contains(name.as_str(), "Loopback") {
                let ghost text = name@;
                adapters.push(name);
                assert(adapters.deep_view() =~= shown.push(text));
                assert(shown + (seq![text] + rest) =~= shown.push(text) + rest);
            }
        }
        i += 1;
    }
    assert(adapters.deep_view() + Seq::<Seq<char>>::empty() =~= adapters.deep_view());
    summary_of(&adapters)
}

/// What is shown for the operating system that the answer `raw` describes.
pub fn parse_os_info(raw: &str) -> (r: String)
    ensures
        r@ == os_summary(raw@),
{
    let all = text_lines(raw);
    let mut caption = String::new();
    let mut version = String::new();
    let mut build = String::new();
    let mut i: usize = 0;
    while i < all.len()
        invariant
            i <= all.len(),
            all.deep_view() == lines(raw@),
            os_fields(lines(raw@), i as int) == (OsFields {
                caption: caption@,
                version: version@,
                build: build@,
            }),
        decreases all.len() - i,
    {
        assert(all.deep_view()[i as int] == all@[i as int]@);
        if text_starts_with(all[i], "Caption=") {
            caption = value_of(all[i], "Caption=");
        } else if text_starts_with(all[i], "Version=") {
            version = value_of(all[i], "Version=");
        } else if text_starts_with(all[i], "BuildNumber=") {
            build = value_of(all[i], "BuildNumber=");
        }
        i += 1;
    }
    if caption.as_str().unicode_len() > 0 {
        if build.as_str().unicode_len() > 0 {
            let mut out = caption;
            out.append(" (Build ");
            out.append(build.as_str());
            out.append(")");
            out
        } else if version.as_str().unicode_len() > 0 {
            let mut out = caption;
            out.append(" (");
            out.append(version.as_str());
            out.append(")");
            out
        } else {
            caption
        }
    } else {
        "未知".to_string()
    }
}

/// What an answer says of the processor.
#[derive(Clone, Debug, PartialEq, Eq)]
pub struct CpuFields {
    pub name: String,
    pub cores: String,
    pub logical_processors: String,
    pub clock_speeds: Vec<String>,
}

/// The mathematical content of a `CpuFields`.
pub struct CpuFieldsView {
    pub name: Seq<char>,
    pub cores: Seq<char>,
    pub logical_processors: Seq<char>,
    pub clock_speeds: Seq<Seq<char>>,
}

impl View for CpuFields {
    type V = CpuFieldsView;

    open spec fn view(&self) -> CpuFieldsView {
        CpuFieldsView {
            name: self.name@,
            cores: self.cores@,
            logical_processors: self.logical_processors@,
            clock_speeds: self.clock_speeds.deep_view(),
        }
    }
}

/// What the first `count` lines say of the processor: each of `Name=`,
/// `NumberOfCores=` and `NumberOfLogicalProcessors=` is taken from the last
/// line that begins with it, and the values of all lines that begin with
/// `MaxClockSpeed=` are kept in their order.
pub open spec fn cpu_fields(all: Seq<Seq<char>>, count: int) -> CpuFieldsView
    decreases count,
{
    if count <= 0 || count > all.len() {
        CpuFieldsView {
            name: Seq::empty(),
            cores: Seq::empty(),
            logical_processors: Seq::empty(),
            clock_speeds: Seq::empty(),
        }
    } else {
        let before = cpu_fields(all, count - 1);
        let line = all[count - 1];
        if starts_with(line, "Name="@) {
            CpuFieldsView { name: field_value(line, "Name="@), ..before }
        } else if starts_with(line, "NumberOfCores="@) {
            CpuFieldsView { cores: field_value(line, "NumberOfCores="@), ..before }
        } else if starts_with(line, "NumberOfLogicalProcessors="@) {
            CpuFieldsView {
                logical_processors: field_value(line, "NumberOfLogicalProcessors="@),
                ..before
            }
        } else if starts_with(line, "MaxClockSpeed="@) {
            CpuFieldsView {
                clock_speeds: before.clock_speeds.push(field_value(line, "MaxClockSpeed="@)),
                ..before
            }
        } else {
            before
        }
    }
}

/// What the answer `raw` says of the processor.
pub open spec fn cpu_answer(raw: Seq<char>) -> CpuFieldsView {
    cpu_fields(lines(raw), lines(raw).len() as int)
}

/// What is shown for a processor whose clock speed is shown as `speed`: the
/// name, and in brackets the cores and the threads as far as they are known,
/// and the speed.
pub open spec fn cpu_line(fields: CpuFieldsView, speed: Seq<char>) -> Seq<char> {
    if fields.cores.len() > 0 && fields.logical_processors.len() > 0 {
        fields.name + " ("@ + fields.cores + " 核心 "@ + fields.logical_processors + " 线程, "@
            + speed + ")"@
    } else if fields.cores.len() > 0 {
        fields.name + " ("@ + fields.cores + " 核心, "@ + speed + ")"@
    } else {
        fields.name + " ("@ + speed + ")"@
    }
}

/// The amount of memory as the answer itself states it: the answer without
/// the whitespace around it, where it mentions `GB`.
pub open spec fn memory_as_stated(raw: Seq<char>) -> Option<Seq<char>> {
    if contains(raw, "GB"@) {
        Some(trim(raw))
    } else {
        None
    }
}

/// The number of bytes that the first line gives that begins with
/// `TotalPhysicalMemory=` and whose value is a number, among the lines at or
/// after `from`.
pub open spec fn memory_bytes_from(all: Seq<Seq<char>>, from: int) -> Option<u64>
    decreases all.len() - from,
{
    if from < 0 || from >= all.len() {
        None
    } else if starts_with(all[from], "TotalPhysicalMemory="@) && unsigned64(
        field_value(all[from], "TotalPhysicalMemory="@),
    ) is Some {
        unsigned64(field_value(all[from], "TotalPhysicalMemory="@))
    } else {
        memory_bytes_from(all, from + 1)
    }
}

/// The number of bytes of memory that the answer `raw` gives.
pub open spec fn memory_bytes(raw: Seq<char>) -> Option<u64> {
    memory_bytes_from(lines(raw), 0)
}

/// A disk as an answer describes it.
#[derive(Clone, Debug, PartialEq, Eq)]
pub struct DiskRecord {
    pub caption: String,
    pub size: u64,
    pub free_space: u64,
}

/// The mathematical content of a `DiskRecord`.
pub struct DiskRecordView {
    pub caption: Seq<char>,
    pub size: u64,
    pub free_space: u64,
}

impl View for DiskRecord {
    type V = DiskRecordView;

    open spec fn view(&self) -> DiskRecordView {
        DiskRecordView { caption: self.caption@, size: self.size, free_space: self.free_space }
    }
}

impl DeepView for DiskRecord {
    type V = DiskRecordView;

    open spec fn deep_view(&self) -> DiskRecordView {
        self@
    }
}

/// How far an answer on disks has been read: the disks that are complete, and
/// the caption and the size of the disk that is being read.
pub struct DiskScan {
    pub disks: Seq<DiskRecordView>,
    pub caption: Seq<char>,
    pub size: u64,
}

/// A scan after one more line. `Caption=` and `Size=` say what the disk that
/// is being read is called and how large it is; `FreeSpace=` with a number
/// ends it, and the disk counts if it has a caption and a size above zero. A
/// size or free space that is no number changes nothing.
pub open spec fn disk_line(scan: DiskScan, line: Seq<char>) -> DiskScan {
    if starts_with(line, "Caption="@) {
        DiskScan { caption: field_value(line, "Caption="@), ..scan }
    } else if starts_with(line, "Size="@) {
        match unsigned64(field_value(line, "Size="@)) {
            Some(size) => DiskScan { size, ..scan },
            None => scan,
        }
    } else if starts_with(line, "FreeSpace="@) {
        match unsigned64(field_value(line, "FreeSpace="@)) {
            Some(free_space) => DiskScan {
                disks: if scan.caption.len() > 0 && scan.size > 0 {
                    scan.disks.push(
                        DiskRecordView { caption: scan.caption, size: scan.size, free_space },
                    )
                } else {
                    scan.disks
                },
                caption: Seq::empty(),
                size: 0,
            },
            None => scan,
        }
    } else {
        scan
    }
}

/// The scan of the first `count` lines of an answer on disks.
pub open spec fn disk_scan(all: Seq<Seq<char>>, count: int) -> DiskScan
    decreases count,
{
    if count <= 0 || count > all.len() {
        DiskScan { disks: Seq::empty(), caption: Seq::empty(), size: 0 }
    } else {
        disk_line(disk_scan(all, count - 1), all[count - 1])
    }
}

/// The disks that the answer `raw` describes, in its order.
pub open spec fn disk_answer(raw: Seq<char>) -> Seq<DiskRecordView> {
    disk_scan(lines(raw), lines(raw).len() as int).disks
}

/// A graphics adapter as an answer describes it: its name and, where the
/// answer gives one above zero, the size of its memory in bytes.
#[derive(Clone, Debug, PartialEq, Eq)]
pub struct GpuRecord {
    pub name: String,
    pub adapter_ram: Option<u64>,
}

/// The mathematical content of a `GpuRecord`.
pub struct GpuRecordView {
    pub name: Seq<char>,
    pub adapter_ram: Option<u64>,
}

impl View for GpuRecord {
    type V = GpuRecordView;

    open spec fn view(&self) -> GpuRecordView {
        GpuRecordView { name: self.name@, adapter_ram: self.adapter_ram }
    }
}

impl DeepView for GpuRecord {
    type V = GpuRecordView;

    open spec fn deep_view(&self) -> GpuRecordView {
        self@
    }
}

/// How far an answer on graphics adapters has been read: the adapters that
/// are complete, and the name and the memory of the one that is being read.
pub struct GpuScan {
    pub adapters: Seq<GpuRecordView>,
    pub name: Seq<char>,
    pub adapter_ram: Option<u64>,
}

/// The adapters of a scan once the adapter that is being read is complete; it
/// counts only if it has a name.
pub open spec fn gpu_completed(scan: GpuScan) -> Seq<GpuRecordView> {
    if scan.name.len() > 0 {
        scan.adapters.push(GpuRecordView { name: scan.name, adapter_ram: scan.adapter_ram })
    } else {
        scan.adapters
    }
}

/// A scan after one more line, which is read without the whitespace around
/// it. An empty line ends the adapter that is being read, if it has a name;
/// `Name=` says what it is called; `AdapterRAM=` with a number above zero
/// says how much memory it has.
pub open spec fn gpu_line(scan: GpuScan, line: Seq<char>) -> GpuScan {
    let text = trim(line);
    if text.len() == 0 {
        if scan.name.len() > 0 {
            GpuScan { adapters: gpu_completed(scan), name: Seq::empty(), adapter_ram: None }
        } else {
            scan
        }
    } else if starts_with(text, "Name="@) {
        GpuScan { name: field_value(text, "Name="@), ..scan }
    } else if starts_with(text, "AdapterRAM="@) {
        match unsigned64(field_value(text, "AdapterRAM="@)) {
            Some(bytes) => if bytes > 0 {
                GpuScan { adapter_ram: Some(bytes), ..scan }
            } else {
                scan
            },
            None => scan,
        }
    } else {
        scan
    }
}

/// The scan of the first `count` lines of an answer on graphics adapters.
pub open spec fn gpu_scan(all: Seq<Seq<char>>, count: int) -> GpuScan
    decreases count,
{
    if count <= 0 || count > all.len() {
        GpuScan { adapters: Seq::empty(), name: Seq::empty(), adapter_ram: None }
    } else {
        gpu_line(gpu_scan(all, count - 1), all[count - 1])
    }
}

/// The graphics adapters that the answer `raw` describes, in its order.
pub open spec fn gpu_answer(raw: Seq<char>) -> Seq<GpuRecordView> {
    gpu_completed(gpu_scan(lines(raw), lines(raw).len() as int))
}

/// What is shown for a list of things of which each is shown as one of
/// `parts`: the parts, separated by a comma and a space, or a word for
/// "unknown" where there is none.
pub open spec fn list_summary(parts: Seq<Seq<char>>) -> Seq<char> {
    if parts.len() == 0 {
        "未知"@
    } else {
        joined(parts, ", "@)
    }
}

/// The number of bytes that the text `value` writes.
pub fn bytes_of(value: &str) -> (r: Option<u64>)
    ensures
        r == unsigned64(value@),
{
    let chars = to_chars(value);
    read_u64(&chars)
}

/// What the answer `raw` says of the processor.
pub fn parse_cpu_fields(raw: &str) -> (r: CpuFields)
    ensures
        r@ == cpu_answer(raw@),
{
    let all = text_lines(raw);
    let mut name = String::new();
    let mut cores = String::new();
    let mut logical_processors = String::new();
    let mut clock_speeds: Vec<String> = Vec::new();
    let mut i: usize = 0;
    assert(clock_speeds.deep_view() =~= Seq::<Seq<char>>::empty());
    while i < all.len()
        invariant
            i <= all.len(),
            all.deep_view() == lines(raw@),
            cpu_fields(lines(raw@), i as int) == (CpuFieldsView {
                name: name@,
                cores: cores@,
                logical_processors: logical_processors@,
                clock_speeds: clock_speeds.deep_view(),
            }),
        decreases all.len() - i,
    {
        assert(all.deep_view()[i as int] == all@[i as int]@);
        if text_starts_with(all[i], "Name=") {
            name = value_of(all[i], "Name=");
        } else if text_starts_with(all[i], "NumberOfCores=") {
            cores = value_of(all[i], "NumberOfCores=");
        } else if text_starts_with(all[i], "NumberOfLogicalProcessors=") {
            logical_processors = value_of(all[i], "NumberOfLogicalProcessors=");
        } else if text_starts_with(all[i], "MaxClockSpeed=") {
            let ghost shown = clock_speeds.deep_view();
            let speed = value_of(all[i], "MaxClockSpeed=");
            let ghost text = speed@;
            clock_speeds.push(speed);
            assert(clock_speeds.deep_view() =~= shown.push(text));
        }
        i += 1;
    }
    CpuFields { name, cores, logical_processors, clock_speeds }
}

/// What is shown for a processor whose clock speed is shown as `speed`.
pub fn cpu_summary(fields: &CpuFields, speed: &str) -> (r: String)
    ensures
        r@ == cpu_line(fields@, speed@),
{
    let mut out = fields.name.clone();
    out.append(" (");
    if fields.cores.as_str().unicode_len() > 0 && fields.logical_processors.as_str().unicode_len()
        > 0 {
        out.append(fields.cores.as_str());
        out.append(" 核心 ");
        out.append(fields.logical_processors.as_str());
        out.append(" 线程, ");
    } else if fields.cores.as_str().unicode_len() > 0 {
        out.append(fields.cores.as_str());
        out.append(" 核心, ");
    }
    out.append(speed);
    out.append(")");
    out
}

/// The amount of memory as the answer itself states it.
pub fn stated_memory(raw: &str) -> (r: Option<String>)
    ensures
        optional_text(r) == memory_as_stated(raw@),
{
    if str_contains(raw, "GB") {
        Some(trim_text(raw).to_string())
    } else {
        None
    }
}

/// The number of bytes of memory that the answer `raw` gives.
pub fn total_memory_bytes(raw: &str) -> (r: Option<u64>)
    ensures
        r == memory_bytes(raw@),
{
    let all = text_lines(raw);
    let mut i: usize = 0;
    while i < all.len()
        invariant
            i <= all.len(),
            all.deep_view() == lines(raw@),
            memory_bytes(raw@) == memory_bytes_from(lines(raw@), i as int),
        decreases all.len() - i,
    {
        assert(all.deep_view()[i as int] == all@[i as int]@);
        if text_starts_with(all[i], "TotalPhysicalMemory=") {
            let value = value_of(all[i], "TotalPhysicalMemory=");
            let bytes = bytes_of(value.as_str());
            if bytes.is_some() {
                return bytes;
            }
        }
        i += 1;
    }
    None
}

/// The disks that the answer `raw` describes, in its order.
pub fn parse_disk_records(raw: &str) -> (disks: Vec<DiskRecord>)
    ensures
        disks.deep_view() == disk_answer(raw@),
{
    let all = text_lines(raw);
    let mut disks: Vec<DiskRecord> = Vec::new();
    let mut caption = String::new();
    let mut size: u64 = 0;
    let mut i: usize = 0;
    assert(disks.deep_view() =~= Seq::<DiskRecordView>::empty());
    while i < all.len()
        invariant
            i <= all.len(),
            all.deep_view() == lines(raw@),
            disk_scan(lines(raw@), i as int) == (DiskScan {
                disks: disks.deep_view(),
                caption: caption@,
                size,
            }),
        decreases all.len() - i,
    {
        assert(all.deep_view()[i as int] == all@[i as int]@);
        if text_starts_with(all[i], "Caption=") {
            caption = value_of(all[i], "Caption=");
        } else if text_starts_with(all[i], "Size=") {
            let value = value_of(all[i], "Size=");
            match bytes_of(value.as_str()) {
                Some(bytes) => {
                    size = bytes;
                },
                None => {},
            }
        } else if text_starts_with(all[i], "FreeSpace=") {
            let value = value_of(all[i], "FreeSpace=");
            match bytes_of(value.as_str()) {
                Some(free_space) => {
                    if caption.as_str().unicode_len() > 0 && size > 0 {
                        let ghost shown = disks.deep_view();
                        let disk = DiskRecord { caption, size, free_space };
                        disks.push(disk);
                        assert(disks.deep_view() =~= shown.push(disk@));
                    }
                    caption = String::new();
                    size = 0;
                },
                None => {},
            }
        }
        i += 1;
    }
    disks
}

/// The graphics adapters that the answer `raw` describes, in its order.
pub fn parse_gpu_records(raw: &str) -> (adapters: Vec<GpuRecord>)
    ensures
        adapters.deep_view() == gpu_answer(raw@),
{
    let all = text_lines(raw);
    let mut adapters: Vec<GpuRecord> = Vec::new();
    let mut name = String::new();
    let mut adapter_ram: Option<u64> = None;
    let mut i: usize = 0;
    assert(adapters.deep_view() =~= Seq::<GpuRecordView>::empty());
    while i < all.len()
        invariant
            i <= all.len(),
            all.deep_view() == lines(raw@),
            gpu_scan(lines(raw@), i as int) == (GpuScan {
                adapters: adapters.deep_view(),
                name: name@,
                adapter_ram,
            }),
        decreases all.len() - i,
    {
        assert(all.deep_view()[i as int] == all@[i as int]@);
        let text: &str = trim_text(all[i]);
        if text.unicode_len() == 0 {
            if name.as_str().unicode_len() > 0 {
                let ghost shown = adapters.deep_view();
                let adapter = GpuRecord { name, adapter_ram };
                adapters.push(adapter);
                assert(adapters.deep_view() =~= shown.push(adapter@));
                name = String::new();
                adapter_ram = None;
            }
        } else if text_starts_with(text, "Name=") {
            name = value_of(text, "Name=");
        } else if text_starts_with(text, "AdapterRAM=") {
            let value = value_of(text, "AdapterRAM=");
            match bytes_of(value.as_str()) {
                Some(bytes) => {
                    if bytes > 0 {
                        adapter_ram = Some(bytes);
                    }
                },
                None => {},
            }
        }
        i += 1;
    }
    if name.as_str().unicode_len() > 0 {
        let ghost shown = adapters.deep_view();
        let adapter = GpuRecord { name, adapter_ram };
        adapters.push(adapter);
        assert(adapters.deep_view() =~= shown.push(adapter@));
    }
    adapters
}

/// What is shown for a list of things of which each is shown as one of
/// `parts`.
pub fn summary_of(parts: &Vec<String>) -> (r: String)
    ensures
        r@ == list_summary(parts.deep_view()),
{
    if parts.len() == 0 {
        "未知".to_string()
    } else {
        join_texts(parts, ", ")
    }
}

/// How far a list of graphics adapters with labelled lines has been read:
/// the adapters that are complete, the name and the memory of the one that is
/// being read, and whether its lines are still being read.
pub struct AdapterScan {
    pub adapters: Seq<GpuRecordView>,
    pub name: Seq<char>,
    pub adapter_ram: Option<u64>,
    pub reading: bool,
}

/// Whether an adapter counts: it has a name, and where its memory is known
/// its name does not call it virtual.
pub open spec fn adapter_counts(name: Seq<char>, adapter_ram: Option<u64>) -> bool {
    name.len() > 0 && (adapter_ram is None || !contains(lowercase(name), "virtual"@))
}

/// The adapters of a scan once the adapter that is being read is complete.
pub open spec fn adapters_completed(scan: AdapterScan) -> Seq<GpuRecordView> {
    if adapter_counts(scan.name, scan.adapter_ram) {
        scan.adapters.push(GpuRecordView { name: scan.name, adapter_ram: scan.adapter_ram })
    } else {
        scan.adapters
    }
}

/// A scan after one more line, which is read without the whitespace around
/// it and gives its value after its first colon. A line that begins with
/// `Name` or `Caption` completes the adapter that was being read and, if it
/// has a colon, begins the next; a line that begins with `AdapterRAM` or
/// holds `Adapter RAM` says how much memory the adapter has, if its value is
/// a number; an empty line ends the lines of the adapter.
pub open spec fn adapter_line(scan: AdapterScan, line: Seq<char>) -> AdapterScan {
    let text = trim(line);
    if starts_with(text, "Name"@) || starts_with(text, "Caption"@) {
        match after_first_colon(text) {
            Some(rest) => AdapterScan {
                adapters: adapters_completed(scan),
                name: trim(rest),
                adapter_ram: None,
                reading: true,
            },
            None => AdapterScan { adapters: adapters_completed(scan), ..scan },
        }
    } else if (starts_with(text, "AdapterRAM"@) || contains(text, "Adapter RAM"@)) && scan.reading {
        match after_first_colon(text) {
            Some(rest) => match unsigned64(trim(rest)) {
                Some(bytes) => AdapterScan { adapter_ram: Some(bytes), ..scan },
                None => scan,
            },
            None => scan,
        }
    } else if text.len() == 0 && scan.reading {
        AdapterScan { reading: false, ..scan }
    } else {
        scan
    }
}

/// The scan of the first `count` lines of a list of adapters.
pub open spec fn adapter_scan(all: Seq<Seq<char>>, count: int) -> AdapterScan
    decreases count,
{
    if count <= 0 || count > all.len() {
        AdapterScan {
            adapters: Seq::empty(),
            name: Seq::empty(),
            adapter_ram: None,
            reading: false,
        }
    } else {
        adapter_line(adapter_scan(all, count - 1), all[count - 1])
    }
}

/// The graphics adapters that a list with labelled lines describes, in its
/// order.
pub open spec fn adapter_list(raw: Seq<char>) -> Seq<GpuRecordView> {
    adapters_completed(adapter_scan(lines(raw), lines(raw).len() as int))
}

/// Whether what is shown for an adapter, in lower case, speaks of a real
/// adapter: not of a virtual one, a remote one or the basic display adapter.
pub open spec fn real_by_lowercase(lower: Seq<char>) -> bool {
    &&& !contains(lower, "virtual"@)
    &&& !contains(lower, "remote"@)
    &&& !contains(lower, "basic display"@)
    &&& !contains(lower, "microsoft basic display"@)
}

/// Those of `parts` at or after `from` that speak of a real adapter.
pub open spec fn real_from(parts: Seq<Seq<char>>, from: int) -> Seq<Seq<char>>
    decreases parts.len() - from,
{
    if from < 0 || from >= parts.len() {
        Seq::empty()
    } else if real_by_lowercase(lowercase(parts[from])) {
        seq![parts[from]] + real_from(parts, from + 1)
    } else {
        real_from(parts, from + 1)
    }
}

/// What is shown for the adapters of which each is shown as one of `parts`:
/// the real ones, or all where none is real, separated by a comma and a
/// space; `Unknown GPU` where that would be empty.
pub open spec fn adapters_line(parts: Seq<Seq<char>>) -> Seq<char> {
    let shown = if real_from(parts, 0).len() > 0 {
        joined(real_from(parts, 0), ", "@)
    } else {
        joined(parts, ", "@)
    };
    if shown.len() == 0 {
        "Unknown GPU"@
    } else {
        shown
    }
}

/// What follows the first colon of `text`.
pub fn rest_after_colon<'a>(text: &'a str) -> (r: Option<&'a str>)
    ensures
        r is Some == after_first_colon(text@) is Some,
        r matches Some(rest) ==> after_first_colon(text@) == Some(rest@),
{
    let chars = to_chars(text);
    let colon: usize = chars_find(&chars, ':', 0);
    if colon < chars.len() {
        Some(text.substring_char(colon + 1, chars.len()))
    } else {
        None
    }
}

/// Whether an adapter counts whose name is `name` and, in lower case,
/// `lower`: it has a name, and where its memory is known its name does not
/// call it virtual.
pub fn counts_by_lowercase(name: &str, lower: &str, adapter_ram: Option<u64>) -> (r: bool)
    ensures
        r == (name@.len() > 0 && (adapter_ram is None || !contains(lower@, "virtual"@))),
{
    if name.unicode_len() == 0 {
        return false;
    }
    match adapter_ram {
        None => true,
        Some(_) => !str_contains(lower, "virtual"),
    }
}

fn counts(name: &str, adapter_ram: Option<u64>) -> (r: bool)
    ensures
        r == adapter_counts(name@, adapter_ram),
{
    let lower = lowercase_of(name);
    counts_by_lowercase(name, lower.as_str(), adapter_ram)
}

/// The graphics adapters that a list with labelled lines describes, in its
/// order.
pub fn parse_adapter_list(raw: &str) -> (adapters: Vec<GpuRecord>)
    ensures
        adapters.deep_view() == adapter_list(raw@),
{
    let all = text_lines(raw);
    let mut adapters: Vec<GpuRecord> = Vec::new();
    let mut name = String::new();
    let mut adapter_ram: Option<u64> = None;
    let mut reading: bool = false;
    let mut i: usize = 0;
    assert(adapters.deep_view() =~= Seq::<GpuRecordView>::empty());
    while i < all.len()
        invariant
            i <= all.len(),
            all.deep_view() == lines(raw@),
            adapter_scan(lines(raw@), i as int) == (AdapterScan {
                adapters: adapters.deep_view(),
                name: name@,
                adapter_ram,
                reading,
            }),
        decreases all.len() - i,
    {
        assert(all.deep_view()[i as int] == all@[i as int]@);
        let text: &str = trim_text(all[i]);
        if text_starts_with(text, "Name") || text_starts_with(text, "Caption") {
            if counts(name.as_str(), adapter_ram) {
                let ghost shown = adapters.deep_view();
                let adapter = GpuRecord { name: name.clone(), adapter_ram };
                adapters.push(adapter);
                assert(adapters.deep_view() =~= shown.push(adapter@));
            }
            match rest_after_colon(text) {
                Some(rest) => {
                    name = trim_text(rest).to_string();
                    adapter_ram = None;
                    reading = true;
                },
                None => {},
            }
        } else if (text_starts_with(text, "AdapterRAM") || str_contains(text, "Adapter RAM"))
            && reading {
            match rest_after_colon(text) {
                Some(rest) => match bytes_of(trim_text(rest)) {
                    Some(bytes) => {
                        adapter_ram = Some(bytes);
                    },
                    None => {},
                },
                None => {},
            }
        } else if text.unicode_len() == 0 && reading {
            reading = false;
        }
        i += 1;
    }
    if counts(name.as_str(), adapter_ram) {
        let ghost shown = adapters.deep_view();
        let adapter = GpuRecord { name, adapter_ram };
        adapters.push(adapter);
        assert(adapters.deep_view() =~= shown.push(adapter@));
    }
    adapters
}

/// Whether what is shown for an adapter, in lower case, speaks of a real
/// adapter.
pub fn is_real_by_lowercase(lower: &str) -> (r: bool)
    ensures
        r == real_by_lowercase(lower@),
{
    !str_contains(lower, "virtual") && !str_contains(lower, "remote") && !str_contains(
        lower,
        "basic display",
    ) && !str_contains(lower, "microsoft basic display")
}

/// What is shown for the adapters of which each is shown as one of `parts`.
pub fn adapters_summary(parts: &Vec<String>) -> (r: String)
    ensures
        r@ == adapters_line(parts.deep_view()),
{
    let mut genuine: Vec<String> = Vec::new();
    let mut i: usize = 0;
    assert(genuine.deep_view() =~= Seq::<Seq<char>>::empty());
    while i < parts.len()
        invariant
            i <= parts.len(),
            real_from(parts.deep_view(), 0) == genuine.deep_view() + real_from(
                parts.deep_view(),
                i as int,
            ),
        decreases parts.len() - i,
    {
        assert(parts.deep_view()[i as int] == parts@[i as int]@);
        let ghost shown = genuine.deep_view();
        let ghost rest = real_from(parts.deep_view(), i + 1);
        let lower = lowercase_of(parts[i].as_str());
        if is_real_by_lowercase(lower.as_str()) {
            let ghost text = parts@[i as int]@;
            genuine.push(parts[i].clone());
            assert(genuine.deep_view() =~= shown.push(text));
            assert(shown + (seq![text] + rest) =~= shown.push(text) + rest);
        }
        i += 1;
    }
    assert(genuine.deep_view() + Seq::<Seq<char>>::empty() =~= genuine.deep_view());
    let shown = if genuine.len() > 0 {
        join_texts(&genuine, ", ")
    } else {
        join_texts(parts, ", ")
    };
    if shown.as_str().unicode_len() == 0 {
        "Unknown GPU".to_string()
    } else {
        shown
    }
}

} // verus!
