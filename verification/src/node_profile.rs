//! Capability tiers of a node and their classification from hardware readings.
//!
//! Reading the machine is not done here: the caller hands over what it could
//! read, and this module decides what the readings mean.

use crate::config::{number_of, parse_number};
use crate::text::{
    begins_with, chars_of, contains, contains_text, has_char, lines_of, split_lines, split_words,
    starts_with, trim_chars, trimmed, views_of, words_of,
};
use vstd::prelude::*;

verus! {

/// Number of CPU cores assumed when none could be read.
pub const FALLBACK_CPU_CORES: usize = 4;

/// RAM assumed when none could be read, in MB.
pub const FALLBACK_RAM_MB: usize = 8_192;

/// Least VRAM of a card that counts as a dedicated GPU, in MB.
pub const DEDICATED_GPU_MIN_VRAM_MB: usize = 2_000;

/// VRAM assumed for a card of the vendor whose VRAM cannot be read, in MB.
pub const ASSUMED_VENDOR_VRAM_MB: usize = 8_000;

/// Capability tier of a node.
#[derive(Debug, Clone, Copy, PartialEq, Eq, Hash, Structural)]
pub enum NodeProfile {
    /// Server or workstation with a strong dedicated GPU.
    HeavyGpu,
    /// Server with a strong CPU and no dedicated GPU.
    HeavyCpu,
    /// Consumer desktop with moderate resources.
    Desktop,
    /// Laptop, tablet or embedded device.
    Mobile,
}

impl NodeProfile {
    /// Whether the node is of a heavy tier.
    #[must_use]
    pub fn is_heavy(&self) -> (b: bool)
        ensures
            b == (*self == NodeProfile::HeavyGpu || *self == NodeProfile::HeavyCpu),
    {
        match self {
            NodeProfile::HeavyGpu | NodeProfile::HeavyCpu => true,
            _ => false,
        }
    }

    /// Whether the tier has a dedicated GPU.
    #[must_use]
    pub fn has_dedicated_gpu(&self) -> (b: bool)
        ensures
            b == (*self == NodeProfile::HeavyGpu),
    {
        match self {
            NodeProfile::HeavyGpu => true,
            _ => false,
        }
    }

    /// Relative compute power of each tier, in millionths.
    pub open spec fn compute_power_spec(self) -> u32 {
        match self {
            NodeProfile::HeavyGpu => 1_000_000,
            NodeProfile::HeavyCpu => 700_000,
            NodeProfile::Desktop => 400_000,
            NodeProfile::Mobile => 200_000,
        }
    }

    /// Relative compute power of the tier, in millionths: at most one.
    #[must_use]
    pub fn compute_power(&self) -> (p: u32)
        ensures
            p == self.compute_power_spec(),
            0 < p <= 1_000_000,
    {
        match self {
            NodeProfile::HeavyGpu => 1_000_000,
            NodeProfile::HeavyCpu => 700_000,
            NodeProfile::Desktop => 400_000,
            NodeProfile::Mobile => 200_000,
        }
    }

    /// Suggested number of parallel training workers.
    #[must_use]
    pub fn max_parallel_workers(&self) -> (n: usize)
        ensures
            n == match *self {
                NodeProfile::HeavyGpu => 8usize,
                NodeProfile::HeavyCpu => 6usize,
                NodeProfile::Desktop => 3usize,
                NodeProfile::Mobile => 1usize,
            },
    {
        match self {
            NodeProfile::HeavyGpu => 8,
            NodeProfile::HeavyCpu => 6,
            NodeProfile::Desktop => 3,
            NodeProfile::Mobile => 1,
        }
    }

    /// Whether the node may take part in federated training.
    #[must_use]
    pub fn can_train(&self) -> (b: bool)
        ensures
            b == (*self != NodeProfile::Mobile),
    {
        match self {
            NodeProfile::Mobile => false,
            _ => true,
        }
    }

    /// Name of the tier.
    #[must_use]
    pub fn as_str(&self) -> (s: &'static str)
        ensures
            s@ == match *self {
                NodeProfile::HeavyGpu => "HeavyGpu"@,
                NodeProfile::HeavyCpu => "HeavyCpu"@,
                NodeProfile::Desktop => "Desktop"@,
                NodeProfile::Mobile => "Mobile"@,
            },
    {
        match self {
            NodeProfile::HeavyGpu => "HeavyGpu",
            NodeProfile::HeavyCpu => "HeavyCpu",
            NodeProfile::Desktop => "Desktop",
            NodeProfile::Mobile => "Mobile",
        }
    }
}

impl Default for NodeProfile {
    /// The desktop tier.
    fn default() -> (p: Self)
        ensures
            p == NodeProfile::Desktop,
    {
        NodeProfile::Desktop
    }
}

/// What could be read of one graphics card.
#[derive(Debug, Clone, Copy, PartialEq, Eq, Structural)]
pub struct GpuReading {
    /// Total VRAM in bytes, where the driver reports it.
    pub vram_total_bytes: Option<usize>,
    /// Whether the card is of the vendor whose VRAM is assumed where it cannot be read.
    pub assumed_vendor: bool,
}

impl GpuReading {
    /// The VRAM of the card in MB: what the driver reports, else the assumed
    /// amount for the known vendor, else unknown.
    pub open spec fn vram_mb_spec(self) -> Option<usize> {
        match self.vram_total_bytes {
            Some(bytes) => Some((bytes / 1_048_576) as usize),
            None => if self.assumed_vendor {
                Some(ASSUMED_VENDOR_VRAM_MB)
            } else {
                None
            },
        }
    }

    /// The VRAM of the card in MB, if it is known or can be assumed.
    #[must_use]
    pub fn vram_mb(&self) -> (v: Option<usize>)
        ensures
            v == self.vram_mb_spec(),
    {
        match self.vram_total_bytes {
            Some(bytes) => Some(bytes / 1_048_576),
            None => if self.assumed_vendor {
                Some(ASSUMED_VENDOR_VRAM_MB)
            } else {
                None
            },
        }
    }

    /// Whether the card counts as a dedicated GPU.
    pub open spec fn is_dedicated(self) -> bool {
        self.vram_mb_spec() is Some && self.vram_mb_spec()->0 >= DEDICATED_GPU_MIN_VRAM_MB
    }
}

/// What the caller could read of the machine.
#[derive(Debug, Clone)]
pub struct HardwareReadings {
    /// Number of logical CPU cores, if it could be read.
    pub cpu_cores: Option<usize>,
    /// Total memory in kB, if it could be read.
    pub mem_total_kb: Option<usize>,
    /// The graphics cards found, in the order in which they were found.
    pub gpus: Vec<GpuReading>,
}

/// What could be read of one entry of the directory of graphics cards.
#[derive(Debug, Clone)]
pub struct CardFiles {
    /// Name of the entry.
    pub name: String,
    /// Content of the file that holds the total VRAM in bytes, if it could be read.
    pub vram_total: Option<String>,
    /// Content of the file that holds the vendor code, if it could be read.
    pub vendor: Option<String>,
}

/// What could be read of the machine, as text.
#[derive(Debug, Clone)]
pub struct RawReadings {
    /// Number of logical CPU cores, if it could be read.
    pub cpu_cores: Option<usize>,
    /// Content of the memory table, if it could be read.
    pub meminfo: Option<String>,
    /// The entries of the directory of graphics cards, in the order in which
    /// they were found.
    pub cards: Vec<CardFiles>,
}

/// The total memory that one line of the memory table gives, in kB: the
/// second word of a line that begins with `MemTotal:`, if it is a number.
pub open spec fn mem_total_of_line(line: Seq<char>) -> Option<usize> {
    if begins_with(line, "MemTotal:"@) && words_of(line).len() >= 2 {
        number_of(words_of(line)[1])
    } else {
        None
    }
}

/// The total memory that the first `upto` lines give, in kB: what the first
/// line gives that gives any.
pub open spec fn mem_total_in(lines: Seq<Seq<char>>, upto: int) -> Option<usize>
    decreases upto,
{
    if upto <= 0 {
        None
    } else {
        match mem_total_in(lines, upto - 1) {
            Some(kb) => Some(kb),
            None => mem_total_of_line(lines[upto - 1]),
        }
    }
}

/// The total memory that a memory table gives, in kB.
pub open spec fn mem_total_of(meminfo: Seq<char>) -> Option<usize> {
    mem_total_in(lines_of(meminfo), lines_of(meminfo).len() as int)
}

/// Whether an entry of the directory of graphics cards is a card: its name
/// begins with `card` and holds no hyphen.
pub open spec fn is_card_name(name: Seq<char>) -> bool {
    begins_with(name, "card"@) && !name.contains('-')
}

/// What the files of a card say of it: the VRAM if its file holds a number
/// and nothing else but whitespace around it, and whether the vendor code,
/// trimmed, holds `0x10de`.
pub open spec fn reading_of(files: CardFiles) -> GpuReading {
    GpuReading {
        vram_total_bytes: match files.vram_total {
            Some(content) => number_of(trimmed(content@)),
            None => None,
        },
        assumed_vendor: match files.vendor {
            Some(content) => contains_text(trimmed(content@), "0x10de"@),
            None => false,
        },
    }
}

/// The readings of the cards among the first `upto` entries, in order.
pub open spec fn readings_in(cards: Seq<CardFiles>, upto: int) -> Seq<GpuReading>
    decreases upto,
{
    if upto <= 0 {
        Seq::<GpuReading>::empty()
    } else if is_card_name(cards[upto - 1].name@) {
        readings_in(cards, upto - 1).push(reading_of(cards[upto - 1]))
    } else {
        readings_in(cards, upto - 1)
    }
}

/// The total memory that a memory table gives, in kB.
pub fn mem_total_kb(meminfo: &str) -> (kb: Option<usize>)
    ensures
        kb == mem_total_of(meminfo@),
{
    let lines = split_lines(&chars_of(meminfo));
    let prefix = chars_of("MemTotal:");
    let mut i: usize = 0;
    while i < lines.len()
        invariant
            i <= lines@.len(),
            prefix@ == "MemTotal:"@,
            views_of(lines@) == lines_of(meminfo@),
            mem_total_in(lines_of(meminfo@), i as int) is None,
        decreases lines@.len() - i,
    {
        assert(views_of(lines@)[i as int] == lines@[i as int]@);
        if starts_with(&lines[i], &prefix) {
            let words = split_words(&lines[i]);
            if words.len() >= 2 {
                assert(views_of(words@)[1] == words@[1]@);
                match parse_number(&words[1]) {
                    Some(kb) => {
                        proof {
                            lemma_mem_total_found(lines_of(meminfo@), i + 1, lines@.len() as int);
                        }
                        return Some(kb);
                    },
                    None => {},
                }
            }
        }
        i = i + 1;
    }
    None
}

/// What the first lines give stays what all lines give.
proof fn lemma_mem_total_found(lines: Seq<Seq<char>>, from: int, upto: int)
    requires
        0 <= from <= upto,
        mem_total_in(lines, from) is Some,
    ensures
        mem_total_in(lines, upto) == mem_total_in(lines, from),
    decreases upto - from,
{
    if from < upto {
        lemma_mem_total_found(lines, from, upto - 1);
    }
}

/// Whether an entry of the directory of graphics cards is a card.
pub fn is_card_entry(name: &str) -> (b: bool)
    ensures
        b == is_card_name(name@),
{
    let name_chars = chars_of(name);
    starts_with(&name_chars, &chars_of("card")) && !has_char(&name_chars, '-')
}

/// What the files of a card say of it.
pub fn read_card(files: &CardFiles) -> (reading: GpuReading)
    ensures
        reading == reading_of(*files),
{
    let vram_total_bytes: Option<usize> = match &files.vram_total {
        Some(content) => parse_number(&trim_chars(&chars_of(content.as_str()))),
        None => None,
    };
    let assumed_vendor: bool = match &files.vendor {
        Some(content) => contains(&trim_chars(&chars_of(content.as_str())), &chars_of("0x10de")),
        None => false,
    };
    GpuReading { vram_total_bytes, assumed_vendor }
}

/// What raw readings say: the core count as it is, the total memory that the
/// memory table gives, and one reading for each entry that is a card.
pub fn interpret(raw: &RawReadings) -> (readings: HardwareReadings)
    ensures
        readings.cpu_cores == raw.cpu_cores,
        readings.mem_total_kb == match raw.meminfo {
            Some(content) => mem_total_of(content@),
            None => None,
        },
        readings.gpus@ == readings_in(raw.cards@, raw.cards@.len() as int),
{
    let mem_total: Option<usize> = match &raw.meminfo {
        Some(content) => mem_total_kb(content.as_str()),
        None => None,
    };
    let mut gpus: Vec<GpuReading> = Vec::new();
    let mut i: usize = 0;
    while i < raw.cards.len()
        invariant
            i <= raw.cards@.len(),
            gpus@ == readings_in(raw.cards@, i as int),
        decreases raw.cards@.len() - i,
    {
        if is_card_entry(raw.cards[i].name.as_str()) {
            gpus.push(read_card(&raw.cards[i]));
        }
        i = i + 1;
    }
    HardwareReadings { cpu_cores: raw.cpu_cores, mem_total_kb: mem_total, gpus }
}

/// Index of the first dedicated card among the first `upto` cards, if any.
pub open spec fn first_dedicated(gpus: Seq<GpuReading>, upto: int) -> Option<int>
    decreases upto,
{
    if upto <= 0 {
        None
    } else {
        match first_dedicated(gpus, upto - 1) {
            Some(i) => Some(i),
            None => if gpus[upto - 1].is_dedicated() {
                Some(upto - 1)
            } else {
                None
            },
        }
    }
}

/// Hardware capabilities of a node.
#[derive(Debug, Clone, Copy, PartialEq, Eq, Structural)]
pub struct HardwareCapabilities {
    /// Number of logical CPU cores.
    pub cpu_cores: usize,
    /// Total RAM in MB.
    pub ram_mb: usize,
    /// Whether a dedicated GPU is present.
    pub has_dedicated_gpu: bool,
    /// VRAM of the GPU in MB, zero without one.
    pub gpu_vram_mb: usize,
}

impl HardwareCapabilities {
    /// The tier of a node with these capabilities.
    ///
    /// A dedicated GPU with at least 8000 MB of VRAM, 8 cores and 16000 MB of
    /// RAM make a heavy GPU node; 8 cores and 16000 MB without a dedicated GPU
    /// a heavy CPU node; otherwise at most 4 cores or at most 8000 MB make a
    /// mobile node, and all else is a desktop.
    pub open spec fn classify_spec(self) -> NodeProfile {
        if self.has_dedicated_gpu && self.gpu_vram_mb >= 8_000 && self.cpu_cores >= 8
            && self.ram_mb >= 16_000 {
            NodeProfile::HeavyGpu
        } else if !self.has_dedicated_gpu && self.cpu_cores >= 8 && self.ram_mb >= 16_000 {
            NodeProfile::HeavyCpu
        } else if self.cpu_cores <= 4 || self.ram_mb <= 8_000 {
            NodeProfile::Mobile
        } else {
            NodeProfile::Desktop
        }
    }

    /// The capabilities that a set of readings stands for: the fallback for
    /// what could not be read, kB turned into MB, and the first card that
    /// counts as dedicated.
    pub open spec fn of_values(
        cpu_cores: Option<usize>,
        mem_total_kb: Option<usize>,
        gpus: Seq<GpuReading>,
    ) -> HardwareCapabilities {
        let gpu = first_dedicated(gpus, gpus.len() as int);
        HardwareCapabilities {
            cpu_cores: match cpu_cores {
                Some(n) => if n > 0 {
                    n
                } else {
                    FALLBACK_CPU_CORES
                },
                None => FALLBACK_CPU_CORES,
            },
            ram_mb: match mem_total_kb {
                Some(kb) => (kb / 1_024) as usize,
                None => FALLBACK_RAM_MB,
            },
            has_dedicated_gpu: gpu is Some,
            gpu_vram_mb: match gpu {
                Some(i) => gpus[i].vram_mb_spec()->0,
                None => 0,
            },
        }
    }

    /// The capabilities that a set of readings stands for.
    pub open spec fn of_readings(readings: HardwareReadings) -> HardwareCapabilities {
        Self::of_values(readings.cpu_cores, readings.mem_total_kb, readings.gpus@)
    }

    /// The capabilities that raw readings stand for.
    pub open spec fn of_raw(raw: RawReadings) -> HardwareCapabilities {
        Self::of_values(
            raw.cpu_cores,
            match raw.meminfo {
                Some(content) => mem_total_of(content@),
                None => None,
            },
            readings_in(raw.cards@, raw.cards@.len() as int),
        )
    }

    /// The capabilities assumed when nothing can be read: 4 cores, 8192 MB, no GPU.
    #[must_use]
    pub fn fallback() -> (c: Self)
        ensures
            c == (HardwareCapabilities {
                cpu_cores: 4,
                ram_mb: 8_192,
                has_dedicated_gpu: false,
                gpu_vram_mb: 0,
            }),
    {
        HardwareCapabilities {
            cpu_cores: FALLBACK_CPU_CORES,
            ram_mb: FALLBACK_RAM_MB,
            has_dedicated_gpu: false,
            gpu_vram_mb: 0,
        }
    }

    /// The capabilities that raw readings stand for.
    #[must_use]
    pub fn detect(raw: &RawReadings) -> (c: Self)
        ensures
            c == Self::of_raw(*raw),
    {
        Self::from_readings(&interpret(raw))
    }

    /// The capabilities that `readings` stand for.
    #[must_use]
    pub fn from_readings(readings: &HardwareReadings) -> (c: Self)
        ensures
            c == Self::of_readings(*readings),
    {
        let cpu_cores: usize = match readings.cpu_cores {
            Some(n) => if n > 0 {
                n
            } else {
                FALLBACK_CPU_CORES
            },
            None => FALLBACK_CPU_CORES,
        };
        let ram_mb: usize = match readings.mem_total_kb {
            Some(kb) => kb / 1_024,
            None => FALLBACK_RAM_MB,
        };
        let mut has_dedicated_gpu = false;
        let mut gpu_vram_mb: usize = 0;
        let mut i: usize = 0;
        while i < readings.gpus.len() && !has_dedicated_gpu
            invariant
                i <= readings.gpus@.len(),
                has_dedicated_gpu == (first_dedicated(readings.gpus@, i as int) is Some),
                has_dedicated_gpu ==> gpu_vram_mb == readings.gpus@[first_dedicated(
                    readings.gpus@,
                    i as int,
                )->0].vram_mb_spec()->0,
                !has_dedicated_gpu ==> gpu_vram_mb == 0,
            decreases readings.gpus@.len() - i + if has_dedicated_gpu {
                0int
            } else {
                1int
            },
        {
            match readings.gpus[i].vram_mb() {
                Some(vram) => {
                    if vram >= DEDICATED_GPU_MIN_VRAM_MB {
                        has_dedicated_gpu = true;
                        gpu_vram_mb = vram;
                    }
                },
                None => {},
            }
            i = i + 1;
        }
        proof {
            lemma_first_dedicated_is_stable(
                readings.gpus@,
                i as int,
                readings.gpus@.len() as int,
            );
        }
        HardwareCapabilities { cpu_cores, ram_mb, has_dedicated_gpu, gpu_vram_mb }
    }

    /// The tier of a node with these capabilities.
    #[must_use]
    pub fn classify(&self) -> (p: NodeProfile)
        ensures
            p == self.classify_spec(),
    {
        if self.has_dedicated_gpu && self.gpu_vram_mb >= 8_000 && self.cpu_cores >= 8
            && self.ram_mb >= 16_000 {
            return NodeProfile::HeavyGpu;
        }
        if !self.has_dedicated_gpu && self.cpu_cores >= 8 && self.ram_mb >= 16_000 {
            return NodeProfile::HeavyCpu;
        }
        if self.cpu_cores <= 4 || self.ram_mb <= 8_000 {
            return NodeProfile::Mobile;
        }
        NodeProfile::Desktop
    }
}

/// Once a dedicated card is found among the first cards, looking at more
/// cards finds the same one.
proof fn lemma_first_dedicated_is_stable(gpus: Seq<GpuReading>, from: int, upto: int)
    requires
        0 <= from <= upto,
        first_dedicated(gpus, from) is Some || from == upto,
    ensures
        first_dedicated(gpus, upto) == first_dedicated(gpus, from),
    decreases upto - from,
{
    if from < upto {
        lemma_first_dedicated_is_stable(gpus, from, upto - 1);
    }
}

/// Detector of the tier of a node. It holds no state.
#[derive(Debug, Clone, Copy)]
pub struct NodeProfileDetector;

impl NodeProfileDetector {
    /// The tier that raw readings stand for.
    #[must_use]
    pub fn detect(raw: &RawReadings) -> (p: NodeProfile)
        ensures
            p == HardwareCapabilities::of_raw(*raw).classify_spec(),
    {
        HardwareCapabilities::detect(raw).classify()
    }

    /// The tier that raw readings stand for, with the capabilities it was
    /// decided from.
    #[must_use]
    pub fn detect_with_capabilities(raw: &RawReadings) -> (r: (NodeProfile, HardwareCapabilities))
        ensures
            r.1 == HardwareCapabilities::of_raw(*raw),
            r.0 == r.1.classify_spec(),
    {
        let caps = HardwareCapabilities::detect(raw);
        let profile = caps.classify();
        (profile, caps)
    }
}

/// With nothing readable the node is classified as mobile: the fallback has
/// no more than 4 cores.
pub proof fn lemma_fallback_is_mobile()
    ensures
        (HardwareCapabilities {
            cpu_cores: 4,
            ram_mb: 8_192,
            has_dedicated_gpu: false,
            gpu_vram_mb: 0,
        }).classify_spec() == NodeProfile::Mobile,
{
}

/// A heavy GPU tier is given only to nodes that meet all four criteria, and a
/// node is classified as training-capable unless it is short of cores or RAM.
pub proof fn lemma_classification(caps: HardwareCapabilities)
    ensures
        caps.classify_spec() == NodeProfile::HeavyGpu <==> caps.has_dedicated_gpu
            && caps.gpu_vram_mb >= 8_000 && caps.cpu_cores >= 8 && caps.ram_mb >= 16_000,
        caps.classify_spec() == NodeProfile::HeavyCpu <==> !caps.has_dedicated_gpu
            && caps.cpu_cores >= 8 && caps.ram_mb >= 16_000,
        caps.classify_spec() == NodeProfile::Mobile ==> caps.cpu_cores <= 4 || caps.ram_mb
            <= 8_000,
{
}

} // verus!
