//! Boot-stage markers and timing, kept in a debug area of RAM that a
//! debugger can read without a serial port. The stores are returned as
//! [`DebugWrite`]s; the caller performs them and reads the cycle counter.
use vstd::prelude::*;
use vstd::string::StringSliceAdditionalSpecFns;

verus! {

pub const DEBUG_BUFFER_ADDRESS: u64 = 0x8000_0000;
pub const DEBUG_BUFFER_SIZE: usize = 1024;
/// Longest string stored by [`debug_write_str`].
pub const DEBUG_STR_MAX: usize = 256;
/// Size of a [`DebugBuffer`] message, terminator included.
pub const DEBUG_MESSAGE_LEN: usize = 256;
pub const DEBUG_MAGIC: u32 = 0xdead_beef;

/// Stages of the boot, as recorded in the debug area.
#[derive(Debug, Clone, Copy, PartialEq, Eq, Structural)]
pub enum DebugMarker {
    BootloaderStart,
    StackInitialized,
    DeviceInitialized,
    KernelLoadingStart,
    KernelLoadingProgress,
    KernelLoadingComplete,
    ElfParseStart,
    ElfParseSuccess,
    ElfParseFailed,
    SegmentLoadStart,
    SegmentLoadSuccess,
    SegmentLoadFailed,
    JumpToKernel,
    PanicOccurred,
}

impl DebugMarker {
    pub open spec fn spec_code(self) -> u32 {
        match self {
            DebugMarker::BootloaderStart => 0xdead_beef,
            DebugMarker::StackInitialized => 0xcafe_babe,
            DebugMarker::DeviceInitialized => 0xface_b00c,
            DebugMarker::KernelLoadingStart => 0x1000_0001,
            DebugMarker::KernelLoadingProgress => 0x1000_0002,
            DebugMarker::KernelLoadingComplete => 0x1000_0003,
            DebugMarker::ElfParseStart => 0x2000_0001,
            DebugMarker::ElfParseSuccess => 0x2000_0002,
            DebugMarker::ElfParseFailed => 0x2000_0003,
            DebugMarker::SegmentLoadStart => 0x3000_0001,
            DebugMarker::SegmentLoadSuccess => 0x3000_0002,
            DebugMarker::SegmentLoadFailed => 0x3000_0003,
            DebugMarker::JumpToKernel => 0x4000_0001,
            DebugMarker::PanicOccurred => 0xdead_dead,
        }
    }

    /// The word recorded for this stage.
    pub fn code(&self) -> (r: u32)
        ensures
            r == self.spec_code(),
    {
        match self {
            DebugMarker::BootloaderStart => 0xdead_beef,
            DebugMarker::StackInitialized => 0xcafe_babe,
            DebugMarker::DeviceInitialized => 0xface_b00c,
            DebugMarker::KernelLoadingStart => 0x1000_0001,
            DebugMarker::KernelLoadingProgress => 0x1000_0002,
            DebugMarker::KernelLoadingComplete => 0x1000_0003,
            DebugMarker::ElfParseStart => 0x2000_0001,
            DebugMarker::ElfParseSuccess => 0x2000_0002,
            DebugMarker::ElfParseFailed => 0x2000_0003,
            DebugMarker::SegmentLoadStart => 0x3000_0001,
            DebugMarker::SegmentLoadSuccess => 0x3000_0002,
            DebugMarker::SegmentLoadFailed => 0x3000_0003,
            DebugMarker::JumpToKernel => 0x4000_0001,
            DebugMarker::PanicOccurred => 0xdead_dead,
        }
    }
}

/// One store into the debug area.
#[derive(Debug, Clone, Copy, PartialEq, Eq, Structural)]
pub enum DebugWrite {
    Byte { addr: u64, byte: u8 },
    Word { addr: u64, word: u32 },
    DoubleWord { addr: u64, dword: u64 },
}

/// The stores that record `s` at `addr`: its length (at most 256) as a
/// word, its bytes after that, and a terminating zero when it is shorter
/// than 256 bytes.
pub open spec fn str_record(addr: u64, s: Seq<u8>) -> Seq<DebugWrite> {
    let len = if s.len() < DEBUG_STR_MAX { s.len() as int } else { DEBUG_STR_MAX as int };
    let body = Seq::new(len as nat, |i: int| DebugWrite::Byte { addr: (addr + 4 + i) as u64, byte: s[i] });
    let head = seq![DebugWrite::Word { addr, word: len as u32 }];
    if len < DEBUG_STR_MAX {
        head + body + seq![DebugWrite::Byte { addr: (addr + 4 + len) as u64, byte: 0 }]
    } else {
        head + body
    }
}

/// Records a string in the debug area.
pub fn debug_write_str(addr: u64, s: &str) -> (r: Vec<DebugWrite>)
    requires
        addr + 4 + DEBUG_STR_MAX <= u64::MAX,
    ensures
        r@ == str_record(addr, s.spec_bytes()),
{
    let bytes = s.as_bytes();
    let len: usize = if bytes.len() < DEBUG_STR_MAX {
        bytes.len()
    } else {
        DEBUG_STR_MAX
    };
    let mut out: Vec<DebugWrite> = Vec::new();
    out.push(DebugWrite::Word { addr, word: len as u32 });
    let mut i: usize = 0;
    while i < len
        invariant
            bytes@ == s.spec_bytes(),
            len <= bytes@.len(),
            len <= DEBUG_STR_MAX,
            addr + 4 + DEBUG_STR_MAX <= u64::MAX,
            0 <= i <= len,
            out@ == seq![DebugWrite::Word { addr, word: len as u32 }] + Seq::new(
                i as nat,
                |k: int| DebugWrite::Byte { addr: (addr + 4 + k) as u64, byte: bytes@[k] },
            ),
        decreases len - i,
    {
        out.push(DebugWrite::Byte { addr: addr + 4 + i as u64, byte: bytes[i] });
        i = i + 1;
        assert(out@ =~= seq![DebugWrite::Word { addr, word: len as u32 }] + Seq::new(
            i as nat,
            |k: int| DebugWrite::Byte { addr: (addr + 4 + k) as u64, byte: bytes@[k] },
        ));
    }
    if len < DEBUG_STR_MAX {
        out.push(DebugWrite::Byte { addr: addr + 4 + len as u64, byte: 0 });
    }
    assert(out@ =~= str_record(addr, s.spec_bytes()));
    out
}

/// Records a boot stage, and the cycle count `cycle` at which it was reached.
pub fn set_debug_marker(marker: DebugMarker, cycle: u64) -> (r: Vec<DebugWrite>)
    ensures
        r@ == seq![
            DebugWrite::Word { addr: DEBUG_BUFFER_ADDRESS, word: marker.spec_code() },
            DebugWrite::DoubleWord { addr: (DEBUG_BUFFER_ADDRESS + 8) as u64, dword: cycle },
        ],
{
    let mut out: Vec<DebugWrite> = Vec::new();
    out.push(DebugWrite::Word { addr: DEBUG_BUFFER_ADDRESS, word: marker.code() });
    out.push(DebugWrite::DoubleWord { addr: DEBUG_BUFFER_ADDRESS + 8, dword: cycle });
    assert(out@ =~= seq![
        DebugWrite::Word { addr: DEBUG_BUFFER_ADDRESS, word: marker.spec_code() },
        DebugWrite::DoubleWord { addr: (DEBUG_BUFFER_ADDRESS + 8) as u64, dword: cycle },
    ]);
    out
}

/// Times a stage of the boot in cycles.
pub struct PerfCounter {
    pub start_cycle: u64,
    pub description: &'static str,
}

impl PerfCounter {
    /// A counter started at cycle `start_cycle`.
    pub fn new(description: &'static str, start_cycle: u64) -> (r: Self)
        ensures
            r.start_cycle == start_cycle,
            r.description == description,
    {
        PerfCounter { start_cycle, description }
    }

    /// Cycles from the start to `now`, modulo 2^64.
    pub fn elapsed(&self, now: u64) -> (r: u64)
        ensures
            r == (now - self.start_cycle + 0x1_0000_0000_0000_0000) % 0x1_0000_0000_0000_0000,
    {
        now.wrapping_sub(self.start_cycle)
    }

    /// Records the elapsed cycles at offset 0x20 of the debug area and the
    /// description at offset 0x30.
    pub fn print_elapsed(&self, now: u64) -> (r: Vec<DebugWrite>)
        ensures
            r@ == seq![
                DebugWrite::DoubleWord {
                    addr: (DEBUG_BUFFER_ADDRESS + 0x20) as u64,
                    dword: ((now - self.start_cycle + 0x1_0000_0000_0000_0000) % 0x1_0000_0000_0000_0000) as u64,
                },
            ] + str_record((DEBUG_BUFFER_ADDRESS + 0x30) as u64, self.description.spec_bytes()),
    {
        let mut out: Vec<DebugWrite> = Vec::new();
        out.push(DebugWrite::DoubleWord { addr: DEBUG_BUFFER_ADDRESS + 0x20, dword: self.elapsed(now) });
        let mut text = debug_write_str(DEBUG_BUFFER_ADDRESS + 0x30, self.description);
        out.append(&mut text);
        out
    }
}

/// The layout of the debug area.
pub struct DebugBuffer {
    pub magic: u32,
    pub stage_marker: u32,
    pub error_code: u32,
    pub cycle_count: u64,
    pub data1: u64,
    pub data2: u64,
    pub message: [u8; 256],
}

/// `msg`'s first bytes, as many as fit before the terminator.
pub open spec fn message_len(msg: Seq<u8>) -> int {
    if msg.len() < DEBUG_MESSAGE_LEN - 1 {
        msg.len() as int
    } else {
        DEBUG_MESSAGE_LEN - 1
    }
}

impl DebugBuffer {
    /// A cleared debug area carrying its magic number.
    pub fn init() -> (r: Self)
        ensures
            r.magic == DEBUG_MAGIC,
            r.stage_marker == 0 && r.error_code == 0 && r.cycle_count == 0 && r.data1 == 0 && r.data2 == 0,
            forall|i: int| 0 <= i < DEBUG_MESSAGE_LEN ==> r.message@[i] == 0,
    {
        DebugBuffer {
            magic: DEBUG_MAGIC,
            stage_marker: 0,
            error_code: 0,
            cycle_count: 0,
            data1: 0,
            data2: 0,
            message: [0u8; 256],
        }
    }

    /// Stores `msg`, cut to 255 bytes, followed by a zero byte.
    pub fn set_message(&mut self, msg: &str)
        ensures
            forall|i: int| 0 <= i < message_len(msg.spec_bytes()) ==> final(self).message@[i] == msg.spec_bytes()[i],
            final(self).message@[message_len(msg.spec_bytes())] == 0,
            forall|i: int| message_len(msg.spec_bytes()) < i < DEBUG_MESSAGE_LEN ==> final(self).message@[i]
                == old(self).message@[i],
            final(self).magic == old(self).magic,
            final(self).stage_marker == old(self).stage_marker,
            final(self).error_code == old(self).error_code,
            final(self).cycle_count == old(self).cycle_count,
            final(self).data1 == old(self).data1,
            final(self).data2 == old(self).data2,
    {
        let bytes = msg.as_bytes();
        let len: usize = if bytes.len() < DEBUG_MESSAGE_LEN - 1 {
            bytes.len()
        } else {
            DEBUG_MESSAGE_LEN - 1
        };
        let mut i: usize = 0;
        while i < len
            invariant
                bytes@ == msg.spec_bytes(),
                len == message_len(bytes@),
                0 <= i <= len,
                forall|k: int| 0 <= k < i ==> self.message@[k] == bytes@[k],
                forall|k: int| i <= k < DEBUG_MESSAGE_LEN ==> self.message@[k] == old(self).message@[k],
                self.magic == old(self).magic,
                self.stage_marker == old(self).stage_marker,
                self.error_code == old(self).error_code,
                self.cycle_count == old(self).cycle_count,
                self.data1 == old(self).data1,
                self.data2 == old(self).data2,
            decreases len - i,
        {
            self.message[i] = bytes[i];
            i = i + 1;
        }
        self.message[len] = 0;
    }

    /// Records an error code and its message.
    pub fn set_error(&mut self, code: u32, msg: &str)
        ensures
            final(self).error_code == code,
            forall|i: int| 0 <= i < message_len(msg.spec_bytes()) ==> final(self).message@[i] == msg.spec_bytes()[i],
            final(self).message@[message_len(msg.spec_bytes())] == 0,
            final(self).magic == old(self).magic,
    {
        self.error_code = code;
        self.set_message(msg);
    }
}

} // verus!
