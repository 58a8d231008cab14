//! Memory-mapped address router of the arcade board: four fixed,
//! non-overlapping banks (program ROM, working RAM, video frame buffer, and
//! an unmapped mirror region) plus the write-ignore window quirk of the
//! original decode logic.

use vstd::prelude::*;

verus! {

pub const ROM_SIZE: usize = 0x2000;
pub const RAM_SIZE: usize = 0x0400;
pub const VRAM_SIZE: usize = 0x1C00;
pub const MIRROR_SIZE: usize = 0xC000;
/// Each of the four ROM image segments loaded at session start.
pub const SEGMENT_SIZE: usize = 0x0800;

pub const ROM_OFFSET: usize = 0x0000;
pub const RAM_OFFSET: usize = 0x2000;
pub const VRAM_OFFSET: usize = 0x2400;
pub const MIRROR_OFFSET: usize = 0x4000;

/// Fatal hardware faults. A fault aborts the current frame advance; the
/// session is considered unrecoverable.
#[derive(Clone, Copy, Debug, PartialEq, Eq, Structural)]
pub enum Fault {
    /// A write targeted read-only program ROM: real hardware cannot drive
    /// that bus.
    IllegalWrite { address: u16, value: u8 },
    /// A read or write fell into the unmapped mirror region: no hardware
    /// acknowledges that range.
    UnmappedAccess { address: u16 },
    /// The external stepping engine rejected an interrupt request.
    InterruptDelivery,
}

/// The address lies in program ROM.
pub open spec fn in_rom(address: u16) -> bool {
    (address as int) < RAM_OFFSET
}

/// The address lies in working RAM.
pub open spec fn in_ram(address: u16) -> bool {
    RAM_OFFSET <= (address as int) < VRAM_OFFSET
}

/// The address lies in the video frame buffer.
pub open spec fn in_vram(address: u16) -> bool {
    VRAM_OFFSET <= (address as int) < MIRROR_OFFSET
}

/// The address lies in the unmapped mirror region.
pub open spec fn in_mirror(address: u16) -> bool {
    MIRROR_OFFSET <= (address as int)
}

/// The address lies in the write-ignore window: writes there succeed as
/// no-ops, while reads still fault through the mirror bank.
pub open spec fn write_ignored(address: u16) -> bool {
    0x4000 <= (address as int) < 0x4200
}

/// Every 16-bit address falls in exactly one bank: the four ranges are
/// pairwise disjoint and their union covers the whole address space.
pub proof fn lemma_banks_partition(address: u16)
    ensures
        in_rom(address) || in_ram(address) || in_vram(address) || in_mirror(address),
        in_rom(address) ==> !in_ram(address) && !in_vram(address) && !in_mirror(address),
        in_ram(address) ==> !in_rom(address) && !in_vram(address) && !in_mirror(address),
        in_vram(address) ==> !in_rom(address) && !in_ram(address) && !in_mirror(address),
        in_mirror(address) ==> !in_rom(address) && !in_ram(address) && !in_vram(address),
{
}

/// Read-only program ROM, 8 KiB at the bottom of the address space.
pub struct Rom {
    pub data: Vec<u8>,
}

impl Rom {
    pub open spec fn wf(self) -> bool {
        self.data@.len() == ROM_SIZE
    }

    pub fn offset(&self) -> (r: usize)
        ensures
            r == ROM_OFFSET,
    {
        ROM_OFFSET
    }

    pub fn size(&self) -> (r: usize)
        requires
            self.wf(),
        ensures
            r == ROM_SIZE,
    {
        self.data.len()
    }

    pub fn contains(&self, address: u16) -> (r: bool)
        requires
            self.wf(),
        ensures
            r == in_rom(address),
    {
        let a = address as usize;
        a >= self.offset() && a < self.offset() + self.size()
    }

    pub fn address(&self, address: u16) -> (r: usize)
        requires
            in_rom(address),
        ensures
            r == address as int - ROM_OFFSET,
    {
        address as usize - ROM_OFFSET
    }

    pub fn read_byte(&self, address: u16) -> (r: Result<u8, Fault>)
        requires
            self.wf(),
            in_rom(address),
        ensures
            r == Ok::<u8, Fault>(self.data@[address as int]),
    {
        Ok(self.data[self.address(address)])
    }

    pub fn write_byte(&mut self, address: u16, value: u8) -> (r: Result<(), Fault>)
        ensures
            *final(self) == *old(self),
            r == Err::<(), Fault>((Fault::IllegalWrite { address, value })),
    {
        Err(Fault::IllegalWrite { address, value })
    }
}

/// Working RAM, 1 KiB, zero-initialized at session start.
pub struct Ram {
    pub data: Vec<u8>,
}

impl Ram {
    pub open spec fn wf(self) -> bool {
        self.data@.len() == RAM_SIZE
    }

    /// Fresh working RAM, all bytes zero.
    pub fn new() -> (r: Ram)
        ensures
            r.wf(),
            forall|i: int| 0 <= i < RAM_SIZE ==> r.data@[i] == 0,
    {
        Ram { data: zeroed(RAM_SIZE) }
    }

    pub fn offset(&self) -> (r: usize)
        ensures
            r == RAM_OFFSET,
    {
        RAM_OFFSET
    }

    pub fn size(&self) -> (r: usize)
        requires
            self.wf(),
        ensures
            r == RAM_SIZE,
    {
        self.data.len()
    }

    pub fn contains(&self, address: u16) -> (r: bool)
        requires
            self.wf(),
        ensures
            r == in_ram(address),
    {
        let a = address as usize;
        a >= self.offset() && a < self.offset() + self.size()
    }

    pub fn address(&self, address: u16) -> (r: usize)
        requires
            in_ram(address),
        ensures
            r == address as int - RAM_OFFSET,
    {
        address as usize - RAM_OFFSET
    }

    pub fn read_byte(&self, address: u16) -> (r: Result<u8, Fault>)
        requires
            self.wf(),
            in_ram(address),
        ensures
            r == Ok::<u8, Fault>(self.data@[address as int - RAM_OFFSET]),
    {
        Ok(self.data[self.address(address)])
    }

    pub fn write_byte(&mut self, address: u16, value: u8) -> (r: Result<(), Fault>)
        requires
            old(self).wf(),
            in_ram(address),
        ensures
            final(self).data@ == old(self).data@.update(address as int - RAM_OFFSET, value),
            final(self).wf(),
            r == Ok::<(), Fault>(()),
    {
        let a = self.address(address);
        self.data[a] = value;
        Ok(())
    }
}

/// Video frame buffer, 7 KiB; the host reads it back after every completed
/// frame. Access is bounds-checked indexed access into an owned byte buffer.
pub struct VRam {
    pub data: Vec<u8>,
}

impl VRam {
    pub open spec fn wf(self) -> bool {
        self.data@.len() == VRAM_SIZE
    }

    /// Takes over a frame buffer supplied by the host.
    pub fn new(data: Vec<u8>) -> (r: VRam)
        requires
            data@.len() == VRAM_SIZE,
        ensures
            r.wf(),
            r.data@ == data@,
    {
        VRam { data }
    }

    pub fn offset(&self) -> (r: usize)
        ensures
            r == VRAM_OFFSET,
    {
        VRAM_OFFSET
    }

    pub fn size(&self) -> (r: usize)
        requires
            self.wf(),
        ensures
            r == VRAM_SIZE,
    {
        self.data.len()
    }

    pub fn contains(&self, address: u16) -> (r: bool)
        requires
            self.wf(),
        ensures
            r == in_vram(address),
    {
        let a = address as usize;
        a >= self.offset() && a < self.offset() + self.size()
    }

    pub fn address(&self, address: u16) -> (r: usize)
        requires
            in_vram(address),
        ensures
            r == address as int - VRAM_OFFSET,
    {
        address as usize - VRAM_OFFSET
    }

    pub fn read_byte(&self, address: u16) -> (r: Result<u8, Fault>)
        requires
            self.wf(),
            in_vram(address),
        ensures
            r == Ok::<u8, Fault>(self.data@[address as int - VRAM_OFFSET]),
    {
        Ok(self.data[self.address(address)])
    }

    pub fn write_byte(&mut self, address: u16, value: u8) -> (r: Result<(), Fault>)
        requires
            old(self).wf(),
            in_vram(address),
        ensures
            final(self).data@ == old(self).data@.update(address as int - VRAM_OFFSET, value),
            final(self).wf(),
            r == Ok::<(), Fault>(()),
    {
        let a = self.address(address);
        self.data[a] = value;
        Ok(())
    }
}

/// Synthetic bank for the remaining address space: every access is a decode
/// error, reproducing unmapped address lines.
pub struct Mirror {}

impl Mirror {
    pub fn offset(&self) -> (r: usize)
        ensures
            r == MIRROR_OFFSET,
    {
        MIRROR_OFFSET
    }

    pub fn size(&self) -> (r: usize)
        ensures
            r == MIRROR_SIZE,
    {
        MIRROR_SIZE
    }

    pub fn contains(&self, address: u16) -> (r: bool)
        ensures
            r == in_mirror(address),
    {
        let a = address as usize;
        a >= self.offset() && a < self.offset() + self.size()
    }

    pub fn read_byte(&self, address: u16) -> (r: Result<u8, Fault>)
        ensures
            r == Err::<u8, Fault>((Fault::UnmappedAccess { address })),
    {
        Err(Fault::UnmappedAccess { address })
    }

    pub fn write_byte(&mut self, address: u16, value: u8) -> (r: Result<(), Fault>)
        ensures
            *final(self) == *old(self),
            r == Err::<(), Fault>((Fault::UnmappedAccess { address })),
    {
        Err(Fault::UnmappedAccess { address })
    }
}

/// A byte buffer of length `n`, all zero.
fn zeroed(n: usize) -> (r: Vec<u8>)
    ensures
        r@.len() == n,
        forall|i: int| 0 <= i < n ==> r@[i] == 0,
{
    let mut v: Vec<u8> = Vec::new();
    while v.len() < n
        invariant
            v@.len() <= n,
            forall|i: int| 0 <= i < v@.len() ==> v@[i] == 0,
        decreases n - v@.len(),
    {
        v.push(0);
    }
    v
}

/// Loads the program ROM from its four fixed-size image segments,
/// concatenated in order.
pub fn load_rom(seg0: &Vec<u8>, seg1: &Vec<u8>, seg2: &Vec<u8>, seg3: &Vec<u8>) -> (r: Rom)
    requires
        seg0@.len() == SEGMENT_SIZE,
        seg1@.len() == SEGMENT_SIZE,
        seg2@.len() == SEGMENT_SIZE,
        seg3@.len() == SEGMENT_SIZE,
    ensures
        r.wf(),
        r.data@ == seg0@ + seg1@ + seg2@ + seg3@,
{
    let mut data: Vec<u8> = Vec::new();
    append_all(&mut data, seg0);
    append_all(&mut data, seg1);
    append_all(&mut data, seg2);
    append_all(&mut data, seg3);
    proof {
        assert(data@ =~= seg0@ + seg1@ + seg2@ + seg3@);
    }
    Rom { data }
}

/// Appends every byte of `src` to `dst`, in order.
fn append_all(dst: &mut Vec<u8>, src: &Vec<u8>)
    ensures
        final(dst)@ == old(dst)@ + src@,
{
    let mut i: usize = 0;
    while i < src.len()
        invariant
            i <= src@.len(),
            dst@ == old(dst)@ + src@.subrange(0, i as int),
        decreases src@.len() - i,
    {
        dst.push(src[i]);
        i = i + 1;
        proof {
            assert(dst@ =~= old(dst)@ + src@.subrange(0, i as int));
        }
    }
    proof {
        assert(src@.subrange(0, src@.len() as int) =~= src@);
    }
}

/// The result the router returns for a write at `address`: success in the
/// RAM and frame-buffer banks and in the write-ignore window, `IllegalWrite`
/// in ROM, `UnmappedAccess` in the mirror region.
pub open spec fn write_result(address: u16, value: u8) -> Result<(), Fault> {
    if write_ignored(address) {
        Ok(())
    } else if in_rom(address) {
        Err(Fault::IllegalWrite { address, value })
    } else if in_ram(address) || in_vram(address) {
        Ok(())
    } else {
        Err(Fault::UnmappedAccess { address })
    }
}

/// How a write at `address` relates the router state before (`pre`) and
/// after (`post`): only the bank owning the address changes, and only at the
/// written cell; ROM never changes.
pub open spec fn write_rel(pre: SIMmu, post: SIMmu, address: u16, value: u8) -> bool {
    &&& post.rom.data@ == pre.rom.data@
    &&& post.ram.data@ == (if in_ram(address) {
        pre.ram.data@.update(address as int - RAM_OFFSET, value)
    } else {
        pre.ram.data@
    })
    &&& post.vram.data@ == (if in_vram(address) {
        pre.vram.data@.update(address as int - VRAM_OFFSET, value)
    } else {
        pre.vram.data@
    })
}

/// The address-space router: owns the four banks and dispatches every
/// 16-bit memory access to the bank whose range contains it.
pub struct SIMmu {
    pub rom: Rom,
    pub ram: Ram,
    pub vram: VRam,
    pub mirror: Mirror,
}

impl SIMmu {
    pub open spec fn wf(self) -> bool {
        self.rom.wf() && self.ram.wf() && self.vram.wf()
    }

    /// What a read at `address` returns: the backing byte in ROM, RAM and
    /// the frame buffer, and `UnmappedAccess` everywhere at or above the
    /// mirror offset — reads in the write-ignore window fault too.
    pub open spec fn read_spec(self, address: u16) -> Result<u8, Fault> {
        if in_rom(address) {
            Ok(self.rom.data@[address as int])
        } else if in_ram(address) {
            Ok(self.ram.data@[address as int - RAM_OFFSET])
        } else if in_vram(address) {
            Ok(self.vram.data@[address as int - VRAM_OFFSET])
        } else {
            Err(Fault::UnmappedAccess { address })
        }
    }

    /// Assembles the router from the loaded ROM and the host-supplied frame
    /// buffer; working RAM starts zeroed.
    pub fn new(rom: Rom, vram: VRam) -> (r: SIMmu)
        requires
            rom.wf(),
            vram.wf(),
        ensures
            r.wf(),
            r.rom == rom,
            r.vram == vram,
            forall|i: int| 0 <= i < RAM_SIZE ==> r.ram.data@[i] == 0,
    {
        SIMmu { rom, ram: Ram::new(), vram, mirror: Mirror {} }
    }

    /// The write-ignore window [0x4000, 0x4200): writes succeed as no-ops
    /// and never reach the mirror bank.
    fn should_ignore_it(&self, address: u16) -> (r: bool)
        ensures
            r == write_ignored(address),
    {
        0x4000 <= address && address < 0x4200
    }

    /// Routes a read to the bank containing `address`.
    pub fn read_byte(&self, address: u16) -> (r: Result<u8, Fault>)
        requires
            self.wf(),
        ensures
            r == self.read_spec(address),
    {
        if self.rom.contains(address) {
            self.rom.read_byte(address)
        } else if self.ram.contains(address) {
            self.ram.read_byte(address)
        } else if self.vram.contains(address) {
            self.vram.read_byte(address)
        } else {
            proof {
                lemma_banks_partition(address);
            }
            self.mirror.read_byte(address)
        }
    }

    /// Routes a write: the ignore window first, then the bank containing
    /// `address`.
    pub fn write_byte(&mut self, address: u16, value: u8) -> (r: Result<(), Fault>)
        requires
            old(self).wf(),
        ensures
            final(self).wf(),
            r == write_result(address, value),
            write_rel(*old(self), *final(self), address, value),
    {
        if self.should_ignore_it(address) {
            return Ok(());
        }
        if self.rom.contains(address) {
            self.rom.write_byte(address, value)
        } else if self.ram.contains(address) {
            self.ram.write_byte(address, value)
        } else if self.vram.contains(address) {
            self.vram.write_byte(address, value)
        } else {
            proof {
                lemma_banks_partition(address);
            }
            self.mirror.write_byte(address, value)
        }
    }
}

/// In ROM, every write is rejected as `IllegalWrite` and leaves all banks
/// unchanged, and a read returns the byte loaded at that offset.
pub proof fn lemma_rom_region(pre: SIMmu, post: SIMmu, address: u16, value: u8)
    requires
        pre.wf(),
        in_rom(address),
        write_rel(pre, post, address, value),
    ensures
        write_result(address, value) == Err::<(), Fault>((Fault::IllegalWrite { address, value })),
        post.rom.data@ == pre.rom.data@,
        post.ram.data@ == pre.ram.data@,
        post.vram.data@ == pre.vram.data@,
        pre.read_spec(address) == Ok::<u8, Fault>(pre.rom.data@[address as int]),
{
}

/// RAM round-trip: in the RAM bank a write succeeds and a following read
/// returns the written byte.
pub proof fn lemma_ram_round_trip(pre: SIMmu, post: SIMmu, address: u16, value: u8)
    requires
        pre.wf(),
        in_ram(address),
        write_rel(pre, post, address, value),
    ensures
        write_result(address, value) == Ok::<(), Fault>(()),
        post.read_spec(address) == Ok::<u8, Fault>(value),
{
}

/// Frame-buffer round-trip: in the video bank a write succeeds and a
/// following read returns the written byte through the shared buffer.
pub proof fn lemma_vram_round_trip(pre: SIMmu, post: SIMmu, address: u16, value: u8)
    requires
        pre.wf(),
        in_vram(address),
        write_rel(pre, post, address, value),
    ensures
        write_result(address, value) == Ok::<(), Fault>(()),
        post.read_spec(address) == Ok::<u8, Fault>(value),
{
}

/// The write-ignore window: a write succeeds yet alters no bank's stored
/// bytes, while a read still faults as unmapped.
pub proof fn lemma_ignore_window(pre: SIMmu, post: SIMmu, address: u16, value: u8)
    requires
        pre.wf(),
        write_ignored(address),
        write_rel(pre, post, address, value),
    ensures
        write_result(address, value) == Ok::<(), Fault>(()),
        post.rom.data@ == pre.rom.data@,
        post.ram.data@ == pre.ram.data@,
        post.vram.data@ == pre.vram.data@,
        pre.read_spec(address) == Err::<u8, Fault>((Fault::UnmappedAccess { address })),
{
}

/// Above the ignore window, both reads and writes fault as unmapped, and a
/// write alters no bank.
pub proof fn lemma_unmapped_region(pre: SIMmu, post: SIMmu, address: u16, value: u8)
    requires
        pre.wf(),
        0x4200 <= address,
        write_rel(pre, post, address, value),
    ensures
        write_result(address, value) == Err::<(), Fault>((Fault::UnmappedAccess { address })),
        pre.read_spec(address) == Err::<u8, Fault>((Fault::UnmappedAccess { address })),
        post.rom.data@ == pre.rom.data@,
        post.ram.data@ == pre.ram.data@,
        post.vram.data@ == pre.vram.data@,
{
}

} // verus!
