use space_invaders_core::memory::load_rom;
use space_invaders_core::memory::Fault;
use space_invaders_core::memory::SIMmu;
use space_invaders_core::memory::VRam;
use space_invaders_core::memory::SEGMENT_SIZE;
use space_invaders_core::memory::VRAM_SIZE;

fn zmem() -> SIMmu {
    let seg = vec![0u8; SEGMENT_SIZE];
    let rom = load_rom(&seg, &seg, &seg, &seg);
    SIMmu::new(rom, VRam::new(vec![0u8; VRAM_SIZE]))
}

#[test]
fn ram_write_and_read() {
    for (address, value) in [(0x2000u16, 0xE1u8), (0x2020, 0xA5), (0x23FF, 0x1A)] {
        let mut mem = zmem();
        mem.write_byte(address, value).unwrap();
        assert_eq!(Ok(value), mem.read_byte(address));
    }
}

#[test]
fn rom_write_byte_error() {
    for (address, value) in [(0x0000u16, 0xA2u8), (0x1203, 0xE1), (0x1FFF, 0x01)] {
        let mut mem = zmem();
        assert_eq!(
            Err(Fault::IllegalWrite { address, value }),
            mem.write_byte(address, value)
        );
    }
}

#[test]
fn rom_read_byte() {
    for (address, value) in [(0x0000u16, 0xA2u8), (0x1203, 0xE1), (0x1FFF, 0x01)] {
        let mut mem = zmem();
        mem.rom.data[address as usize] = value;
        assert_eq!(Ok(value), mem.read_byte(address));
    }
}

#[test]
fn rom_loads_segments_in_order() {
    let seg0 = vec![0x10u8; SEGMENT_SIZE];
    let seg1 = vec![0x20u8; SEGMENT_SIZE];
    let seg2 = vec![0x30u8; SEGMENT_SIZE];
    let seg3 = vec![0x40u8; SEGMENT_SIZE];
    let mem = SIMmu::new(
        load_rom(&seg0, &seg1, &seg2, &seg3),
        VRam::new(vec![0u8; VRAM_SIZE]),
    );

    assert_eq!(Ok(0x10), mem.read_byte(0x0000));
    assert_eq!(Ok(0x10), mem.read_byte(0x07FF));
    assert_eq!(Ok(0x20), mem.read_byte(0x0800));
    assert_eq!(Ok(0x30), mem.read_byte(0x1000));
    assert_eq!(Ok(0x40), mem.read_byte(0x1800));
    assert_eq!(Ok(0x40), mem.read_byte(0x1FFF));
}

#[test]
fn vram_write_and_read() {
    for (address, value) in [(0x2400u16, 0xE1u8), (0x2420, 0xA5), (0x2FFF, 0x1A), (0x3FFF, 0x77)] {
        let mut mem = zmem();
        mem.write_byte(address, value).unwrap();
        assert_eq!(Ok(value), mem.read_byte(address));
        assert_eq!(value, mem.vram.data[(address - 0x2400) as usize]);
    }
}

#[test]
fn write_should_ignore() {
    for (address, value) in [(0x4000u16, 0xE1u8), (0x4100, 0xA5), (0x41FF, 0x1A)] {
        let mut mem = zmem();
        assert_eq!(Ok(()), mem.write_byte(address, value));

        // the no-op write altered no bank's stored bytes
        assert!(mem.rom.data.iter().all(|&b| b == 0));
        assert!(mem.ram.data.iter().all(|&b| b == 0));
        assert!(mem.vram.data.iter().all(|&b| b == 0));

        // a read in the ignore window still faults through the mirror bank
        assert_eq!(Err(Fault::UnmappedAccess { address }), mem.read_byte(address));
    }
}

#[test]
fn write_should_return_error() {
    for (address, value) in [(0x4200u16, 0xE1u8), (0xFFFF, 0x1A)] {
        let mut mem = zmem();
        assert_eq!(
            Err(Fault::UnmappedAccess { address }),
            mem.write_byte(address, value)
        );
    }
}

#[test]
fn read_should_return_error() {
    for address in [0x4200u16, 0x5420, 0xFFFF] {
        let mem = zmem();
        assert_eq!(Err(Fault::UnmappedAccess { address }), mem.read_byte(address));
    }
}

#[test]
fn ram_starts_zeroed() {
    let mem = zmem();
    assert_eq!(Ok(0), mem.read_byte(0x2000));
    assert_eq!(Ok(0), mem.read_byte(0x23FF));
}
