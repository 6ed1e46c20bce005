use emu816::mmu::Mmu;

fn patterned_cartridge(len: usize) -> Vec<u8> {
    let mut cart = vec![0u8; len];
    for (i, b) in cart.iter_mut().enumerate() {
        *b = (i % 251) as u8;
    }
    cart
}

#[test]
fn lorom_maps_first_banks_to_cartridge() {
    let cart = patterned_cartridge(0x10000);
    let mmu = Mmu::new(cart.clone());
    assert_eq!(mmu.read_u8(0x008000), cart[0x0000]);
    assert_eq!(mmu.read_u8(0x018000), cart[0x8000]);
    assert_eq!(mmu.read_u8(0x00FFFF), cart[0x7FFF]);
    assert_eq!(mmu.read_u8(0x018001), cart[0x8001]);
}

#[test]
fn bank_7e_aliases_low_ram() {
    let mut mmu = Mmu::new(vec![0u8; 0x8000]);
    mmu.store_u8(0x000010, 0xAB);
    assert_eq!(mmu.read_u8(0x7E0010), 0xAB);
    mmu.store_u8(0x7E0020, 0xCD);
    assert_eq!(mmu.read_u8(0x000020), 0xCD);
    assert_eq!(mmu.read_u8(0x3F0020), 0xCD);
}

#[test]
fn placeholder_windows_read_zero_and_drop_stores() {
    let mut mmu = Mmu::new(vec![0u8; 0x8000]);
    assert_eq!(mmu.read_u8(0x002000), 0);
    assert_eq!(mmu.read_u8(0x004200), 0);
    mmu.store_u8(0x002000, 0x55);
    assert_eq!(mmu.read_u8(0x002000), 0);
}

#[test]
fn coprocessor_ports_start_with_handshake_and_accept_stores() {
    let mut mmu = Mmu::new(vec![0u8; 0x8000]);
    assert_eq!(mmu.read_u8(0x002140), 0xAA);
    assert_eq!(mmu.read_u8(0x002141), 0xBB);
    assert_eq!(mmu.read_u8(0x002142), 0x00);
    mmu.store_u8(0x002143, 0x99);
    assert_eq!(mmu.read_u8(0x002143), 0x99);
}

#[test]
fn rom_writes_are_dropped() {
    let mut mmu = Mmu::new(patterned_cartridge(0x8000));
    let before = mmu.read_u8(0x008123);
    mmu.store_u8(0x008123, before.wrapping_add(1));
    assert_eq!(mmu.read_u8(0x008123), before);
}

#[test]
fn unmapped_bank_reads_and_stores_fault() {
    let mut mmu = Mmu::new(vec![0u8; 0x8000]);
    assert!(mmu.try_read_u8(0x400000).is_err());
    assert!(mmu.try_read_u8(0x7F0000).is_err());
    assert!(mmu.try_read_u8(0xFF0000).is_err());
    assert!(mmu.try_store_u8(0x400000, 1).is_err());
    assert!(mmu.try_store_u8(0x000000, 1).is_ok());
}

#[test]
fn rom_read_beyond_cartridge_faults() {
    let mmu = Mmu::new(vec![0u8; 0x100]);
    assert!(mmu.try_read_u8(0x008000).is_ok());
    assert!(mmu.try_read_u8(0x0080FF).is_ok());
    assert!(mmu.try_read_u8(0x008100).is_err());
    assert!(mmu.try_read_u8(0x018000).is_err());
}

#[test]
fn word_accesses_are_little_endian() {
    let mut mmu = Mmu::new(vec![0u8; 0x8000]);
    mmu.store_u8(0x000040, 0x34);
    mmu.store_u8(0x000041, 0x12);
    assert_eq!(mmu.read_u16(0x000040), 0x1234);
    mmu.store_u8(0x000042, 0x56);
    assert_eq!(mmu.read_long(0x000040), 0x561234);
    mmu.store_u16(0x000050, 0xBEEF);
    assert_eq!(mmu.read_u8(0x000050), 0xEF);
    assert_eq!(mmu.read_u8(0x000051), 0xBE);
}

#[test]
fn reset_vector_reads_fixed_rom_words()
{
    let mut cart = vec![0u8; 0x8000];
    cart[0x7FFC] = 0x00;
    cart[0x7FFD] = 0x80;
    let mmu = Mmu::new(cart);
    assert_eq!(mmu.reset_vector(), 0x8000);
}
