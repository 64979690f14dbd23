use mos6502::memory::Mem;
use simple_error::SimpleError;

#[test]
fn test_mem_init() {
    let mem = Mem::new();

    for i in 0..0xffff {
        assert_eq!(mem.read(i as u16), 0x00);
    }
}

#[test]
fn test_mem_read_write() {
    let mut mem = Mem::new();

    mem.write(0x01, 0xff);

    assert_eq!(mem.read(0x01), 0xff);
}

#[test]
fn test_mem_read16() {
    let mut mem = Mem::new();

    mem.write(0x01, 0xff);
    mem.write(0x02, 0xcc);

    assert_eq!(mem.read16(0x01), Ok(0xccff));
}

#[test]
fn test_mem_read16_out_of_range() {
    let mem = Mem::new();

    assert_eq!(
        mem.read16(0xffff),
        Err(SimpleError::new(
            "cannot read two bytes starting from address 0xffff"
        ))
    );
}

#[test]
fn test_mem_write_range() {
    let mut mem = Mem::new();
    let input: Vec<u8> = vec![0, 1, 2, 3, 4, 5];

    assert_eq!(mem.write_range(0x01, &input[1..]), Ok(()));

    assert_eq!(mem.read(0x01), 1);
    assert_eq!(mem.read(0x02), 2);
    assert_eq!(mem.read(0x03), 3);
    assert_eq!(mem.read(0x04), 4);
    assert_eq!(mem.read(0x05), 5);
}

#[test]
fn test_mem_write16() {
    let mut mem = Mem::new();

    assert_eq!(mem.write16(0x01, 0xffcc), Ok(()));

    assert_eq!(mem.read16(0x01), Ok(0xffcc));
}

#[test]
fn test_mem_write16_out_or_range() {
    let mut mem = Mem::new();

    assert_eq!(
        mem.write16(0xffff, 0xffff),
        Err(SimpleError::new("cannot write two bytes at address 0xffff"))
    );
}

#[test]
fn test_mem_write_range_out_of_range() {
    let mut mem = Mem::new();
    let input: Vec<u8> = vec![0, 1, 2, 3, 4, 5];

    assert_eq!(
        mem.write_range(0xfffe, &input[1..]),
        Err(SimpleError::new(
            "Range exceeds the memory space: start_addr = 0xfffe, range_length = 5"
        ))
    );
}

#[test]
fn fresh_memory_is_zero_at_the_last_address_too() {
    let mem = Mem::new();

    assert_eq!(mem.read(0x0000), 0);
    assert_eq!(mem.read(0x8000), 0);
    assert_eq!(mem.read(0xffff), 0);
}

#[test]
fn write_leaves_the_neighbours_alone() {
    let mut mem = Mem::new();

    mem.write(0x1000, 0xab);

    assert_eq!(mem.read(0x0fff), 0);
    assert_eq!(mem.read(0x1000), 0xab);
    assert_eq!(mem.read(0x1001), 0);
}

#[test]
fn write16_is_little_endian() {
    let mut mem = Mem::new();

    assert_eq!(mem.write16(0x0200, 0xabcd), Ok(()));

    assert_eq!(mem.read(0x0200), 0xcd);
    assert_eq!(mem.read(0x0201), 0xab);
    assert_eq!(mem.read(0x01ff), 0);
    assert_eq!(mem.read(0x0202), 0);
}

#[test]
fn write16_then_read16_gives_the_value_back() {
    let addrs: Vec<u16> = vec![0x0000, 0x00ff, 0x1234, 0x7fff, 0xfffc, 0xfffe];
    let vals: Vec<u16> = vec![0x0000, 0x0001, 0x00ff, 0x0100, 0x8000, 0xabcd, 0xffff];
    for addr in addrs.iter() {
        for val in vals.iter() {
            let mut mem = Mem::new();
            assert_eq!(mem.write16(*addr, *val), Ok(()));
            assert_eq!(mem.read16(*addr), Ok(*val));
        }
    }
}

#[test]
fn read16_just_below_the_last_address() {
    let mut mem = Mem::new();

    mem.write(0xfffe, 0x34);
    mem.write(0xffff, 0x12);

    assert_eq!(mem.read16(0xfffe), Ok(0x1234));
}

#[test]
fn write16_at_the_last_address_stores_nothing() {
    let mut mem = Mem::new();
    mem.write(0xffff, 0x11);
    mem.write(0x0000, 0x22);

    assert!(mem.write16(0xffff, 0xabcd).is_err());

    assert_eq!(mem.read(0xffff), 0x11);
    assert_eq!(mem.read(0x0000), 0x22);
}

#[test]
fn error_messages_read_as_text() {
    let mut mem = Mem::new();

    let read = mem.read16(0xffff).unwrap_err();
    assert_eq!(read.as_str(), "cannot read two bytes starting from address 0xffff");

    let write = mem.write16(0xffff, 1).unwrap_err();
    assert_eq!(write.as_str(), "cannot write two bytes at address 0xffff");

    let range = mem.write_range(0x00ab, &vec![0u8; 65450]).unwrap_err();
    assert_eq!(
        range.as_str(),
        "Range exceeds the memory space: start_addr = 0xab, range_length = 65450"
    );
}

#[test]
fn write_range_up_to_the_last_address() {
    let mut mem = Mem::new();

    assert_eq!(mem.write_range(0xfffe, &[0x0a, 0x0b]), Ok(()));

    assert_eq!(mem.read(0xfffd), 0);
    assert_eq!(mem.read(0xfffe), 0x0a);
    assert_eq!(mem.read(0xffff), 0x0b);
}

#[test]
fn write_range_one_byte_too_long_stores_nothing() {
    let mut mem = Mem::new();
    mem.write(0xfffe, 0x77);

    assert_eq!(
        mem.write_range(0xfffe, &[0x0a, 0x0b, 0x0c]),
        Err(SimpleError::new(
            "Range exceeds the memory space: start_addr = 0xfffe, range_length = 3"
        ))
    );

    assert_eq!(mem.read(0xfffe), 0x77);
    assert_eq!(mem.read(0xffff), 0);
    assert_eq!(mem.read(0x0000), 0);
}

#[test]
fn write_range_of_the_whole_memory() {
    let mut mem = Mem::new();
    let mut all = vec![0u8; 0x1_0000];
    for i in 0..all.len() {
        all[i] = (i % 251) as u8;
    }

    assert_eq!(mem.write_range(0x0000, &all), Ok(()));

    assert_eq!(mem.read(0x0000), 0);
    assert_eq!(mem.read(0x00fa), 250);
    assert_eq!(mem.read(0x00fb), 0);
    assert_eq!(mem.read(0xffff), (0xffff % 251) as u8);

    assert!(mem.write_range(0x0001, &all).is_err());
}

#[test]
fn write_range_of_nothing() {
    let mut mem = Mem::new();
    mem.write(0xffff, 0x55);

    assert_eq!(mem.write_range(0xffff, &[]), Ok(()));
    assert_eq!(mem.write_range(0x0000, &[]), Ok(()));

    assert_eq!(mem.read(0xffff), 0x55);
    assert_eq!(mem.read(0x0000), 0);
}

#[test]
fn write_range_overwrites_only_its_range() {
    let mut mem = Mem::new();
    assert_eq!(mem.write_range(0x0010, &[1, 2, 3, 4, 5, 6]), Ok(()));

    assert_eq!(mem.write_range(0x0012, &[0xa0, 0xb0]), Ok(()));

    assert_eq!(mem.read(0x000f), 0);
    assert_eq!(mem.read(0x0010), 1);
    assert_eq!(mem.read(0x0011), 2);
    assert_eq!(mem.read(0x0012), 0xa0);
    assert_eq!(mem.read(0x0013), 0xb0);
    assert_eq!(mem.read(0x0014), 5);
    assert_eq!(mem.read(0x0015), 6);
    assert_eq!(mem.read(0x0016), 0);
}
