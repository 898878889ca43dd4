use dma_mem2mem::buffer::{clear, validate};

#[test]
fn set_writes_the_low_byte_of_each_index() {
    let mut buf: [u16; 300] = [0xffff; 300];
    dma_mem2mem::buffer::set(&mut buf);
    assert_eq!(buf[0], 0);
    assert_eq!(buf[1], 1);
    assert_eq!(buf[255], 255);
    assert_eq!(buf[256], 0);
    assert_eq!(buf[299], 43);
    for i in 0..300usize {
        assert_eq!(buf[i], (i % 256) as u16);
    }
}

#[test]
fn set_then_validate_u8() {
    for n in [0usize, 1, 2, 31, 32, 255, 256] {
        let mut buf: Vec<u8> = vec![0xa5; n];
        dma_mem2mem::buffer::set(&mut buf);
        assert!(validate(&buf), "length {}", n);
    }
}

#[test]
fn set_then_validate_u16() {
    for n in [0usize, 1, 2, 31, 32, 255, 256] {
        let mut buf: Vec<u16> = vec![0xa5a5; n];
        dma_mem2mem::buffer::set(&mut buf);
        assert!(validate(&buf), "length {}", n);
    }
}

#[test]
fn set_then_validate_u32() {
    for n in [0usize, 1, 2, 31, 32, 255, 256] {
        let mut buf: Vec<u32> = vec![0xa5a5_a5a5; n];
        dma_mem2mem::buffer::set(&mut buf);
        assert!(validate(&buf), "length {}", n);
    }
}

#[test]
fn set_then_validate_beyond_256_elements() {
    let mut bytes: Vec<u8> = vec![7; 2048];
    dma_mem2mem::buffer::set(&mut bytes);
    assert!(validate(&bytes));
    assert_eq!(bytes[256], 0);
    assert_eq!(bytes[2047], 255);
    let mut words: Vec<u32> = vec![7; 1024];
    dma_mem2mem::buffer::set(&mut words);
    assert!(validate(&words));
    assert_eq!(words[1023], 255);
}

#[test]
fn clear_zeroes_every_element() {
    let mut bytes: [u8; 32] = [0xff; 32];
    clear(&mut bytes);
    assert_eq!(bytes, [0u8; 32]);
    let mut halves: [u16; 32] = [0xffff; 32];
    clear(&mut halves);
    assert_eq!(halves, [0u16; 32]);
    let mut words: [u32; 32] = [0xffff_ffff; 32];
    clear(&mut words);
    assert_eq!(words, [0u32; 32]);
}

#[test]
fn clear_accepts_an_empty_buffer() {
    let mut none: [u32; 0] = [];
    clear(&mut none);
    assert!(validate(&none));
}

#[test]
fn validate_rejects_a_cleared_buffer() {
    let mut buf: [u8; 32] = [0; 32];
    dma_mem2mem::buffer::set(&mut buf);
    clear(&mut buf);
    assert!(!validate(&buf));
}

#[test]
fn validate_accepts_a_single_zero() {
    let buf: [u16; 1] = [0];
    assert!(validate(&buf));
}

#[test]
fn validate_rejects_one_wrong_element() {
    let mut buf: [u32; 64] = [0; 64];
    dma_mem2mem::buffer::set(&mut buf);
    assert!(validate(&buf));
    buf[63] = 62;
    assert!(!validate(&buf));
    buf[63] = 63;
    buf[0] = 1;
    assert!(!validate(&buf));
}

#[test]
fn validate_rejects_high_bits() {
    let mut buf: [u32; 4] = [0, 1, 2, 3];
    assert!(validate(&buf));
    buf[2] = 0x102;
    assert!(!validate(&buf));
    let halves: [u16; 2] = [0, 0x101];
    assert!(!validate(&halves));
}

#[test]
fn validate_does_not_change_the_buffer() {
    let buf: [u8; 4] = [0, 1, 9, 3];
    assert!(!validate(&buf));
    assert_eq!(buf, [0, 1, 9, 3]);
}
