use dma_mem2mem::transfer::{
    dma_set_addr, ConfigError, ControlWord, Direction, TransferDescriptor, TransferWidth,
};

fn derived(src_size: usize, dst_size: usize, len: usize) -> TransferDescriptor {
    match TransferDescriptor::derive(0x2000_0000, src_size, len, 0x2000_1000, dst_size, len) {
        Ok(d) => d,
        Err(e) => panic!("no transfer for sizes {} and {}, length {}: {:?}", src_size, dst_size, len, e),
    }
}

#[test]
fn bytes_in_fours_travel_as_words() {
    for len in [4usize, 8, 32, 64, 128, 256, 512, 1024, 2048, 4092] {
        let d: TransferDescriptor = derived(1, 1, len);
        assert_eq!(d.source_width, TransferWidth::Bits32);
        assert_eq!(d.destination_width, TransferWidth::Bits32);
        assert_eq!(d.count, len / 4);
    }
}

#[test]
fn bytes_in_pairs_travel_as_half_words() {
    for len in [2usize, 6, 10, 30, 2046] {
        let d: TransferDescriptor = derived(1, 1, len);
        assert_eq!(d.source_width, TransferWidth::Bits16);
        assert_eq!(d.destination_width, TransferWidth::Bits16);
        assert_eq!(d.count, len / 2);
    }
}

#[test]
fn an_odd_count_of_bytes_is_not_coarsened() {
    for len in [1usize, 3, 5, 31, 33, 2047] {
        let d: TransferDescriptor = derived(1, 1, len);
        assert_eq!(d.source_width, TransferWidth::Bits8);
        assert_eq!(d.destination_width, TransferWidth::Bits8);
        assert_eq!(d.count, len);
    }
}

#[test]
fn half_words_are_coarsened_once() {
    let even: TransferDescriptor = derived(2, 2, 64);
    assert_eq!(even.source_width, TransferWidth::Bits32);
    assert_eq!(even.destination_width, TransferWidth::Bits32);
    assert_eq!(even.count, 32);
    let odd: TransferDescriptor = derived(2, 2, 63);
    assert_eq!(odd.source_width, TransferWidth::Bits16);
    assert_eq!(odd.destination_width, TransferWidth::Bits16);
    assert_eq!(odd.count, 63);
}

#[test]
fn words_are_left_alone() {
    for len in [1usize, 2, 4, 64] {
        let d: TransferDescriptor = derived(4, 4, len);
        assert_eq!(d.source_width, TransferWidth::Bits32);
        assert_eq!(d.destination_width, TransferWidth::Bits32);
        assert_eq!(d.count, len);
    }
}

#[test]
fn different_sizes_keep_their_own_widths() {
    let sizes: [(usize, TransferWidth); 3] =
        [(1, TransferWidth::Bits8), (2, TransferWidth::Bits16), (4, TransferWidth::Bits32)];
    for (s, sw) in sizes {
        for (d, dw) in sizes {
            if s == d {
                continue;
            }
            for len in [1usize, 2, 4, 64, 2048] {
                let desc: TransferDescriptor = derived(s, d, len);
                assert_eq!(desc.source_width, sw);
                assert_eq!(desc.destination_width, dw);
                assert_eq!(desc.count, len);
            }
        }
    }
}

#[test]
fn a_single_element_is_never_coarsened() {
    let sizes: [(usize, TransferWidth); 3] =
        [(1, TransferWidth::Bits8), (2, TransferWidth::Bits16), (4, TransferWidth::Bits32)];
    for (s, sw) in sizes {
        for (d, dw) in sizes {
            let desc: TransferDescriptor = derived(s, d, 1);
            assert_eq!(desc.source_width, sw);
            assert_eq!(desc.destination_width, dw);
            assert_eq!(desc.count, 1);
        }
    }
}

#[test]
fn the_bytes_moved_are_the_bytes_of_the_buffers() {
    for s in [1usize, 2, 4] {
        for d in [1usize, 2, 4] {
            for len in 1..=130usize {
                let desc: TransferDescriptor = derived(s, d, len);
                assert_eq!(desc.source_width.bytes() * desc.count, s * len);
                assert_eq!(desc.destination_width.bytes() * desc.count, d * len);
            }
        }
    }
}

#[test]
fn addresses_are_passed_through() {
    let d: TransferDescriptor =
        TransferDescriptor::derive(0x2000_0100, 1, 32, 0x2000_0200, 4, 32).unwrap();
    assert_eq!(d.source_address, 0x2000_0100);
    assert_eq!(d.destination_address, 0x2000_0200);
    assert_eq!(
        d,
        TransferDescriptor {
            source_address: 0x2000_0100,
            destination_address: 0x2000_0200,
            source_width: TransferWidth::Bits8,
            destination_width: TransferWidth::Bits32,
            count: 32,
        }
    );
}

#[test]
fn different_lengths_are_refused() {
    for (a, b) in [(32usize, 31usize), (31, 32), (0, 1), (1, 0), (4, 2048)] {
        for s in [1usize, 2, 4, 8] {
            for d in [1usize, 2, 4, 3] {
                assert_eq!(
                    TransferDescriptor::derive(0, s, a, 0, d, b),
                    Err(ConfigError::LengthMismatch { source_len: a, destination_len: b })
                );
            }
        }
    }
}

#[test]
fn unsupported_widths_are_refused() {
    assert_eq!(
        TransferDescriptor::derive(0, 8, 16, 0, 8, 16),
        Err(ConfigError::UnsupportedWidth { bytes: 8 })
    );
    assert_eq!(
        TransferDescriptor::derive(0, 3, 16, 0, 1, 16),
        Err(ConfigError::UnsupportedWidth { bytes: 3 })
    );
    assert_eq!(
        TransferDescriptor::derive(0, 1, 16, 0, 16, 16),
        Err(ConfigError::UnsupportedWidth { bytes: 16 })
    );
    assert_eq!(
        TransferDescriptor::derive(0, 0, 16, 0, 2, 16),
        Err(ConfigError::UnsupportedWidth { bytes: 0 })
    );
    assert_eq!(
        TransferDescriptor::derive(0, 0, 16, 0, 0, 16),
        Err(ConfigError::UnsupportedWidth { bytes: 0 })
    );
}

#[test]
fn of_two_unsupported_widths_the_source_is_named() {
    assert_eq!(
        TransferDescriptor::derive(0, 8, 16, 0, 3, 16),
        Err(ConfigError::UnsupportedWidth { bytes: 8 })
    );
}

#[test]
fn the_length_is_checked_before_the_widths() {
    assert_eq!(
        TransferDescriptor::derive(0, 8, 16, 0, 3, 17),
        Err(ConfigError::LengthMismatch { source_len: 16, destination_len: 17 })
    );
}

#[test]
fn width_lookup() {
    assert_eq!(TransferWidth::from_bytes(1), Some(TransferWidth::Bits8));
    assert_eq!(TransferWidth::from_bytes(2), Some(TransferWidth::Bits16));
    assert_eq!(TransferWidth::from_bytes(4), Some(TransferWidth::Bits32));
    for bytes in [0usize, 3, 5, 8, 16, usize::MAX] {
        assert_eq!(TransferWidth::from_bytes(bytes), None);
    }
    assert_eq!(TransferWidth::Bits8.bytes(), 1);
    assert_eq!(TransferWidth::Bits16.bytes(), 2);
    assert_eq!(TransferWidth::Bits32.bytes(), 4);
}

#[test]
fn control_word_selects_one_shot_memory_to_memory() {
    let d: TransferDescriptor = derived(1, 4, 64);
    assert_eq!(
        d.control_word(),
        ControlWord {
            mem2mem: true,
            circular: false,
            direction: Direction::FromPeripheral,
            peripheral_increment: true,
            memory_increment: true,
            peripheral_width: TransferWidth::Bits8,
            memory_width: TransferWidth::Bits32,
        }
    );
    let coarse: ControlWord = derived(2, 2, 64).control_word();
    assert_eq!(coarse.peripheral_width, TransferWidth::Bits32);
    assert_eq!(coarse.memory_width, TransferWidth::Bits32);
}

#[test]
fn slices_give_their_element_size_and_length() {
    let src: [u8; 32] = [0; 32];
    let dst: [u8; 32] = [0; 32];
    assert_eq!(
        dma_set_addr(0x10, &src, 0x50, &dst),
        Ok(TransferDescriptor {
            source_address: 0x10,
            destination_address: 0x50,
            source_width: TransferWidth::Bits32,
            destination_width: TransferWidth::Bits32,
            count: 8,
        })
    );
    let wide: [u32; 32] = [0; 32];
    assert_eq!(
        dma_set_addr(0x10, &src, 0x50, &wide),
        Ok(TransferDescriptor {
            source_address: 0x10,
            destination_address: 0x50,
            source_width: TransferWidth::Bits8,
            destination_width: TransferWidth::Bits32,
            count: 32,
        })
    );
    let halves: [u16; 6] = [0; 6];
    assert_eq!(
        dma_set_addr(0, &halves, 0, &halves),
        Ok(TransferDescriptor {
            source_address: 0,
            destination_address: 0,
            source_width: TransferWidth::Bits32,
            destination_width: TransferWidth::Bits32,
            count: 3,
        })
    );
}

#[test]
fn slices_of_different_lengths_are_refused() {
    let src: [u16; 32] = [0; 32];
    let dst: [u16; 16] = [0; 16];
    assert_eq!(
        dma_set_addr(0, &src, 0, &dst),
        Err(ConfigError::LengthMismatch { source_len: 32, destination_len: 16 })
    );
    assert_eq!(
        dma_set_addr(0, &dst, 0, &src),
        Err(ConfigError::LengthMismatch { source_len: 16, destination_len: 32 })
    );
}

#[test]
fn slices_of_wide_elements_are_refused() {
    let src: [u64; 4] = [0; 4];
    let dst: [u64; 4] = [0; 4];
    assert_eq!(dma_set_addr(0, &src, 0, &dst), Err(ConfigError::UnsupportedWidth { bytes: 8 }));
    let narrow: [u8; 4] = [0; 4];
    assert_eq!(dma_set_addr(0, &narrow, 0, &dst), Err(ConfigError::UnsupportedWidth { bytes: 8 }));
    let odd: [[u8; 3]; 4] = [[0; 3]; 4];
    assert_eq!(dma_set_addr(0, &odd, 0, &narrow), Err(ConfigError::UnsupportedWidth { bytes: 3 }));
}
