use polyglot::codec::can_encode;
use polyglot::pcm::{bytes_to_samples, peak, samples_to_bytes, top_half};

#[test]
fn samples_are_little_endian_bytes() {
    assert_eq!(samples_to_bytes(&[1, -1, 256, i16::MIN, i16::MAX]), vec![
        1, 0, 255, 255, 0, 1, 0, 128, 255, 127
    ]);
    for sample in i16::MIN..=i16::MAX {
        let bytes = samples_to_bytes(&[sample]);
        assert_eq!(bytes, sample.to_le_bytes().to_vec());
        assert_eq!(bytes_to_samples(&bytes), vec![sample]);
    }
}

#[test]
fn odd_byte_is_dropped() {
    assert_eq!(bytes_to_samples(&[0x34, 0x12, 0x99]), vec![0x1234]);
    assert_eq!(bytes_to_samples(&[7]), Vec::<i16>::new());
    assert_eq!(bytes_to_samples(&[]), Vec::<i16>::new());
}

#[test]
fn whole_bytes_survive_samples() {
    let bytes: Vec<u8> = (0..=255).collect();
    assert_eq!(samples_to_bytes(&bytes_to_samples(&bytes)), bytes);
}

#[test]
fn peak_is_the_greatest_magnitude() {
    assert_eq!(peak(0, &[3, -7, 5]), 7);
    assert_eq!(peak(0, &[i16::MIN]), 32768);
    assert_eq!(peak(100, &[3, -7, 5]), 100);
    assert_eq!(peak(0, &[]), 0);
}

#[test]
fn wide_samples_lose_their_lower_half() {
    for sample in [0, 1, -1, 65535, 65536, -65536, -65537, i32::MAX, i32::MIN] {
        assert_eq!(i32::from(top_half(sample)), sample >> 16);
    }
}

#[test]
fn ordinary_blocks_can_be_encoded() {
    assert!(can_encode(0));
    assert!(can_encode(4096));
    assert!(!can_encode(usize::MAX));
}

#[test]
fn peaks_accumulate() {
    assert_eq!(peak(peak(1, &[5, -3]), &[-9, 2]), peak(1, &[5, -3, -9, 2]));
    assert_eq!(peak(peak(0, &[-9, 2]), &[5, -3]), 9);
}
