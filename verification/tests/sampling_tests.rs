use spectral_renderer::sampling::{radical_inverse_bits, random_pcg3d};

#[test]
fn radical_inverse_reverses_bits() {
    assert_eq!(radical_inverse_bits(0), 0);
    assert_eq!(radical_inverse_bits(1), 0x8000_0000);
    assert_eq!(radical_inverse_bits(2), 0x4000_0000);
    assert_eq!(radical_inverse_bits(3), 0xC000_0000);
    assert_eq!(radical_inverse_bits(5), 0xA000_0000);
    assert_eq!(radical_inverse_bits(0xFFFF_FFFF), 0xFFFF_FFFF);
    assert_eq!(radical_inverse_bits(0x1234_5678), 0x1E6A_2C48);
}

#[test]
fn radical_inverse_is_an_involution() {
    for bits in [0u32, 1, 7, 42, 255, 0x8000_0001, 0xDEAD_BEEF] {
        assert_eq!(radical_inverse_bits(radical_inverse_bits(bits)), bits);
    }
}

#[test]
fn radical_inverse_drives_hammersley_fractions() {
    // The Hammersley sequence reads the reversed bits as a binary fraction:
    // for entry n the second coordinate is radical_inverse_bits(n + 1) / 2^32.
    // For ten intended frames that sweep is 0.5, 0.25, 0.75, 0.125, ...
    let expected = [0.5f64, 0.25, 0.75, 0.125, 0.625, 0.375, 0.875, 0.0625, 0.5625, 0.3125];
    for (n, want) in expected.iter().enumerate() {
        let y = radical_inverse_bits(n as u32 + 1) as f64 / 4294967296.0;
        assert_eq!(y, *want);
    }
}

#[test]
fn pcg3d_known_values() {
    assert_eq!(random_pcg3d(0, 0, 0), (0x9BAF_D7C6, 0xA8E8_8A6B, 0x3F15_482C));
    assert_eq!(random_pcg3d(1, 2, 3), (0xFA9F_79A6, 0x48F2_F44C, 0x596F_5AB1));
    assert_eq!(random_pcg3d(640, 360, 7), (0x3D50_FE72, 0x5129_D15D, 0x346C_FA9E));
}

#[test]
fn pcg3d_is_a_pure_function() {
    // The hash must replay the same randomness for the same pixel and frame.
    for seed in [(0u32, 0u32, 0u32), (13, 37, 4), (1920, 1080, 255)] {
        let first = random_pcg3d(seed.0, seed.1, seed.2);
        let second = random_pcg3d(seed.0, seed.1, seed.2);
        assert_eq!(first, second);
    }
    // and neighboring pixels or frames should not collide with each other
    assert_ne!(random_pcg3d(0, 0, 0), random_pcg3d(1, 0, 0));
    assert_ne!(random_pcg3d(0, 0, 0), random_pcg3d(0, 0, 1));
}
