use voice_transcriber::audio::quantize::{quantize, quantize_samples, FULL_SCALE};
use voice_transcriber::audio::sample::{
    decode_samples, encode_samples, sample_from_le_bytes, SAMPLE_BYTES,
};

/// The sample scaled by the full scale and rounded, a half away from zero,
/// then clipped. The product is exact in double precision.
fn expected_quantized(sample: f32) -> i16 {
    if sample.is_nan() {
        return 0;
    }
    let rounded = (sample as f64 * 32767.0).round();
    if rounded >= 32767.0 {
        32767
    } else if rounded <= -32768.0 {
        -32768
    } else {
        rounded as i16
    }
}

fn quantize_float(sample: f32) -> i16 {
    quantize(sample.to_bits())
}

#[test]
fn a_sample_is_four_bytes_least_significant_first() {
    assert_eq!(SAMPLE_BYTES, 4);
    assert_eq!(sample_from_le_bytes(0x78, 0x56, 0x34, 0x12), 0x1234_5678);
    assert_eq!(sample_from_le_bytes(0xff, 0xff, 0xff, 0xff), u32::MAX);
    assert_eq!(sample_from_le_bytes(0, 0, 0, 0), 0);
    assert_eq!(sample_from_le_bytes(0, 0, 0x80, 0x3f), 1.0f32.to_bits());
}

#[test]
fn decoding_reads_whole_samples_in_order() {
    let bytes = [1u8, 0, 0, 0, 0, 1, 0, 0, 0, 0, 1, 0, 0, 0, 0, 1];
    assert_eq!(decode_samples(&bytes), vec![1, 0x100, 0x1_0000, 0x100_0000]);
    assert_eq!(decode_samples(&[]), Vec::<u32>::new());
    // Bytes after the last whole sample are not looked at.
    assert_eq!(decode_samples(&[1, 0, 0, 0, 9, 9]), vec![1]);
    assert_eq!(decode_samples(&[9, 9, 9]), Vec::<u32>::new());
}

#[test]
fn encoding_writes_each_sample_least_significant_first() {
    assert_eq!(encode_samples(&[0x1234_5678, 1]), vec![0x78, 0x56, 0x34, 0x12, 1, 0, 0, 0]);
    assert_eq!(encode_samples(&[]), Vec::<u8>::new());
    assert_eq!(encode_samples(&[u32::MAX]), vec![0xff; 4]);
}

#[test]
fn bytes_agree_with_the_float_encoding_of_the_platform_library() {
    for sample in [0.0f32, 1.0, -1.0, 0.5, 1.0e-20, f32::MAX, f32::MIN_POSITIVE, f32::INFINITY] {
        assert_eq!(encode_samples(&[sample.to_bits()]), sample.to_le_bytes().to_vec());
        assert_eq!(decode_samples(&sample.to_le_bytes()), vec![sample.to_bits()]);
    }
}

#[test]
fn decoding_agrees_with_a_cast_of_the_bytes() {
    // The cast reads memory in the byte order of the machine.
    if u32::from_ne_bytes([1, 0, 0, 0]) != 1 {
        return;
    }
    let floats: Vec<f32> = vec![0.25, -0.75, 1.0, 3.5e-3, -f32::MAX];
    let bytes: &[u8] = bytemuck::cast_slice(&floats);
    let cast: Vec<u32> =
        bytes.chunks_exact(4).map(|chunk| bytemuck::pod_read_unaligned::<u32>(chunk)).collect();
    let decoded = decode_samples(bytes);
    assert_eq!(decoded, cast);
    let restored: Vec<f32> = decoded.iter().map(|bits| f32::from_bits(*bits)).collect();
    assert_eq!(restored, floats);
}

#[test]
fn codec_round_trips() {
    let mut state: u32 = 0x1234_5678;
    let mut samples: Vec<u32> = Vec::new();
    for _ in 0..1000 {
        state = state.wrapping_mul(1_664_525).wrapping_add(1_013_904_223);
        samples.push(state);
    }
    let bytes = encode_samples(&samples);
    assert_eq!(bytes.len(), 4000);
    assert_eq!(decode_samples(&bytes), samples);
    assert_eq!(encode_samples(&decode_samples(&bytes)), bytes);
}

#[test]
fn quantization_of_landmark_values() {
    assert_eq!(FULL_SCALE, 32767);
    assert_eq!(quantize_float(0.0), 0);
    assert_eq!(quantize_float(-0.0), 0);
    assert_eq!(quantize_float(1.0), 32767);
    assert_eq!(quantize_float(-1.0), -32767);
    assert_eq!(quantize_float(0.5), 16384);
    assert_eq!(quantize_float(-0.5), -16384);
    assert_eq!(quantize_float(0.25), 8192);
    assert_eq!(quantize_float(0.1), 3277);
    assert_eq!(quantize_float(-0.1), -3277);
    assert_eq!(quantize_float(0.999_99), 32767);
    assert_eq!(quantize_float(0.999_9), 32764);
}

#[test]
fn quantization_rounds_to_nearest_and_halves_away_from_zero() {
    // 1.5 / 32767 is not representable; the nearest floats lie on either side.
    let below_half = f32::from_bits((0.5f32 / 32767.0).to_bits() - 64);
    assert_eq!(quantize_float(below_half), 0);
    assert_eq!(quantize_float(0.4 / 32767.0), 0);
    assert_eq!(quantize_float(0.6 / 32767.0), 1);
    assert_eq!(quantize_float(-0.6 / 32767.0), -1);
    // Exact halves: 32767 * s = k + 1/2 has solutions only where s is a
    // multiple of 1/65534, which no float is; the nearest sample decides.
    for k in [0i32, 1, 2, 100, 16383, 32766] {
        let above = ((k as f64 + 0.51) / 32767.0) as f32;
        let below = ((k as f64 + 0.49) / 32767.0) as f32;
        assert_eq!(quantize_float(above) as i32, k + 1);
        assert_eq!(quantize_float(below) as i32, k);
        assert_eq!(quantize_float(-above) as i32, -(k + 1));
        assert_eq!(quantize_float(-below) as i32, -k);
    }
}

#[test]
fn quantization_clips_to_sixteen_bits() {
    assert_eq!(quantize_float(1.000_1), 32767);
    assert_eq!(quantize_float(2.0), 32767);
    assert_eq!(quantize_float(f32::MAX), 32767);
    assert_eq!(quantize_float(f32::INFINITY), 32767);
    assert_eq!(quantize_float(-1.000_01), -32767);
    assert_eq!(quantize_float(-1.000_02), -32768);
    assert_eq!(quantize_float(-1.000_1), -32768);
    assert_eq!(quantize_float(-2.0), -32768);
    assert_eq!(quantize_float(f32::MIN), -32768);
    assert_eq!(quantize_float(f32::NEG_INFINITY), -32768);
    assert_eq!(quantize_float(8_388_608.0), 32767);
    assert_eq!(quantize_float(-16_777_216.0), -32768);
}

#[test]
fn quantization_of_tiny_and_odd_values() {
    assert_eq!(quantize_float(f32::MIN_POSITIVE), 0);
    assert_eq!(quantize_float(-f32::MIN_POSITIVE), 0);
    assert_eq!(quantize(1), 0);
    assert_eq!(quantize(0x8000_0001), 0);
    assert_eq!(quantize_float(1.0e-10), 0);
    assert_eq!(quantize_float(f32::NAN), 0);
    assert_eq!(quantize(0x7fc0_0001), 0);
    assert_eq!(quantize(0xffc0_0000), 0);
    assert_eq!(quantize(0x7f80_0001), 0);
}

#[test]
fn quantization_agrees_with_exact_arithmetic_on_many_patterns() {
    let mut state: u32 = 0x9e37_79b9;
    for _ in 0..200_000 {
        state = state.wrapping_mul(1_664_525).wrapping_add(1_013_904_223);
        let sample = f32::from_bits(state);
        assert_eq!(quantize(state), expected_quantized(sample), "sample {sample:e} ({state:#x})");
    }
}

#[test]
fn quantization_agrees_with_exact_arithmetic_across_the_unit_range() {
    for step in -40_000i32..=40_000 {
        let sample = step as f32 / 36_000.0;
        assert_eq!(quantize_float(sample), expected_quantized(sample), "sample {sample}");
    }
    for exponent in 0u32..=255 {
        for fraction in [0u32, 1, 0x40_0000, 0x7f_ffff, 0x12_3456] {
            for sign in [0u32, 0x8000_0000] {
                let bits = sign | (exponent << 23) | fraction;
                assert_eq!(quantize(bits), expected_quantized(f32::from_bits(bits)), "{bits:#x}");
            }
        }
    }
}

#[test]
fn quantization_is_within_half_a_step_in_the_unit_range() {
    let mut state: u32 = 7;
    for _ in 0..100_000 {
        state = state.wrapping_mul(1_664_525).wrapping_add(1_013_904_223);
        let sample = (state as f64 / u32::MAX as f64 * 2.0 - 1.0) as f32;
        let value = quantize_float(sample);
        assert!((-32767..=32767).contains(&value));
        let restored = value as f64 / 32767.0;
        let error = (restored - sample as f64).abs();
        assert!(error <= 0.5 / 32767.0 + 1e-12, "sample {sample}: off by {error}");
        assert!(error <= 1.0 / 32767.0);
    }
}

#[test]
fn clipping_breaks_the_error_bound_outside_the_unit_range() {
    let restored = quantize_float(2.0) as f64 / 32767.0;
    assert_eq!(restored, 1.0);
    assert!((restored - 2.0).abs() > 1.0 / 32767.0);
}

#[test]
fn samples_are_quantized_in_order() {
    let samples: Vec<u32> = [0.0f32, 1.0, -1.0, 0.5, 3.0].iter().map(|s| s.to_bits()).collect();
    assert_eq!(quantize_samples(&samples), vec![0, 32767, -32767, 16384, 32767]);
    assert_eq!(quantize_samples(&[]), Vec::<i16>::new());
}
