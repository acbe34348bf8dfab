use petalsonic::audio_data::batch_resampler::BatchResampler;
use rubato::audioadapter_buffers::direct::InterleavedSlice;
use rubato::{Async, FixedAsync, PolynomialDegree, Resampler};

use petalsonic::audio_data::resampler::AudioResampler;
use petalsonic::audio_data::streaming_resampler::{ResamplerType, StreamingResampler};
use petalsonic::error::PetalSonicError;

#[test]
fn test_resampler_creation() {
    let resampler = AudioResampler::new(44100, 48000, 2, None);
    assert!(resampler.is_ok());

    let resampler = resampler.unwrap();
    assert_eq!(resampler.source_sample_rate(), 44100);
    assert_eq!(resampler.target_sample_rate(), 48000);
}

#[test]
fn test_invalid_sample_rates() {
    assert!(AudioResampler::new(0, 48000, 2, None).is_err());
    assert!(AudioResampler::new(44100, 0, 2, None).is_err());
    assert!(AudioResampler::new(44100, 48000, 0, None).is_err());
}

#[test]
fn resampler_chunk_size_defaults_to_1024() {
    let resampler = AudioResampler::new(44100, 48000, 2, None).unwrap();
    assert_eq!(resampler.chunk_size(), 1024);
    let resampler = AudioResampler::new(44100, 48000, 2, Some(512)).unwrap();
    assert_eq!(resampler.chunk_size(), 512);
}

#[test]
fn resampler_errors_are_audio_format() {
    match AudioResampler::new(0, 48000, 2, None) {
        Err(PetalSonicError::AudioFormat(_)) => {}
        _ => panic!("expected an AudioFormat error"),
    }
}

#[test]
fn batch_resampler_creation_and_validation() {
    let resampler = BatchResampler::new(96000, 48000, 1, None).unwrap();
    assert_eq!(resampler.source_sample_rate(), 96000);
    assert_eq!(resampler.target_sample_rate(), 48000);
    assert_eq!(resampler.channels(), 1);
    assert_eq!(resampler.chunk_size(), 1024);
    assert!(BatchResampler::new(0, 48000, 1, None).is_err());
    assert!(BatchResampler::new(48000, 48000, 0, None).is_err());
}

#[test]
fn streaming_resampler_validation() {
    let resampler = StreamingResampler::new(48000, 44100, 2, 1024, Some(ResamplerType::Fast));
    let resampler = resampler.unwrap();
    assert_eq!(resampler.source_sample_rate(), 48000);
    assert_eq!(resampler.target_sample_rate(), 44100);
    assert_eq!(resampler.channels(), 2);
    assert_eq!(resampler.input_chunk_size(), 1024);
    assert_eq!(resampler.resampler_type(), ResamplerType::Fast);
    assert!(!resampler.is_bypass());

    assert!(StreamingResampler::new(0, 44100, 2, 1024, None).is_err());
    assert!(StreamingResampler::new(48000, 0, 2, 1024, None).is_err());
    assert!(StreamingResampler::new(48000, 44100, 0, 1024, None).is_err());
    assert!(StreamingResampler::new(48000, 44100, 2, 0, None).is_err());
}

#[test]
fn streaming_resampler_defaults_to_sinc() {
    let resampler = StreamingResampler::new(48000, 44100, 2, 256, None).unwrap();
    assert_eq!(resampler.resampler_type(), ResamplerType::Sinc);
}

#[test]
fn streaming_resampler_input_discipline() {
    let resampler = StreamingResampler::new(48000, 48000, 2, 4, None).unwrap();
    assert!(resampler.validate_input(8).is_ok());
    assert!(resampler.validate_input(7).is_err());
    assert!(resampler.validate_input(0).is_err());
}

// The bypass is the identity on every block: bit-identical samples,
// with frames consumed equal to frames written.
#[test]
fn bypass_is_bit_identical() {
    let resampler = StreamingResampler::new(48000, 48000, 2, 3, None).unwrap();
    assert!(resampler.is_bypass());
    let input: Vec<u32> = vec![
        0.25f32.to_bits(),
        (-0.25f32).to_bits(),
        0.5f32.to_bits(),
        1.0f32.to_bits(),
        f32::MIN_POSITIVE.to_bits(),
        (-0.0f32).to_bits(),
    ];
    let mut output: Vec<u32> = vec![0; 8];
    let (written, consumed) = resampler.process_bypass(&input, &mut output).unwrap();
    assert_eq!(written, 3);
    assert_eq!(consumed, 3);
    assert_eq!(&output[..6], &input[..]);
    assert_eq!(output[6], 0);
    assert_eq!(output[7], 0);
}

#[test]
fn bypass_rejects_wrong_sizes() {
    let resampler = StreamingResampler::new(48000, 48000, 1, 4, None).unwrap();
    let short_input: Vec<u32> = vec![1, 2, 3];
    let mut output: Vec<u32> = vec![0; 8];
    assert!(resampler.process_bypass(&short_input, &mut output).is_err());

    let input: Vec<u32> = vec![1, 2, 3, 4];
    let mut small_output: Vec<u32> = vec![0; 2];
    assert!(resampler.process_bypass(&input, &mut small_output).is_err());
}

// Driving the interpolating converter with the library's chunk
// discipline: the frames produced across a run track
// `frames_consumed * target / source` within one frame per block.
#[test]
fn streaming_rate_conversion_frame_accounting() {
    let state = StreamingResampler::new(48000, 44100, 2, 1024, Some(ResamplerType::Fast)).unwrap();
    let channels = state.channels() as usize;
    let chunk = state.input_chunk_size();
    let ratio = state.target_sample_rate() as f64 / state.source_sample_rate() as f64;
    let mut converter = Async::<f32>::new_poly(
        ratio,
        1.0,
        PolynomialDegree::Septic,
        chunk,
        channels,
        FixedAsync::Input,
    )
    .unwrap();

    let input = vec![0.25f32; chunk * channels];
    assert!(state.validate_input(input.len()).is_ok());

    let blocks: usize = 94;
    let mut total_out: usize = 0;
    for _ in 0..blocks {
        let adapter = InterleavedSlice::new(&input, channels, chunk).unwrap();
        let output = converter.process(&adapter, None).unwrap();
        total_out += output.take_data().len() / channels;
    }
    let consumed = blocks * chunk;
    let expected = consumed as f64 * ratio;
    assert!((total_out as f64 - expected).abs() <= blocks as f64);
    // About two seconds of 48 kHz audio come out as about two seconds
    // of 44.1 kHz audio.
    assert!(total_out >= 87000 && total_out <= 89500);
}
