use trinity_server::audio_coding::check_frames;
use trinity_server::audio_coding::check_samples;
use trinity_server::audio_coding::encode_pcm_to_flac;

#[test]
fn silence_is_encoded_as_a_flac_stream() {
    let pcm = vec![0i32; 2 * 44100];
    let bytes = encode_pcm_to_flac(&pcm, 44100).expect("silence can be encoded");
    assert_eq!(&bytes[..4], b"fLaC");
    // The stream is much shorter than the raw samples, and more than its marker.
    assert!(bytes.len() > 42);
    assert!(bytes.len() < pcm.len());
}

/// Rate, channels, bit depth and total of samples per channel, as the stream
/// information in the head of a stream records them.
fn recorded_format(bytes: &[u8]) -> (u32, u8, u8, u64) {
    assert!(bytes.len() >= 42);
    assert_eq!(&bytes[..4], b"fLaC");
    // The first metadata block is the stream information, 34 bytes long.
    assert_eq!(bytes[4] & 0x7f, 0);
    assert_eq!(&bytes[5..8], &[0, 0, 34]);
    let rate = ((bytes[18] as u32) << 12) | ((bytes[19] as u32) << 4) | ((bytes[20] as u32) >> 4);
    let channels = ((bytes[20] >> 1) & 0x7) + 1;
    let bits = (((bytes[20] & 1) << 4) | (bytes[21] >> 4)) + 1;
    let total = (((bytes[21] & 0xf) as u64) << 32)
        | ((bytes[22] as u64) << 24)
        | ((bytes[23] as u64) << 16)
        | ((bytes[24] as u64) << 8)
        | (bytes[25] as u64);
    (rate, channels, bits, total)
}

#[test]
fn a_tone_is_encoded_and_encoding_is_repeatable() {
    let pcm: Vec<i32> = (0..20_000).map(|i| ((i * 37) % 2000 - 1000) as i32).collect();
    let first = encode_pcm_to_flac(&pcm, 44100).expect("a tone can be encoded");
    let second = encode_pcm_to_flac(&pcm, 44100).expect("a tone can be encoded");
    assert_eq!(&first[..4], b"fLaC");
    assert_eq!(first, second);
    // The bytes are not the samples handed in.
    assert_ne!(first.len(), pcm.len() * 4);
    assert_eq!(recorded_format(&first), (44100, 2, 16, 10_000));
}

#[test]
fn the_stream_records_the_rate_it_was_given() {
    let pcm: Vec<i32> = (0..4000).map(|i| (i % 300 - 150) as i32).collect();
    for rate in [8000u32, 16000, 22050, 44100, 48000, 96000, 12345, 1] {
        let bytes = encode_pcm_to_flac(&pcm, rate).expect("the rate is one that the encoder takes");
        assert_eq!(recorded_format(&bytes), (rate, 2, 16, 2000), "rate {}", rate);
    }
    let at_44100 = encode_pcm_to_flac(&pcm, 44100).unwrap();
    let at_48000 = encode_pcm_to_flac(&pcm, 48000).unwrap();
    assert_ne!(at_44100, at_48000);
}

#[test]
fn the_stream_records_the_number_of_samples_it_was_given() {
    for count in [0usize, 1, 2, 3, 64, 8191, 8192, 8193, 20_001] {
        let pcm = vec![7i32; count];
        let bytes = encode_pcm_to_flac(&pcm, 44100).unwrap();
        assert_eq!(recorded_format(&bytes), (44100, 2, 16, (count / 2) as u64), "count {}", count);
    }
}

#[test]
fn a_rate_beyond_what_the_encoder_takes_is_not_encoded() {
    let pcm = vec![0i32; 64];
    assert_eq!(encode_pcm_to_flac(&pcm, 96_001), None);
    assert_eq!(encode_pcm_to_flac(&pcm, 192_000), None);
    assert_eq!(encode_pcm_to_flac(&pcm, u32::MAX), None);
    assert!(encode_pcm_to_flac(&pcm, 96_000).is_some());
}

#[test]
fn the_extremes_of_16_bits_are_encoded() {
    let pcm: Vec<i32> = (0..8192).map(|i| if i % 3 == 0 { -32768 } else { 32767 }).collect();
    let bytes = encode_pcm_to_flac(&pcm, 44100).unwrap();
    assert_eq!(&bytes[..4], b"fLaC");
}

#[test]
fn no_samples_and_an_odd_count_are_encoded() {
    assert_eq!(&encode_pcm_to_flac(&[], 44100).unwrap()[..4], b"fLaC");
    assert_eq!(&encode_pcm_to_flac(&[5], 44100).unwrap()[..4], b"fLaC");
    assert_eq!(&encode_pcm_to_flac(&[5, -5, 6], 44100).unwrap()[..4], b"fLaC");
}

#[test]
fn samples_beyond_16_bits_are_not_encoded() {
    assert_eq!(encode_pcm_to_flac(&[0, 0, 32768, 0], 44100), None);
    assert_eq!(encode_pcm_to_flac(&[0, 0, 0, -32769], 44100), None);
    assert_eq!(encode_pcm_to_flac(&[i32::MAX], 44100), None);
    assert_eq!(encode_pcm_to_flac(&[i32::MIN, 0], 44100), None);
}

#[test]
fn samples_are_checked_against_16_bits() {
    assert!(check_samples(&[]));
    assert!(check_samples(&[-32768, 0, 32767]));
    assert!(!check_samples(&[-32768, 0, 32768]));
    assert!(!check_samples(&[-32769]));
    assert!(!check_samples(&[0, 0, 0, 100_000, 0]));
}

#[test]
fn frames_are_checked_against_their_numbering() {
    assert!(check_frames(0, 4096));
    assert!(check_frames(88_200, 4096));
    assert!(check_frames(1 << 30, 32));
    assert!(!check_frames(10, 31));
    assert!(!check_frames(10, 0));
    assert!(!check_frames(10, 32768));
    assert!(check_frames(10, 32767));
    if usize::BITS == 64 {
        // Samples that fill less than 2^31 - 1 frames of 32 samples and two
        // channels still fit.
        assert!(check_frames(((1usize << 31) - 1) * 64 - 1, 32));
        assert!(!check_frames(((1usize << 31) - 1) * 64, 32));
        assert!(!check_frames(usize::MAX, 32767));
    }
}
