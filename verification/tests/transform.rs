use quikka::DataSubchunk;
use quikka::Mode;
use quikka::Operation;
use quikka::Performance;
use quikka::Wav;
use quikka::WavError;

fn wav_with(riff_size: u32, data_size: u32, payload: &[u8]) -> Vec<u8> {
    let mut b: Vec<u8> = Vec::new();
    b.extend_from_slice(b"RIFF");
    b.extend_from_slice(&riff_size.to_le_bytes());
    b.extend_from_slice(b"WAVE");
    b.extend_from_slice(b"fmt ");
    b.extend_from_slice(&16u32.to_le_bytes());
    b.extend_from_slice(&1u16.to_le_bytes());
    b.extend_from_slice(&2u16.to_le_bytes());
    b.extend_from_slice(&48000u32.to_le_bytes());
    b.extend_from_slice(&192000u32.to_le_bytes());
    b.extend_from_slice(&4u16.to_le_bytes());
    b.extend_from_slice(&16u16.to_le_bytes());
    b.extend_from_slice(b"data");
    b.extend_from_slice(&data_size.to_le_bytes());
    b.extend_from_slice(payload);
    b
}

fn counting(n: usize) -> Vec<u8> {
    (0..n).map(|i| i as u8).collect()
}

fn data_chunk(payload: &[u8]) -> DataSubchunk {
    let mut b: Vec<u8> = Vec::new();
    b.extend_from_slice(b"data");
    b.extend_from_slice(&(payload.len() as u32).to_le_bytes());
    b.extend_from_slice(payload);
    DataSubchunk::new(&b).unwrap()
}

#[test]
fn two_frames_become_one() {
    let bytes = wav_with(44, 8, &[10, 11, 12, 13, 20, 21, 22, 23]);
    let mut wav = Wav::new(&bytes).unwrap();
    assert!(wav.can_double_speed());
    wav.double_speed();
    assert_eq!(wav.data().data().len(), 4);
    assert_eq!(wav.data().data(), &[10, 11, 12, 13]);
    assert_eq!(wav.data().size(), 4);
    assert_eq!(wav.header().size(), 40);
    assert_eq!(wav.write_contents(), wav_with(40, 4, &[10, 11, 12, 13]));
}

#[test]
fn even_frames_are_kept_in_order() {
    let mut data = data_chunk(&counting(32));
    data.double_speed();
    assert_eq!(data.data(), &[0, 1, 2, 3, 8, 9, 10, 11, 16, 17, 18, 19, 24, 25, 26, 27]);
    assert_eq!(data.size(), 16);
}

#[test]
fn a_multiple_of_eight_is_halved() {
    for frames in 0..40usize {
        let len = frames * 8;
        let mut data = data_chunk(&vec![0x5a; len]);
        data.double_speed();
        assert_eq!(data.data().len(), len / 2);
        assert_eq!(data.size() as usize, len / 2);
    }
}

#[test]
fn other_lengths_keep_the_bytes_of_even_frames() {
    let expected: [usize; 18] = [0, 1, 2, 3, 4, 4, 4, 4, 4, 5, 6, 7, 8, 8, 8, 8, 8, 9];
    for len in 0..18usize {
        let payload = counting(len);
        let mut data = data_chunk(&payload);
        assert!(data.double_speed_fits());
        data.double_speed();
        assert_eq!(data.data().len(), expected[len]);
        assert_eq!(data.size() as usize, expected[len]);
        let by_rule: Vec<u8> = (0..len).filter(|i| (i / 4) % 2 == 0).map(|i| payload[i]).collect();
        assert_eq!(data.data(), &by_rule[..]);
    }
}

#[test]
fn a_payload_shorter_than_a_frame_is_left_alone() {
    let mut data = data_chunk(&[]);
    data.double_speed();
    assert!(data.data().is_empty());
    assert_eq!(data.size(), 0);
    let mut data = data_chunk(&[1, 2, 3]);
    data.double_speed();
    assert_eq!(data.data(), &[1, 2, 3]);
    assert_eq!(data.size(), 3);
}

#[test]
fn declared_size_is_counted_anew() {
    let bytes = wav_with(36 + 12, 500, &counting(12));
    let mut wav = Wav::new(&bytes).unwrap();
    assert_eq!(wav.data().size(), 500);
    wav.double_speed();
    assert_eq!(wav.data().data(), &[0, 1, 2, 3, 8, 9, 10, 11]);
    assert_eq!(wav.data().size(), 8);
    assert_eq!(wav.header().size(), 42);
}

#[test]
fn format_is_untouched_by_double_speed() {
    let bytes = wav_with(36 + 16, 16, &counting(16));
    let mut wav = Wav::new(&bytes).unwrap();
    wav.double_speed();
    let out = wav.write_contents();
    assert_eq!(&out[8..36], &bytes[8..36]);
    assert_eq!(&out[0..4], b"RIFF");
    assert_eq!(&out[36..40], b"data");
    assert_eq!(wav.format().sample_rate(), 48000);
}

#[test]
fn sizes_agree_after_double_speed_of_whole_frame_pairs() {
    let bytes = wav_with(36 + 64, 64, &counting(64));
    let mut wav = Wav::new(&bytes).unwrap();
    wav.double_speed();
    assert_eq!(wav.header().size(), 36 + 32);
    assert_eq!(wav.data().size(), 32);
    assert_eq!(wav.header().size(), 36 + wav.data().size());
    assert_eq!(wav.write_contents().len(), 44 + 32);
}

#[test]
fn sizes_part_ways_after_double_speed_of_a_lone_frame() {
    let bytes = wav_with(36 + 4, 4, &[1, 2, 3, 4]);
    let mut wav = Wav::new(&bytes).unwrap();
    wav.double_speed();
    assert_eq!(wav.header().size(), 38);
    assert_eq!(wav.data().size(), 4);
    assert_eq!(wav.data().data(), &[1, 2, 3, 4]);
}

#[test]
fn double_speed_twice_quarters_the_payload() {
    let bytes = wav_with(36 + 32, 32, &counting(32));
    let mut wav = Wav::new(&bytes).unwrap();
    wav.double_speed();
    assert!(wav.can_double_speed());
    wav.double_speed();
    assert_eq!(wav.data().data(), &[0, 1, 2, 3, 16, 17, 18, 19]);
    assert_eq!(wav.data().size(), 8);
    assert_eq!(wav.header().size(), 44);
}

#[test]
fn header_size_under_36_cannot_be_halved() {
    let bytes = wav_with(35, 8, &counting(8));
    let wav = Wav::new(&bytes).unwrap();
    assert!(!wav.can_double_speed());
    let bytes = wav_with(0, 8, &counting(8));
    assert!(!Wav::new(&bytes).unwrap().can_double_speed());
    let bytes = wav_with(36, 8, &counting(8));
    assert!(Wav::new(&bytes).unwrap().can_double_speed());
}

#[test]
fn operation_keeps_its_name_and_description() {
    let op = Operation::new("2x", "twice as fast", Performance::DoubleSpeed);
    assert_eq!(op.name(), "2x");
    assert_eq!(op.description(), "twice as fast");
}

#[test]
fn perform_before_attach_fails() {
    let mut op = Operation::new("2x", "twice as fast", Performance::DoubleSpeed);
    assert_eq!(op.perform(), Err(WavError::PreconditionViolated));
    assert_eq!(op.contents().err(), Some(WavError::PreconditionViolated));
    assert_eq!(op.perform(), Err(WavError::PreconditionViolated));
}

#[test]
fn contents_before_perform_fails() {
    let mut op = Operation::new("2x", "twice as fast", Performance::DoubleSpeed);
    assert_eq!(op.contents().err(), Some(WavError::PreconditionViolated));
    assert_eq!(op.set_wav(&wav_with(44, 8, &counting(8))), Ok(()));
    assert_eq!(op.contents().err(), Some(WavError::PreconditionViolated));
}

#[test]
fn attach_perform_and_serialize() {
    let mut op = Operation::new("2x", "twice as fast", Performance::DoubleSpeed);
    assert_eq!(op.set_wav(&wav_with(44, 8, &counting(8))), Ok(()));
    assert_eq!(op.perform(), Ok(()));
    let expected = wav_with(40, 4, &[0, 1, 2, 3]);
    assert_eq!(op.contents(), Ok(expected.clone()));
    assert_eq!(op.contents(), Ok(expected));
}

#[test]
fn perform_again_transforms_again() {
    let mut op = Operation::new("2x", "twice as fast", Performance::DoubleSpeed);
    assert_eq!(op.set_wav(&wav_with(36 + 16, 16, &counting(16))), Ok(()));
    assert_eq!(op.perform(), Ok(()));
    assert_eq!(op.perform(), Ok(()));
    assert_eq!(op.contents(), Ok(wav_with(40, 4, &[0, 1, 2, 3])));
}

#[test]
fn attach_of_malformed_bytes_fails_and_changes_nothing() {
    let mut op = Operation::new("2x", "twice as fast", Performance::DoubleSpeed);
    assert_eq!(op.set_wav(b"not a wav file"), Err(WavError::MalformedInput));
    assert_eq!(op.perform(), Err(WavError::PreconditionViolated));
    assert_eq!(op.set_wav(&wav_with(44, 8, &counting(8))), Ok(()));
    assert_eq!(op.perform(), Ok(()));
    let mut broken = wav_with(44, 8, &counting(8));
    broken[20] = 2;
    assert_eq!(op.set_wav(&broken), Err(WavError::MalformedInput));
    assert_eq!(op.contents(), Ok(wav_with(40, 4, &[0, 1, 2, 3])));
}

#[test]
fn attach_again_waits_for_perform_again() {
    let mut op = Operation::new("2x", "twice as fast", Performance::DoubleSpeed);
    assert_eq!(op.set_wav(&wav_with(44, 8, &counting(8))), Ok(()));
    assert_eq!(op.perform(), Ok(()));
    assert_eq!(op.set_wav(&wav_with(36 + 16, 16, &counting(16))), Ok(()));
    assert_eq!(op.contents().err(), Some(WavError::PreconditionViolated));
    assert_eq!(op.perform(), Ok(()));
    assert_eq!(op.contents(), Ok(wav_with(44, 8, &[0, 1, 2, 3, 8, 9, 10, 11])));
}

#[test]
fn perform_on_a_header_size_under_36_is_refused() {
    let mut op = Operation::new("2x", "twice as fast", Performance::DoubleSpeed);
    assert_eq!(op.set_wav(&wav_with(20, 8, &counting(8))), Ok(()));
    assert_eq!(op.perform(), Err(WavError::MalformedInput));
    assert_eq!(op.contents().err(), Some(WavError::PreconditionViolated));
}

#[test]
fn a_cloned_operation_is_independent() {
    let op = Operation::new("2x", "twice as fast", Performance::DoubleSpeed);
    let mut copy = op.clone();
    assert_eq!(copy.set_wav(&wav_with(44, 8, &counting(8))), Ok(()));
    assert_eq!(copy.perform(), Ok(()));
    assert!(copy.contents().is_ok());
    assert_eq!(op.contents().err(), Some(WavError::PreconditionViolated));
    assert_eq!(copy.name(), "2x");
}

#[test]
fn mode_holds_an_operation() {
    let op = Operation::new("2x", "twice as fast", Performance::DoubleSpeed);
    let simple = Mode::Simple(&op);
    assert!(matches!(simple, Mode::Simple(held) if held.name() == "2x"));
    assert!(matches!(Mode::Complex, Mode::Complex));
}
