use ndk::media::error::{MediaErrorResult, NdkMediaError};
use ndk::media::image_reader::acquire_status_result;
use ndk::media::media_codec::{
    configure_flags, dequeue_input_result, dequeue_output_result, BufferInfo,
    DequeuedInputBufferResult, DequeuedOutputBufferInfoResult, MediaCodecDirection,
};
use ndk::media::media_extractor::{
    available_size_offset, fd_range, micros_from_raw, read_sample_data_result,
    sample_flags_from_raw, sample_size_from_raw, sample_track_index_from_raw, size_to_status,
    MediaExtractorSampleFlags,
};
use ndk::media_error::MediaError;
use ndk::midi::{count_result, device_type_result, receive_result, MidiDeviceType, MidiOpcode};

#[test]
fn codec_configure_flags() {
    assert_eq!(configure_flags(MediaCodecDirection::Encoder), 1);
    assert_eq!(configure_flags(MediaCodecDirection::Decoder), 0);
}

#[test]
fn codec_dequeue_input() {
    assert_eq!(dequeue_input_result(3), Ok(DequeuedInputBufferResult::Buffer(3)));
    assert_eq!(dequeue_input_result(-1), Ok(DequeuedInputBufferResult::TryAgainLater));
    assert_eq!(dequeue_input_result(-10000), Err(MediaError::ErrorUnknown));
    assert_eq!(dequeue_input_result(-2), Err(MediaError::Unknown(-2)));
}

#[test]
fn codec_dequeue_output() {
    assert_eq!(dequeue_output_result(0), Ok(DequeuedOutputBufferInfoResult::Buffer(0)));
    assert_eq!(dequeue_output_result(-1), Ok(DequeuedOutputBufferInfoResult::TryAgainLater));
    assert_eq!(
        dequeue_output_result(-2),
        Ok(DequeuedOutputBufferInfoResult::OutputFormatChanged)
    );
    assert_eq!(
        dequeue_output_result(-3),
        Ok(DequeuedOutputBufferInfoResult::OutputBuffersChanged)
    );
    assert_eq!(dequeue_output_result(-10007), Err(MediaError::ErrorIo));
}

#[test]
fn codec_buffer_info() {
    let info = BufferInfo::new(4, 100, 123456, 2);
    assert_eq!(info.offset(), 4);
    assert_eq!(info.size(), 100);
    assert_eq!(info.presentation_time_us(), 123456);
    assert_eq!(info.flags(), 2);
}

#[test]
fn extractor_sample_flags() {
    let sync = MediaExtractorSampleFlags::sync();
    let enc = MediaExtractorSampleFlags::encrypted();
    assert_eq!(sync.bits(), ndk_sys::AMEDIAEXTRACTOR_SAMPLE_FLAG_SYNC as u32);
    assert_eq!(enc.bits(), 2);
    let both = sync.union(enc);
    assert!(both.is_all());
    assert!(both.contains(sync));
    assert!(!sync.contains(both));
    assert!(both.intersects(enc));
    assert!(!sync.intersects(enc));
    assert_eq!(both.difference(sync), enc);
    assert_eq!(both.intersection(enc), enc);
    assert_eq!(sync.symmetric_difference(both), enc);
    assert_eq!(sync.complement(), enc);
    assert!(MediaExtractorSampleFlags::empty().is_empty());
    assert_eq!(MediaExtractorSampleFlags::all(), both);
    assert_eq!(MediaExtractorSampleFlags::from_bits(3), Some(both));
    assert_eq!(MediaExtractorSampleFlags::from_bits(4), None);
    assert_eq!(MediaExtractorSampleFlags::from_bits_truncate(0xff), both);
    assert_eq!(MediaExtractorSampleFlags::from_bits_retain(0xff).bits(), 0xff);
    let mut f = MediaExtractorSampleFlags::empty();
    f.insert(sync);
    assert_eq!(f, sync);
    f.toggle(both);
    assert_eq!(f, enc);
    f.remove(enc);
    assert!(f.is_empty());
}

#[test]
fn extractor_sample_flags_laws_on_values() {
    let a = MediaExtractorSampleFlags::from_bits_retain(0b101);
    let b = MediaExtractorSampleFlags::from_bits_retain(0b011);
    assert!(a.union(b).contains(a));
    assert!(a.union(b).contains(b));
    assert!(a.contains(a.intersection(b)));
    assert!(!a.difference(b).intersects(b));
    assert_eq!(a.symmetric_difference(b).bits(), 0b110);
}

#[test]
fn extractor_optional_values() {
    assert_eq!(read_sample_data_result(-1), None);
    assert_eq!(read_sample_data_result(512), Some(512));
    assert_eq!(sample_flags_from_raw(u32::MAX), None);
    assert_eq!(sample_flags_from_raw(1), Some(MediaExtractorSampleFlags::sync()));
    assert_eq!(sample_track_index_from_raw(-1), None);
    assert_eq!(sample_track_index_from_raw(2), Some(2));
    assert_eq!(micros_from_raw(-1), None);
    assert_eq!(micros_from_raw(40_000), Some(40_000));
    assert_eq!(sample_size_from_raw(-1), None);
    assert_eq!(sample_size_from_raw(9), Some(9));
    assert_eq!(available_size_offset(-1), None);
    assert_eq!(available_size_offset(16), Some(16));
    assert_eq!(size_to_status(None), -1);
    assert_eq!(size_to_status(Some(77)), 77);
    assert_eq!(fd_range(10, 25), (10, 15));
    assert_eq!(size_to_status(Some(usize::MAX)), -1);
    assert_eq!(size_to_status(Some(isize::MAX as usize + 1)), isize::MIN);
    assert_eq!(fd_range(i64::MAX as usize, i64::MAX as usize + 5), (i64::MAX, 5));
}

#[test]
fn midi_receive() {
    assert_eq!(receive_result(0, 0, 0, 0), Ok(MidiOpcode::NoMessage));
    assert_eq!(
        receive_result(1, 1, 3, 99),
        Ok(MidiOpcode::Data { length: 3, timestamp: 99 })
    );
    assert_eq!(receive_result(1, 2, 0, 0), Ok(MidiOpcode::Flush));
    assert_eq!(receive_result(-10003, 0, 0, 0), Err(MediaError::ErrorInvalidObject));
}

#[test]
fn midi_counts_and_types() {
    assert_eq!(count_result(4), Ok(4));
    assert_eq!(count_result(-10004), Err(MediaError::ErrorInvalidParameter));
    assert_eq!(device_type_result(2), Ok(MidiDeviceType::Virtual));
    assert_eq!(device_type_result(12), Ok(MidiDeviceType::Unknown(12)));
    assert_eq!(device_type_result(-10000), Err(MediaError::ErrorUnknown));
}

#[test]
fn image_reader_acquire_statuses() {
    assert_eq!(acquire_status_result(0), Ok(true));
    assert_eq!(acquire_status_result(-30001), Ok(false));
    assert_eq!(
        acquire_status_result(-30002),
        Err(NdkMediaError::ErrorResult(MediaErrorResult::ImgreaderMaxImagesAcquired))
    );
    assert_eq!(acquire_status_result(-12345), Err(NdkMediaError::UnknownResult(-12345)));
}
