use ndk::camera::metadata::{
    black_level_pattern_from_entry, camera_enum_from_entry, color_space_transform_from_entry,
    color_space_transform_to_entry, entry_type, fixed_count_from_entry,
    metering_rectangles_from_entry,
    metering_rectangles_to_entry, optional_from_entry_result, points_from_entry, rect_from_entry,
    rect_to_entry, recommended_stream_configurations_from_entry, single_from_entry,
    stream_configuration_durations_from_entry, stream_configurations_from_entry,
    BlackLevelPattern, ColorSpaceTransform, MeteringRectangle, MetadataEntryType, Point, Rational,
    RecommendedStreamConfiguration, Rect, Size, StreamConfiguration, StreamConfigurationDuration,
};
use ndk::camera::tags::{ControlAeMode, ScalerAvailableRecommendedStreamConfigurations};
use ndk::camera::{CameraError, CameraErrorStatus};
use ndk::media::image_reader::ImageFormat;

#[test]
fn entry_types() {
    assert_eq!(entry_type(0), MetadataEntryType::Byte);
    assert_eq!(entry_type(1), MetadataEntryType::Int32);
    assert_eq!(entry_type(2), MetadataEntryType::Float);
    assert_eq!(entry_type(3), MetadataEntryType::Int64);
    assert_eq!(entry_type(4), MetadataEntryType::Double);
    assert_eq!(entry_type(5), MetadataEntryType::Rational);
    assert_eq!(entry_type(6), MetadataEntryType::Unknown);
}

#[test]
fn single_values() {
    assert!(matches!(single_from_entry(&[7u8]), Ok(7)));
    assert!(matches!(
        single_from_entry::<i32>(&[]),
        Err(CameraError::InvalidMetadataEntryCount(0, "1"))
    ));
    assert!(matches!(
        single_from_entry(&[1i64, 2]),
        Err(CameraError::InvalidMetadataEntryCount(2, "1"))
    ));
}

#[test]
fn enum_values() {
    assert!(matches!(camera_enum_from_entry::<ControlAeMode>(&[1]), Ok(ControlAeMode::ON)));
    assert!(matches!(
        camera_enum_from_entry::<ControlAeMode>(&[99]),
        Err(CameraError::UnsupportedEnumValue(99))
    ));
    assert!(matches!(
        camera_enum_from_entry::<ControlAeMode>(&[1, 1]),
        Err(CameraError::InvalidMetadataEntryCount(2, "1"))
    ));
}

#[test]
fn optional_entries() {
    assert!(matches!(optional_from_entry_result(Ok::<u8, CameraError>(3)), Ok(Some(3))));
    assert!(matches!(
        optional_from_entry_result::<u8>(Err(CameraError::ErrorResult(
            CameraErrorStatus::MetadataNotFound
        ))),
        Ok(None)
    ));
    assert!(matches!(
        optional_from_entry_result::<u8>(Err(CameraError::ErrorResult(
            CameraErrorStatus::InvalidParameter
        ))),
        Err(CameraError::ErrorResult(CameraErrorStatus::InvalidParameter))
    ));
}

#[test]
fn rect_round_trip() {
    let r = rect_from_entry([10, 20, 30, 40]);
    assert_eq!(r, Rect { left: 10, top: 20, right: 40, bottom: 60 });
    assert_eq!(rect_to_entry(&r), [10, 20, 30, 40]);
}

#[test]
fn stream_configurations() {
    let v = stream_configurations_from_entry(&[35, 640, 480, 0, 256, 1920, 1080, 1]).unwrap();
    assert_eq!(
        v,
        vec![
            StreamConfiguration { format: 35, width: 640, height: 480, is_input: 0 },
            StreamConfiguration { format: 256, width: 1920, height: 1080, is_input: 1 },
        ]
    );
    assert_eq!(v[0].format(), Ok(ImageFormat::YUV_420_888));
    assert_eq!(v[1].format(), Ok(ImageFormat::JPEG));
    assert_eq!(v[0].size(), Size { width: 640, height: 480 });
    assert!(!v[0].is_input());
    assert!(v[1].is_input());
    assert!(matches!(
        stream_configurations_from_entry(&[1, 2, 3]),
        Err(CameraError::InvalidMetadataEntryCount(3, "an exact multiple of 4"))
    ));
    assert_eq!(stream_configurations_from_entry(&[]).unwrap(), vec![]);
}

#[test]
fn stream_configuration_format_errors() {
    let c = StreamConfiguration { format: -5, width: 1, height: 1, is_input: 0 };
    assert_eq!(c.format(), Err(-5));
    let c = StreamConfiguration { format: 7, width: 1, height: 1, is_input: 0 };
    assert_eq!(c.format(), Err(7));
}

#[test]
fn stream_configuration_durations() {
    let v = stream_configuration_durations_from_entry(&[35, 640, 480, 33333333]).unwrap();
    assert_eq!(
        v,
        vec![StreamConfigurationDuration {
            format: 35,
            width: 640,
            height: 480,
            duration: 33333333
        }]
    );
    assert_eq!(v[0].format(), Ok(ImageFormat::YUV_420_888));
    assert_eq!(v[0].size(), Size { width: 640, height: 480 });
    let big = StreamConfigurationDuration { format: 1 << 40, width: 1, height: 1, duration: 0 };
    assert_eq!(big.format(), Err(1 << 40));
    assert!(matches!(
        stream_configuration_durations_from_entry(&[1, 2, 3, 4, 5]),
        Err(CameraError::InvalidMetadataEntryCount(5, "an exact multiple of 4"))
    ));
}

#[test]
fn recommended_stream_configurations() {
    let v = recommended_stream_configurations_from_entry(&[256, 4000, 3000, 0, 2]).unwrap();
    assert_eq!(
        v,
        vec![RecommendedStreamConfiguration {
            format: 256,
            width: 4000,
            height: 3000,
            is_input: 0,
            usecase: 2
        }]
    );
    assert_eq!(
        v[0].usecase(),
        Ok(ScalerAvailableRecommendedStreamConfigurations::try_from_raw(2).unwrap())
    );
    let odd = RecommendedStreamConfiguration { usecase: 1000, ..v[0] };
    assert_eq!(odd.usecase(), Err(1000));
    assert!(matches!(
        recommended_stream_configurations_from_entry(&[0; 6]),
        Err(CameraError::InvalidMetadataEntryCount(6, "an exact multiple of 5"))
    ));
}

#[test]
fn points() {
    assert_eq!(
        points_from_entry(&[1, 2, 3, 4]).unwrap(),
        vec![Point { x: 1, y: 2 }, Point { x: 3, y: 4 }]
    );
    assert!(matches!(
        points_from_entry(&[1]),
        Err(CameraError::InvalidMetadataEntryCount(1, "an exact multiple of 2"))
    ));
}

#[test]
fn black_level_pattern() {
    let p = black_level_pattern_from_entry(&[1, 2, 3, 4]).unwrap();
    assert_eq!(p, BlackLevelPattern { offsets: [1, 2, 3, 4] });
    assert_eq!(p.get_offset_for_index(0, 0), 1);
    assert_eq!(p.get_offset_for_index(1, 0), 2);
    assert_eq!(p.get_offset_for_index(0, 1), 3);
    assert_eq!(p.get_offset_for_index(1, 1), 4);
    assert_eq!(p.get_offset_for_index(5, 2), 2);
    assert_eq!(p.get_offset_for_index(2, 7), 3);
    assert!(matches!(
        black_level_pattern_from_entry(&[1, 2, 3]),
        Err(CameraError::InvalidMetadataEntryCount(3, "4"))
    ));
}

#[test]
fn color_space_transform() {
    let mut values = Vec::new();
    for i in 0..9 {
        values.push(Rational { numerator: i, denominator: 10 });
    }
    let t: ColorSpaceTransform = color_space_transform_from_entry(&values).unwrap();
    assert_eq!(t.get_element(2, 1), Rational { numerator: 5, denominator: 10 });
    assert_eq!(t.get_element(0, 2), Rational { numerator: 6, denominator: 10 });
    assert_eq!(color_space_transform_to_entry(&t), values);
    assert!(matches!(
        color_space_transform_from_entry(&values[..8]),
        Err(CameraError::InvalidMetadataEntryCount(8, "9"))
    ));
}

#[test]
fn metering_rectangles() {
    let entry = [0, 0, 100, 50, 1000, 10, 20, 30, 40, 0];
    let rects = metering_rectangles_from_entry(&entry).unwrap();
    assert_eq!(
        rects,
        vec![
            MeteringRectangle { xmin: 0, ymin: 0, xmax: 100, ymax: 50, weight: 1000 },
            MeteringRectangle { xmin: 10, ymin: 20, xmax: 30, ymax: 40, weight: 0 },
        ]
    );
    assert_eq!(rects[0].width(), 100);
    assert_eq!(rects[0].height(), 50);
    assert_eq!(rects[1].weight, MeteringRectangle::WEIGHT_DONT_CARE);
    assert_eq!(rects[0].weight, MeteringRectangle::WEIGHT_MAX);
    assert_eq!(MeteringRectangle::WEIGHT_MIN, 0);
    assert!(matches!(
        metering_rectangles_from_entry(&entry[..7]),
        Err(CameraError::InvalidMetadataEntryCount(7, "an exact multiple of 5"))
    ));
}

#[test]
fn metering_rectangles_round_trip_law() {
    let entry = vec![1, 2, 3, 4, 5, 6, 7, 8, 9, 10, 11, 12, 13, 14, 15];
    let rects = metering_rectangles_from_entry(&entry).unwrap();
    assert_eq!(metering_rectangles_to_entry(&rects), entry);
    let back = metering_rectangles_from_entry(&metering_rectangles_to_entry(&rects)).unwrap();
    assert_eq!(back, rects);
    assert_eq!(metering_rectangles_to_entry(&[]), Vec::<i32>::new());
}

#[test]
fn fixed_count_entries() {
    let values = [1i32, 2, 3, 4];
    assert!(matches!(fixed_count_from_entry(&values, 4, "4"), Ok(v) if v == &values[..]));
    assert!(matches!(
        fixed_count_from_entry(&values[..3], 4, "4"),
        Err(CameraError::InvalidMetadataEntryCount(3, "4"))
    ));
    assert!(matches!(
        fixed_count_from_entry::<u8>(&[], 2, "2"),
        Err(CameraError::InvalidMetadataEntryCount(0, "2"))
    ));
}
