//! Records of camera metadata, and how the flat value arrays of a metadata entry are read into
//! them and written back.
use super::CameraError;
use crate::media::image_reader::ImageFormat;
use crate::raw::RawEnum;
use super::tags::ScalerAvailableRecommendedStreamConfigurations;
use vstd::prelude::*;

verus! {

/// An enumeration that camera metadata stores as a single numeric value.
pub trait CameraEnum: RawEnum {

}

/// The value type of a metadata entry, as its raw type code says.
#[derive(Copy, Clone, Debug, PartialEq, Eq, Structural)]
pub enum MetadataEntryType {
    Byte,
    Int32,
    Float,
    Int64,
    Double,
    Rational,
    Unknown,
}

/// The value type that the raw type code of an entry stands for.
pub open spec fn spec_entry_type(type_code: u8) -> MetadataEntryType {
    if type_code == 0 {
        MetadataEntryType::Byte
    } else if type_code == 1 {
        MetadataEntryType::Int32
    } else if type_code == 2 {
        MetadataEntryType::Float
    } else if type_code == 3 {
        MetadataEntryType::Int64
    } else if type_code == 4 {
        MetadataEntryType::Double
    } else if type_code == 5 {
        MetadataEntryType::Rational
    } else {
        MetadataEntryType::Unknown
    }
}

/// Reads the raw type code of a metadata entry.
pub fn entry_type(type_code: u8) -> (r: MetadataEntryType)
    ensures
        r == spec_entry_type(type_code),
{
    match type_code {
        0 => MetadataEntryType::Byte,
        1 => MetadataEntryType::Int32,
        2 => MetadataEntryType::Float,
        3 => MetadataEntryType::Int64,
        4 => MetadataEntryType::Double,
        5 => MetadataEntryType::Rational,
        _ => MetadataEntryType::Unknown,
    }
}

/// A fraction as camera metadata stores it.
#[derive(Copy, Clone, Debug, PartialEq, Eq, Structural)]
pub struct Rational {
    pub numerator: i32,
    pub denominator: i32,
}

/// A rectangle given by its edges.
#[derive(Copy, Clone, Debug, PartialEq, Eq, Structural)]
pub struct Rect {
    pub left: i32,
    pub top: i32,
    pub right: i32,
    pub bottom: i32,
}

/// Reads a single metadata value: the entry must hold exactly one.
pub fn single_from_entry<T: Copy>(values: &[T]) -> (r: Result<T, CameraError>)
    ensures
        values@.len() == 1 ==> r == Ok::<T, CameraError>(values@[0]),
        values@.len() != 1 ==> r == Err::<T, CameraError>(
            CameraError::InvalidMetadataEntryCount(values@.len() as usize, "1"),
        ),
{
    if values.len() != 1 {
        return Err(CameraError::InvalidMetadataEntryCount(values.len(), "1"));
    }
    Ok(values[0])
}

/// Reads an entry that must hold exactly `count` values, `count_text` being how that number is
/// written in the error.
pub fn fixed_count_from_entry<'a, T>(
    values: &'a [T],
    count: usize,
    count_text: &'static str,
) -> (r: Result<&'a [T], CameraError>)
    ensures
        values@.len() == count ==> r == Ok::<&'a [T], CameraError>(values),
        values@.len() != count ==> r == Err::<&'a [T], CameraError>(
            CameraError::InvalidMetadataEntryCount(values@.len() as usize, count_text),
        ),
{
    if values.len() != count {
        return Err(CameraError::InvalidMetadataEntryCount(values.len(), count_text));
    }
    Ok(values)
}

/// Reads an enumeration stored as a single metadata value: the entry must hold exactly one value,
/// and that value must name a variant.
pub fn camera_enum_from_entry<T: CameraEnum>(values: &[i64]) -> (r: Result<T, CameraError>)
    ensures
        values@.len() != 1 ==> r == Err::<T, CameraError>(
            CameraError::InvalidMetadataEntryCount(values@.len() as usize, "1"),
        ),
        values@.len() == 1 ==> match T::spec_from_code(values@[0] as int) {
            Some(e) => r == Ok::<T, CameraError>(e),
            None => r == Err::<T, CameraError>(CameraError::UnsupportedEnumValue(values@[0])),
        },
{
    if values.len() != 1 {
        return Err(CameraError::InvalidMetadataEntryCount(values.len(), "1"));
    }
    match T::try_from_code(values[0]) {
        Some(e) => Ok(e),
        None => Err(CameraError::UnsupportedEnumValue(values[0])),
    }
}

/// Reads an entry that is optional: a missing entry gives `None`, any other error stays.
pub fn optional_from_entry_result<T>(result: Result<T, CameraError>) -> (r: Result<
    Option<T>,
    CameraError,
>)
    ensures
        result matches Ok(v) ==> r == Ok::<Option<T>, CameraError>(Some(v)),
        result matches Err(CameraError::ErrorResult(super::CameraErrorStatus::MetadataNotFound))
            ==> r == Ok::<Option<T>, CameraError>(None),
        (result matches Err(e) && !(e matches CameraError::ErrorResult(
            super::CameraErrorStatus::MetadataNotFound,
        ))) ==> r == Err::<Option<T>, CameraError>(result->Err_0),
{
    match result {
        Ok(v) => Ok(Some(v)),
        Err(CameraError::ErrorResult(super::CameraErrorStatus::MetadataNotFound)) => Ok(None),
        Err(e) => Err(e),
    }
}

/// The rectangle that an entry of four values `[left, top, width, height]` describes.
pub open spec fn spec_rect_from_entry(data: [i32; 4]) -> Rect {
    Rect {
        left: data@[0],
        top: data@[1],
        right: (data@[0] + data@[2]) as i32,
        bottom: (data@[1] + data@[3]) as i32,
    }
}

/// The entry `[left, top, width, height]` that a rectangle is written as.
pub open spec fn spec_rect_to_entry(rect: Rect) -> Seq<i32> {
    seq![rect.left, rect.top, (rect.right - rect.left) as i32, (rect.bottom - rect.top) as i32]
}

/// Reads a rectangle from its entry `[left, top, width, height]`.
pub fn rect_from_entry(data: [i32; 4]) -> (r: Rect)
    requires
        i32::MIN <= data@[0] + data@[2] <= i32::MAX,
        i32::MIN <= data@[1] + data@[3] <= i32::MAX,
    ensures
        r == spec_rect_from_entry(data),
{
    let left = data[0];
    let top = data[1];
    let width = data[2];
    let height = data[3];
    Rect { left, top, bottom: top + height, right: left + width }
}

/// Writes a rectangle as its entry `[left, top, width, height]`.
pub fn rect_to_entry(rect: &Rect) -> (r: [i32; 4])
    requires
        i32::MIN <= rect.right - rect.left <= i32::MAX,
        i32::MIN <= rect.bottom - rect.top <= i32::MAX,
    ensures
        r@ == spec_rect_to_entry(*rect),
{
    let r = [rect.left, rect.top, rect.right - rect.left, rect.bottom - rect.top];
    assert(r@ =~= spec_rect_to_entry(*rect));
    r
}

/// Writing the rectangle that an entry describes gives that entry back.
pub proof fn lemma_rect_entry_round_trip(data: [i32; 4])
    requires
        i32::MIN <= data@[0] + data@[2] <= i32::MAX,
        i32::MIN <= data@[1] + data@[3] <= i32::MAX,
    ensures
        spec_rect_to_entry(spec_rect_from_entry(data)) == data@,
{
    assert(spec_rect_to_entry(spec_rect_from_entry(data)) =~= data@);
}

/// A width and a height.
#[derive(Debug, Clone, Copy, PartialEq, Eq, Structural)]
pub struct Size {
    pub width: i32,
    pub height: i32,
}

/// The raw code of a stream configuration that is an input.
pub const SCALER_AVAILABLE_STREAM_CONFIGURATIONS_INPUT: i32 = 1;

/// The image format that a raw format value names: a negative value or one that names no
/// format gives the raw value back as the error.
pub open spec fn spec_image_format_of(format: int) -> Result<ImageFormat, int> {
    if format >= 0 && ImageFormat::spec_from_code(format) is Some {
        Ok(ImageFormat::spec_from_code(format)->0)
    } else {
        Err(format)
    }
}

/// One available stream configuration: a format, a size and whether it is an input.
#[derive(Debug, Clone, Copy, PartialEq, Eq, Structural)]
pub struct StreamConfiguration {
    pub format: i32,
    pub width: i32,
    pub height: i32,
    pub is_input: i32,
}

impl StreamConfiguration {
    /// The `ImageFormat` of this configuration, or the raw value where it names none.
    pub fn format(&self) -> (r: Result<ImageFormat, i32>)
        ensures
            match spec_image_format_of(self.format as int) {
                Ok(f) => r == Ok::<ImageFormat, i32>(f),
                Err(_) => r == Err::<ImageFormat, i32>(self.format),
            },
    {
        if self.format < 0 {
            return Err(self.format);
        }
        match ImageFormat::try_from_raw(self.format as u32) {
            Some(f) => Ok(f),
            None => Err(self.format),
        }
    }

    pub fn size(&self) -> (r: Size)
        ensures
            r == (Size { width: self.width, height: self.height }),
    {
        Size { width: self.width, height: self.height }
    }

    pub fn is_input(&self) -> (r: bool)
        ensures
            r == (self.is_input == SCALER_AVAILABLE_STREAM_CONFIGURATIONS_INPUT),
    {
        self.is_input == SCALER_AVAILABLE_STREAM_CONFIGURATIONS_INPUT
    }
}

/// A duration that applies to one stream configuration.
#[derive(Debug, Clone, Copy, PartialEq, Eq, Structural)]
pub struct StreamConfigurationDuration {
    pub format: i64,
    pub width: i64,
    pub height: i64,
    pub duration: i64,
}

impl StreamConfigurationDuration {
    /// The `ImageFormat` of this configuration, or the raw value where it names none.
    pub fn format(&self) -> (r: Result<ImageFormat, i64>)
        ensures
            match spec_image_format_of(self.format as int) {
                Ok(f) => r == Ok::<ImageFormat, i64>(f),
                Err(_) => r == Err::<ImageFormat, i64>(self.format),
            },
    {
        if self.format < 0 || self.format > 0xffff_ffff {
            return Err(self.format);
        }
        match ImageFormat::try_from_raw(self.format as u32) {
            Some(f) => Ok(f),
            None => Err(self.format),
        }
    }

    /// The size, each side truncated to 32 bits.
    pub fn size(&self) -> (r: Size)
        ensures
            r == (Size { width: self.width as i32, height: self.height as i32 }),
    {
        Size { width: self.width as i32, height: self.height as i32 }
    }
}

/// One recommended stream configuration: a format, a size, whether it is an input, and the
/// use case that it is recommended for.
#[derive(Debug, Clone, Copy, PartialEq, Eq, Structural)]
pub struct RecommendedStreamConfiguration {
    pub format: i32,
    pub width: i32,
    pub height: i32,
    pub is_input: i32,
    pub usecase: i32,
}

impl RecommendedStreamConfiguration {
    /// The `ImageFormat` of this configuration, or the raw value where it names none.
    pub fn format(&self) -> (r: Result<ImageFormat, i32>)
        ensures
            match spec_image_format_of(self.format as int) {
                Ok(f) => r == Ok::<ImageFormat, i32>(f),
                Err(_) => r == Err::<ImageFormat, i32>(self.format),
            },
    {
        if self.format < 0 {
            return Err(self.format);
        }
        match ImageFormat::try_from_raw(self.format as u32) {
            Some(f) => Ok(f),
            None => Err(self.format),
        }
    }

    /// The use case of this configuration, or the raw value where it names none.
    pub fn usecase(&self) -> (r: Result<ScalerAvailableRecommendedStreamConfigurations, i32>)
        ensures
            match ScalerAvailableRecommendedStreamConfigurations::spec_from_code(
                self.usecase as int,
            ) {
                Some(u) => r == Ok::<ScalerAvailableRecommendedStreamConfigurations, i32>(u),
                None => r == Err::<ScalerAvailableRecommendedStreamConfigurations, i32>(
                    self.usecase,
                ),
            },
    {
        match ScalerAvailableRecommendedStreamConfigurations::try_from_raw(self.usecase) {
            Some(u) => Ok(u),
            None => Err(self.usecase),
        }
    }

    pub fn size(&self) -> (r: Size)
        ensures
            r == (Size { width: self.width, height: self.height }),
    {
        Size { width: self.width, height: self.height }
    }

    pub fn is_input(&self) -> (r: bool)
        ensures
            r == (self.is_input == SCALER_AVAILABLE_STREAM_CONFIGURATIONS_INPUT),
    {
        self.is_input == SCALER_AVAILABLE_STREAM_CONFIGURATIONS_INPUT
    }
}

/// A point in pixel coordinates.
#[derive(Copy, Clone, Debug, PartialEq, Eq, Structural)]
pub struct Point {
    pub x: i32,
    pub y: i32,
}

/// A 4-element vector of integers corresponding to a 2x2 pattern of color channel offsets used
/// for the black level offsets of each color channel.
#[derive(Copy, Clone, Debug, PartialEq, Eq)]
pub struct BlackLevelPattern {
    pub offsets: [i32; 4],
}

impl BlackLevelPattern {
    /// Return the color channel offset for a given index into the array of raw pixel values:
    /// the pattern repeats every two columns and every two rows.
    pub fn get_offset_for_index(&self, column: usize, row: usize) -> (r: i32)
        ensures
            r == self.offsets@[2 * (row % 2) + column % 2],
    {
        let index = ((row & 1) << 1) | (column & 1);
        assert(index == 2 * (row % 2) + column % 2) by (bit_vector)
            requires
                index == ((row & 1) << 1) | (column & 1),
        ;
        self.offsets[index]
    }
}

/// Reads the black level pattern from its entry of four values.
pub fn black_level_pattern_from_entry(values: &[i32]) -> (r: Result<BlackLevelPattern, CameraError>)
    ensures
        values@.len() == 4 ==> (r matches Ok(p) && p.offsets@ == values@),
        values@.len() != 4 ==> r == Err::<BlackLevelPattern, CameraError>(
            CameraError::InvalidMetadataEntryCount(values@.len() as usize, "4"),
        ),
{
    if values.len() != 4 {
        return Err(CameraError::InvalidMetadataEntryCount(values.len(), "4"));
    }
    let offsets = [values[0], values[1], values[2], values[3]];
    assert(offsets@ =~= values@);
    Ok(BlackLevelPattern { offsets })
}

/// A 3x3 matrix of `Rational` values in row-major order, which maps a transform from one color
/// space to another.
#[derive(Clone, Debug)]
pub struct ColorSpaceTransform {
    pub elements: [Rational; 9],
}

impl ColorSpaceTransform {
    /// Get an element of this matrix by its row and column.
    pub fn get_element(&self, column: usize, row: usize) -> (r: Rational)
        requires
            row * 3 + column < 9,
        ensures
            r == self.elements@[row * 3 + column],
    {
        self.elements[row * 3 + column]
    }
}

/// Represents a rectangle with an additional weight component; the rectangle is inclusive of
/// its coordinates.
#[derive(Copy, Clone, Debug, PartialEq, Eq, Structural)]
pub struct MeteringRectangle {
    pub xmin: i32,
    pub ymin: i32,
    pub xmax: i32,
    pub ymax: i32,
    pub weight: i32,
}

impl MeteringRectangle {
    /// Weights set to this value will cause the camera device to ignore this rectangle.
    pub const WEIGHT_DONT_CARE: i32 = 0;

    /// The minimum value of valid metering weight.
    pub const WEIGHT_MIN: i32 = 0;

    /// The maximum value of valid metering weight.
    pub const WEIGHT_MAX: i32 = 1000;

    pub fn width(&self) -> (r: i32)
        requires
            i32::MIN <= self.xmax - self.xmin <= i32::MAX,
        ensures
            r == self.xmax - self.xmin,
    {
        self.xmax - self.xmin
    }

    pub fn height(&self) -> (r: i32)
        requires
            i32::MIN <= self.ymax - self.ymin <= i32::MAX,
        ensures
            r == self.ymax - self.ymin,
    {
        self.ymax - self.ymin
    }
}


/// Reads the color space transform from its entry of nine values, in row-major order.
pub fn color_space_transform_from_entry(values: &[Rational]) -> (r: Result<
    ColorSpaceTransform,
    CameraError,
>)
    ensures
        values@.len() == 9 ==> (r matches Ok(t) && t.elements@ == values@),
        values@.len() != 9 ==> r == Err::<ColorSpaceTransform, CameraError>(
            CameraError::InvalidMetadataEntryCount(values@.len() as usize, "9"),
        ),
{
    if values.len() != 9 {
        return Err(CameraError::InvalidMetadataEntryCount(values.len(), "9"));
    }
    let elements = [
        values[0],
        values[1],
        values[2],
        values[3],
        values[4],
        values[5],
        values[6],
        values[7],
        values[8],
    ];
    assert(elements@ =~= values@);
    Ok(ColorSpaceTransform { elements })
}

/// Writes the color space transform as its entry of nine values, in row-major order.
pub fn color_space_transform_to_entry(transform: &ColorSpaceTransform) -> (r: Vec<Rational>)
    ensures
        r@ == transform.elements@,
{
    let mut out: Vec<Rational> = Vec::new();
    let mut i: usize = 0;
    while i < 9
        invariant
            i <= 9,
            out@ == transform.elements@.take(i as int),
        decreases 9 - i,
    {
        out.push(transform.elements[i]);
        i += 1;
        assert(out@ =~= transform.elements@.take(i as int));
    }
    assert(transform.elements@.take(9) =~= transform.elements@);
    out
}

/// The stream configuration that values `4 * i .. 4 * i + 4` of an entry describe.
pub open spec fn spec_stream_configuration_at(values: Seq<i32>, i: int) -> StreamConfiguration {
    StreamConfiguration {
        format: values[4 * i],
        width: values[4 * i + 1],
        height: values[4 * i + 2],
        is_input: values[4 * i + 3],
    }
}

/// The stream configurations that an entry lists, four values each.
pub open spec fn spec_stream_configurations(values: Seq<i32>) -> Seq<StreamConfiguration> {
    Seq::new(values.len() / 4, |i: int| spec_stream_configuration_at(values, i))
}

/// Reads the stream configurations of an entry, four values each: the number of values must be
/// an exact multiple of four.
pub fn stream_configurations_from_entry(values: &[i32]) -> (r: Result<
    Vec<StreamConfiguration>,
    CameraError,
>)
    ensures
        values@.len() % 4 == 0 ==> (r matches Ok(v) && v@ == spec_stream_configurations(values@)),
        values@.len() % 4 != 0 ==> r == Err::<Vec<StreamConfiguration>, CameraError>(
            CameraError::InvalidMetadataEntryCount(
                values@.len() as usize,
                "an exact multiple of 4",
            ),
        ),
{
    let n = values.len();
    if n % 4 != 0 {
        return Err(CameraError::InvalidMetadataEntryCount(n, "an exact multiple of 4"));
    }
    let mut out: Vec<StreamConfiguration> = Vec::new();
    let mut i: usize = 0;
    while i < n / 4
        invariant
            n == values@.len(),
            n % 4 == 0,
            i <= n / 4,
            out@ == spec_stream_configurations(values@).take(i as int),
        decreases n / 4 - i,
    {
        let b = 4 * i;
        out.push(
            StreamConfiguration {
                format: values[b],
                width: values[b + 1],
                height: values[b + 2],
                is_input: values[b + 3],
            },
        );
        i += 1;
        assert(out@ =~= spec_stream_configurations(values@).take(i as int));
    }
    assert(spec_stream_configurations(values@).take(i as int) =~= spec_stream_configurations(
        values@,
    ));
    Ok(out)
}

/// The duration record that values `4 * i .. 4 * i + 4` of an entry describe.
pub open spec fn spec_stream_configuration_duration_at(
    values: Seq<i64>,
    i: int,
) -> StreamConfigurationDuration {
    StreamConfigurationDuration {
        format: values[4 * i],
        width: values[4 * i + 1],
        height: values[4 * i + 2],
        duration: values[4 * i + 3],
    }
}

/// The duration records that an entry lists, four values each.
pub open spec fn spec_stream_configuration_durations(values: Seq<i64>) -> Seq<
    StreamConfigurationDuration,
> {
    Seq::new(values.len() / 4, |i: int| spec_stream_configuration_duration_at(values, i))
}

/// Reads the duration records of an entry, four values each: the number of values must be an
/// exact multiple of four.
pub fn stream_configuration_durations_from_entry(values: &[i64]) -> (r: Result<
    Vec<StreamConfigurationDuration>,
    CameraError,
>)
    ensures
        values@.len() % 4 == 0 ==> (r matches Ok(v) && v@ == spec_stream_configuration_durations(
            values@,
        )),
        values@.len() % 4 != 0 ==> r == Err::<Vec<StreamConfigurationDuration>, CameraError>(
            CameraError::InvalidMetadataEntryCount(
                values@.len() as usize,
                "an exact multiple of 4",
            ),
        ),
{
    let n = values.len();
    if n % 4 != 0 {
        return Err(CameraError::InvalidMetadataEntryCount(n, "an exact multiple of 4"));
    }
    let mut out: Vec<StreamConfigurationDuration> = Vec::new();
    let mut i: usize = 0;
    while i < n / 4
        invariant
            n == values@.len(),
            n % 4 == 0,
            i <= n / 4,
            out@ == spec_stream_configuration_durations(values@).take(i as int),
        decreases n / 4 - i,
    {
        let b = 4 * i;
        out.push(
            StreamConfigurationDuration {
                format: values[b],
                width: values[b + 1],
                height: values[b + 2],
                duration: values[b + 3],
            },
        );
        i += 1;
        assert(out@ =~= spec_stream_configuration_durations(values@).take(i as int));
    }
    assert(spec_stream_configuration_durations(values@).take(i as int)
        =~= spec_stream_configuration_durations(values@));
    Ok(out)
}

/// The recommended configuration that values `5 * i .. 5 * i + 5` of an entry describe.
pub open spec fn spec_recommended_stream_configuration_at(
    values: Seq<i32>,
    i: int,
) -> RecommendedStreamConfiguration {
    RecommendedStreamConfiguration {
        format: values[5 * i],
        width: values[5 * i + 1],
        height: values[5 * i + 2],
        is_input: values[5 * i + 3],
        usecase: values[5 * i + 4],
    }
}

/// The recommended configurations that an entry lists, five values each.
pub open spec fn spec_recommended_stream_configurations(values: Seq<i32>) -> Seq<
    RecommendedStreamConfiguration,
> {
    Seq::new(values.len() / 5, |i: int| spec_recommended_stream_configuration_at(values, i))
}

/// Reads the recommended configurations of an entry, five values each: the number of values
/// must be an exact multiple of five.
pub fn recommended_stream_configurations_from_entry(values: &[i32]) -> (r: Result<
    Vec<RecommendedStreamConfiguration>,
    CameraError,
>)
    ensures
        values@.len() % 5 == 0 ==> (r matches Ok(v) && v@
            == spec_recommended_stream_configurations(values@)),
        values@.len() % 5 != 0 ==> r == Err::<Vec<RecommendedStreamConfiguration>, CameraError>(
            CameraError::InvalidMetadataEntryCount(
                values@.len() as usize,
                "an exact multiple of 5",
            ),
        ),
{
    let n = values.len();
    if n % 5 != 0 {
        return Err(CameraError::InvalidMetadataEntryCount(n, "an exact multiple of 5"));
    }
    let mut out: Vec<RecommendedStreamConfiguration> = Vec::new();
    let mut i: usize = 0;
    while i < n / 5
        invariant
            n == values@.len(),
            n % 5 == 0,
            i <= n / 5,
            out@ == spec_recommended_stream_configurations(values@).take(i as int),
        decreases n / 5 - i,
    {
        let b = 5 * i;
        out.push(
            RecommendedStreamConfiguration {
                format: values[b],
                width: values[b + 1],
                height: values[b + 2],
                is_input: values[b + 3],
                usecase: values[b + 4],
            },
        );
        i += 1;
        assert(out@ =~= spec_recommended_stream_configurations(values@).take(i as int));
    }
    assert(spec_recommended_stream_configurations(values@).take(i as int)
        =~= spec_recommended_stream_configurations(values@));
    Ok(out)
}

/// The point that values `2 * i .. 2 * i + 2` of an entry describe.
pub open spec fn spec_point_at(values: Seq<i32>, i: int) -> Point {
    Point { x: values[2 * i], y: values[2 * i + 1] }
}

/// The points that an entry lists, two values each.
pub open spec fn spec_points(values: Seq<i32>) -> Seq<Point> {
    Seq::new(values.len() / 2, |i: int| spec_point_at(values, i))
}

/// Reads the points of an entry, two values each: the number of values must be even.
pub fn points_from_entry(values: &[i32]) -> (r: Result<Vec<Point>, CameraError>)
    ensures
        values@.len() % 2 == 0 ==> (r matches Ok(v) && v@ == spec_points(values@)),
        values@.len() % 2 != 0 ==> r == Err::<Vec<Point>, CameraError>(
            CameraError::InvalidMetadataEntryCount(
                values@.len() as usize,
                "an exact multiple of 2",
            ),
        ),
{
    let n = values.len();
    if n % 2 != 0 {
        return Err(CameraError::InvalidMetadataEntryCount(n, "an exact multiple of 2"));
    }
    let mut out: Vec<Point> = Vec::new();
    let mut i: usize = 0;
    while i < n / 2
        invariant
            n == values@.len(),
            n % 2 == 0,
            i <= n / 2,
            out@ == spec_points(values@).take(i as int),
        decreases n / 2 - i,
    {
        let b = 2 * i;
        out.push(Point { x: values[b], y: values[b + 1] });
        i += 1;
        assert(out@ =~= spec_points(values@).take(i as int));
    }
    assert(spec_points(values@).take(i as int) =~= spec_points(values@));
    Ok(out)
}

/// The metering rectangle that values `5 * i .. 5 * i + 5` of an entry describe.
pub open spec fn spec_metering_rectangle_at(values: Seq<i32>, i: int) -> MeteringRectangle {
    MeteringRectangle {
        xmin: values[5 * i],
        ymin: values[5 * i + 1],
        xmax: values[5 * i + 2],
        ymax: values[5 * i + 3],
        weight: values[5 * i + 4],
    }
}

/// The metering rectangles that an entry lists, five values each.
pub open spec fn spec_metering_rectangles(values: Seq<i32>) -> Seq<MeteringRectangle> {
    Seq::new(values.len() / 5, |i: int| spec_metering_rectangle_at(values, i))
}

/// Field `k` of a metering rectangle in entry order: `xmin`, `ymin`, `xmax`, `ymax`, `weight`.
pub open spec fn spec_metering_rectangle_field(rect: MeteringRectangle, k: int) -> i32 {
    if k == 0 {
        rect.xmin
    } else if k == 1 {
        rect.ymin
    } else if k == 2 {
        rect.xmax
    } else if k == 3 {
        rect.ymax
    } else {
        rect.weight
    }
}

/// The entry that metering rectangles are written as: their fields one after the other.
pub open spec fn spec_metering_rectangles_entry(rects: Seq<MeteringRectangle>) -> Seq<i32> {
    Seq::new(5 * rects.len(), |j: int| spec_metering_rectangle_field(rects[j / 5], j % 5))
}

/// Reads the metering rectangles of an entry, five values each: the number of values must be
/// an exact multiple of five.
pub fn metering_rectangles_from_entry(values: &[i32]) -> (r: Result<
    Vec<MeteringRectangle>,
    CameraError,
>)
    ensures
        values@.len() % 5 == 0 ==> (r matches Ok(v) && v@ == spec_metering_rectangles(values@)),
        values@.len() % 5 != 0 ==> r == Err::<Vec<MeteringRectangle>, CameraError>(
            CameraError::InvalidMetadataEntryCount(
                values@.len() as usize,
                "an exact multiple of 5",
            ),
        ),
{
    let n = values.len();
    if n % 5 != 0 {
        return Err(CameraError::InvalidMetadataEntryCount(n, "an exact multiple of 5"));
    }
    let mut out: Vec<MeteringRectangle> = Vec::new();
    let mut i: usize = 0;
    while i < n / 5
        invariant
            n == values@.len(),
            n % 5 == 0,
            i <= n / 5,
            out@ == spec_metering_rectangles(values@).take(i as int),
        decreases n / 5 - i,
    {
        let b = 5 * i;
        out.push(
            MeteringRectangle {
                xmin: values[b],
                ymin: values[b + 1],
                xmax: values[b + 2],
                ymax: values[b + 3],
                weight: values[b + 4],
            },
        );
        i += 1;
        assert(out@ =~= spec_metering_rectangles(values@).take(i as int));
    }
    assert(spec_metering_rectangles(values@).take(i as int) =~= spec_metering_rectangles(values@));
    Ok(out)
}

/// Writes metering rectangles as one entry: the five fields of each, one rectangle after the
/// other.
pub fn metering_rectangles_to_entry(rects: &[MeteringRectangle]) -> (r: Vec<i32>)
    requires
        5 * rects@.len() <= usize::MAX,
    ensures
        r@ == spec_metering_rectangles_entry(rects@),
{
    let mut out: Vec<i32> = Vec::new();
    let mut i: usize = 0;
    while i < rects.len()
        invariant
            i <= rects@.len(),
            out@ == spec_metering_rectangles_entry(rects@.take(i as int)),
        decreases rects@.len() - i,
    {
        let rect = rects[i];
        proof {
            lemma_metering_entry_push(rects@.take(i as int), rect);
            assert(rects@.take(i as int).push(rect) =~= rects@.take(i + 1));
        }
        out.push(rect.xmin);
        out.push(rect.ymin);
        out.push(rect.xmax);
        out.push(rect.ymax);
        out.push(rect.weight);
        i += 1;
        assert(out@ =~= spec_metering_rectangles_entry(rects@.take(i as int)));
    }
    assert(rects@.take(i as int) =~= rects@);
    out
}

/// Writing one more rectangle appends its five fields to the entry.
proof fn lemma_metering_entry_push(rects: Seq<MeteringRectangle>, rect: MeteringRectangle)
    ensures
        spec_metering_rectangles_entry(rects.push(rect)) == spec_metering_rectangles_entry(rects)
            + seq![rect.xmin, rect.ymin, rect.xmax, rect.ymax, rect.weight],
{
    let lhs = spec_metering_rectangles_entry(rects.push(rect));
    let rhs = spec_metering_rectangles_entry(rects) + seq![
        rect.xmin,
        rect.ymin,
        rect.xmax,
        rect.ymax,
        rect.weight,
    ];
    assert forall|j: int| 0 <= j < lhs.len() implies lhs[j] == rhs[j] by {
        if j < 5 * rects.len() {
            assert(j / 5 < rects.len()) by (nonlinear_arith)
                requires
                    0 <= j < 5 * rects.len(),
            ;
        } else {
            assert(j / 5 == rects.len()) by (nonlinear_arith)
                requires
                    5 * rects.len() <= j < 5 * rects.len() + 5,
            ;
            assert(j % 5 == j - 5 * rects.len()) by (nonlinear_arith)
                requires
                    5 * rects.len() <= j < 5 * rects.len() + 5,
            ;
        }
    }
    assert(lhs =~= rhs);
}

/// Reading the entry that metering rectangles are written as gives those rectangles back.
pub proof fn lemma_metering_rectangles_entry_round_trip(rects: Seq<MeteringRectangle>)
    ensures
        spec_metering_rectangles_entry(rects).len() % 5 == 0,
        spec_metering_rectangles(spec_metering_rectangles_entry(rects)) == rects,
{
    let e = spec_metering_rectangles_entry(rects);
    assert(e.len() / 5 == rects.len() && e.len() % 5 == 0) by (nonlinear_arith)
        requires
            e.len() == 5 * rects.len(),
    ;
    let back = spec_metering_rectangles(e);
    assert forall|i: int| 0 <= i < rects.len() implies back[i] == rects[i] by {
        assert(5 * i + 4 < 5 * rects.len()) by (nonlinear_arith)
            requires
                0 <= i < rects.len(),
        ;
        assert((5 * i + 0) / 5 == i && (5 * i + 0) % 5 == 0);
        assert((5 * i + 1) / 5 == i && (5 * i + 1) % 5 == 1);
        assert((5 * i + 2) / 5 == i && (5 * i + 2) % 5 == 2);
        assert((5 * i + 3) / 5 == i && (5 * i + 3) % 5 == 3);
        assert((5 * i + 4) / 5 == i && (5 * i + 4) % 5 == 4);
    }
    assert(back =~= rects);
}

/// Writing the metering rectangles that an entry lists gives that entry back, where the entry
/// holds an exact multiple of five values.
pub proof fn lemma_metering_rectangles_from_entry_round_trip(values: Seq<i32>)
    requires
        values.len() % 5 == 0,
    ensures
        spec_metering_rectangles_entry(spec_metering_rectangles(values)) == values,
{
    let rects = spec_metering_rectangles(values);
    let back = spec_metering_rectangles_entry(rects);
    assert(5 * (values.len() / 5) == values.len()) by (nonlinear_arith)
        requires
            values.len() % 5 == 0,
    ;
    assert forall|j: int| 0 <= j < values.len() implies back[j] == values[j] by {
        let q = j / 5;
        let m = j % 5;
        assert(j == 5 * q + m && 0 <= m < 5 && 0 <= q < values.len() / 5) by (nonlinear_arith)
            requires
                0 <= j < values.len(),
                values.len() % 5 == 0,
                q == j / 5,
                m == j % 5,
        ;
    }
    assert(back =~= values);
}

/// The NDK's constants used here have the values that its headers give them.
pub proof fn lemma_ndk_constants()
    ensures
        SCALER_AVAILABLE_STREAM_CONFIGURATIONS_INPUT == 1,
{
}

/// The type code of an entry decodes by the NDK's `ACAMERA_TYPE_*` codes: `0` bytes, `1` 32-bit
/// integers, `2` floats, `3` 64-bit integers, `4` doubles, `5` rationals, and any other code
/// an unknown type.
pub proof fn lemma_entry_type_codes()
    ensures
        spec_entry_type(0u8) == MetadataEntryType::Byte,
        spec_entry_type(1u8) == MetadataEntryType::Int32,
        spec_entry_type(2u8) == MetadataEntryType::Float,
        spec_entry_type(3u8) == MetadataEntryType::Int64,
        spec_entry_type(4u8) == MetadataEntryType::Double,
        spec_entry_type(5u8) == MetadataEntryType::Rational,
        forall|code: u8| code > 5 ==> #[trigger] spec_entry_type(code) == MetadataEntryType::Unknown,
{
}

} // verus!
