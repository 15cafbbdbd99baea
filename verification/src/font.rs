//! Values of the font API: weights and OpenType axis tags.
use vstd::prelude::*;

verus! {

/// An integer holding a valid font weight value between 1 and 1000.
#[derive(Clone, Copy, Debug, PartialEq, Eq, PartialOrd, Ord, Hash)]
pub struct FontWeight(u16);

/// The error returned when an invalid font weight value is passed.
#[derive(Debug)]
pub struct TryFromU16Error(());

/// A font weight lies between 1 and 1000, both included.
pub open spec fn is_valid_font_weight(value: u16) -> bool {
    0 < value && value <= 1000
}

impl FontWeight {
    /// The weight as a plain number.
    pub closed spec fn view(self) -> u16 {
        self.0
    }

    /// Every `FontWeight` holds a valid weight.
    pub closed spec fn wf(self) -> bool {
        is_valid_font_weight(self.0)
    }

    /// A weight is determined by its value, and the value of a well-formed weight is a valid
    /// weight: rebuilding a weight from its value gives that weight back.
    pub proof fn lemma_weight_from_value(self, other: FontWeight)
        ensures
            self.wf() ==> is_valid_font_weight(self@),
            self@ == other@ ==> self == other,
    {
    }

    pub fn new(value: u16) -> (r: Result<Self, TryFromU16Error>)
        ensures
            r is Ok <==> is_valid_font_weight(value),
            r matches Ok(w) ==> w@ == value && w.wf(),
    {
        if 0 < value && value <= 1000 {
            Ok(Self(value))
        } else {
            Err(TryFromU16Error(()))
        }
    }

    pub fn value(&self) -> (r: u16)
        ensures
            r == self@,
    {
        self.0
    }

    /// The weight 100 (`AFONT_WEIGHT_THIN`).
    pub fn thin() -> (r: FontWeight)
        ensures
            r@ == 100,
            r.wf(),
    {
        FontWeight(100)
    }

    /// The weight 200 (`AFONT_WEIGHT_EXTRA_LIGHT`).
    pub fn extra_light() -> (r: FontWeight)
        ensures
            r@ == 200,
            r.wf(),
    {
        FontWeight(200)
    }

    /// The weight 300 (`AFONT_WEIGHT_LIGHT`).
    pub fn light() -> (r: FontWeight)
        ensures
            r@ == 300,
            r.wf(),
    {
        FontWeight(300)
    }

    /// The weight 400 (`AFONT_WEIGHT_NORMAL`).
    pub fn normal() -> (r: FontWeight)
        ensures
            r@ == 400,
            r.wf(),
    {
        FontWeight(400)
    }

    /// The weight 500 (`AFONT_WEIGHT_MEDIUM`).
    pub fn medium() -> (r: FontWeight)
        ensures
            r@ == 500,
            r.wf(),
    {
        FontWeight(500)
    }

    /// The weight 600 (`AFONT_WEIGHT_SEMI_BOLD`).
    pub fn semi_bold() -> (r: FontWeight)
        ensures
            r@ == 600,
            r.wf(),
    {
        FontWeight(600)
    }

    /// The weight 700 (`AFONT_WEIGHT_BOLD`).
    pub fn bold() -> (r: FontWeight)
        ensures
            r@ == 700,
            r.wf(),
    {
        FontWeight(700)
    }

    /// The weight 800 (`AFONT_WEIGHT_EXTRA_BOLD`).
    pub fn extra_bold() -> (r: FontWeight)
        ensures
            r@ == 800,
            r.wf(),
    {
        FontWeight(800)
    }

    /// The weight 900 (`AFONT_WEIGHT_BLACK`).
    pub fn black() -> (r: FontWeight)
        ensures
            r@ == 900,
            r.wf(),
    {
        FontWeight(900)
    }

    /// The weight 1000 (`AFONT_WEIGHT_MAX`).
    pub fn max() -> (r: FontWeight)
        ensures
            r@ == 1000,
            r.wf(),
    {
        FontWeight(1000)
    }

    /// The common name of the weight, for the nine named weights from 100 to 900.
    pub open spec fn spec_name(self) -> Option<&'static str> {
        if self@ == 100 {
            Some("Thin")
        } else if self@ == 200 {
            Some("Extra Light (Ultra Light)")
        } else if self@ == 300 {
            Some("Light")
        } else if self@ == 400 {
            Some("Normal (Regular)")
        } else if self@ == 500 {
            Some("Medium")
        } else if self@ == 600 {
            Some("Semi Bold (Demi Bold)")
        } else if self@ == 700 {
            Some("Bold")
        } else if self@ == 800 {
            Some("Extra Bold (Ultra Bold)")
        } else if self@ == 900 {
            Some("Black (Heavy)")
        } else {
            None
        }
    }

    /// The nine named weights have the common names of the OpenType weight classes, from
    /// "Thin" at 100 to "Black (Heavy)" at 900; no other weight has a name.
    pub proof fn lemma_weight_names(self)
        ensures
            self@ == 100 ==> self.spec_name() == Some("Thin"),
            self@ == 200 ==> self.spec_name() == Some("Extra Light (Ultra Light)"),
            self@ == 300 ==> self.spec_name() == Some("Light"),
            self@ == 400 ==> self.spec_name() == Some("Normal (Regular)"),
            self@ == 500 ==> self.spec_name() == Some("Medium"),
            self@ == 600 ==> self.spec_name() == Some("Semi Bold (Demi Bold)"),
            self@ == 700 ==> self.spec_name() == Some("Bold"),
            self@ == 800 ==> self.spec_name() == Some("Extra Bold (Ultra Bold)"),
            self@ == 900 ==> self.spec_name() == Some("Black (Heavy)"),
            self@ % 100 != 0 || self@ > 900 ==> self.spec_name() is None,
    {
    }

    /// The common name of the weight, which is how the weight is displayed; other weights are
    /// displayed as their number.
    pub fn name(&self) -> (r: Option<&'static str>)
        ensures
            r == self.spec_name(),
    {
        match self.0 {
            100 => Some("Thin"),
            200 => Some("Extra Light (Ultra Light)"),
            300 => Some("Light"),
            400 => Some("Normal (Regular)"),
            500 => Some("Medium"),
            600 => Some("Semi Bold (Demi Bold)"),
            700 => Some("Bold"),
            800 => Some("Extra Bold (Ultra Bold)"),
            900 => Some("Black (Heavy)"),
            _ => None,
        }
    }
}

/// The byte of `value` at position `i` of its big-endian representation, `0` being the most
/// significant.
pub open spec fn spec_be_byte(value: u32, i: int) -> u8 {
    ((value >> ((24 - 8 * i) as u32)) & 0xff) as u8
}

/// Each byte of an OpenType axis tag lies in the range `0x20..=0x7E`.
pub open spec fn is_valid_axis_tag(value: u32) -> bool {
    forall|i: int| 0 <= i < 4 ==> 0x20 <= #[trigger] spec_be_byte(value, i) <= 0x7e
}

/// A 4-byte integer representing an OpenType axis tag.
#[derive(Clone, Copy, PartialEq, Eq, Structural)]
pub struct AxisTag(u32);

/// The error returned when a value is not a valid axis tag.
#[derive(Debug)]
pub struct TryFromU32Error(());

impl AxisTag {
    /// The tag as a big-endian number.
    pub closed spec fn view(self) -> u32 {
        self.0
    }

    /// A tag is determined by its big-endian value.
    pub proof fn lemma_tag_from_value(self, other: AxisTag)
        ensures
            self@ == other@ ==> self == other,
    {
    }

    /// The tag of a big-endian value, each byte of which must lie in the range `0x20..=0x7E`.
    pub fn from_be(value: u32) -> (r: Result<Self, TryFromU32Error>)
        ensures
            r is Ok <==> is_valid_axis_tag(value),
            r matches Ok(tag) ==> tag@ == value,
    {
        let bytes = be_bytes(value);
        let mut i: usize = 0;
        while i < 4
            invariant
                0 <= i <= 4,
                bytes@ == Seq::new(4, |k: int| spec_be_byte(value, k)),
                forall|k: int| 0 <= k < i ==> 0x20 <= #[trigger] spec_be_byte(value, k) <= 0x7e,
            decreases 4 - i,
        {
            let byte = bytes[i];
            if !(0x20 <= byte && byte <= 0x7e) {
                assert(bytes@[i as int] == spec_be_byte(value, i as int));
                return Err(TryFromU32Error(()));
            }
            i = i + 1;
        }
        Ok(Self(value))
    }

    /// The four bytes of the tag in big-endian order, which are its characters.
    pub fn to_be_bytes(&self) -> (r: [u8; 4])
        ensures
            r@ == Seq::new(4, |k: int| spec_be_byte(self@, k)),
    {
        be_bytes(self.0)
    }
}

/// The four bytes of `value` in big-endian order.
fn be_bytes(value: u32) -> (r: [u8; 4])
    ensures
        r@ == Seq::new(4, |k: int| spec_be_byte(value, k)),
{
    let b0 = ((value >> 24u32) & 0xff) as u8;
    let b1 = ((value >> 16u32) & 0xff) as u8;
    let b2 = ((value >> 8u32) & 0xff) as u8;
    let b3 = (value & 0xff) as u8;
    let r = [b0, b1, b2, b3];
    assert(value == value >> 0u32) by (bit_vector);
    assert(r@ =~= Seq::new(4, |k: int| spec_be_byte(value, k)));
    r
}

/// Corresponds to `AFAMILY_VARIANT_*`.
#[derive(Debug, PartialEq, Eq, PartialOrd, Ord, Structural)]
pub enum FamilyVariant {
    /// A family variant value for the compact font family variant.
    Compact,
    /// A family variant value for the system default variant.
    Default,
    /// A family variant value for the elegant font family variant.
    Elegant,
}

impl FamilyVariant {
    /// The raw code of the variant.
    pub fn into_raw(&self) -> (r: u32)
        ensures
            *self == FamilyVariant::Compact ==> r == 1,
            *self == FamilyVariant::Default ==> r == 0,
            *self == FamilyVariant::Elegant ==> r == 2,
    {
        match self {
            FamilyVariant::Compact => 1,
            FamilyVariant::Default => 0,
            FamilyVariant::Elegant => 2,
        }
    }
}

} // verus!
