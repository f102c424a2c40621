//! Enumerations describing text and image styling and animation easing.
use vstd::prelude::*;
use vstd::std_specs::convert::FromSpecImpl;

use crate::text::str_eq;

verus! {

/// Wire enumeration `TextOverflow` of the client protocol.
#[derive(Clone, Copy, Debug, PartialEq, Eq, Structural, Hash, PartialOrd, Ord)]
pub enum TextOverflow {
    Unspecified,
    Clip,
    Ellipsis,
}

impl TextOverflow {
    /// The field name of this value in the protocol definition.
    pub open spec fn spec_name(self) -> Seq<char> {
        match self {
            TextOverflow::Unspecified => "TEXT_OVERFLOW_UNSPECIFIED"@,
            TextOverflow::Clip => "TEXT_OVERFLOW_CLIP"@,
            TextOverflow::Ellipsis => "TEXT_OVERFLOW_ELLIPSIS"@,
        }
    }

    /// The value decoded from a protocol field name, if it names one.
    pub open spec fn spec_from_name(name: Seq<char>) -> Option<TextOverflow> {
        if name == "TEXT_OVERFLOW_UNSPECIFIED"@ {
            Some(TextOverflow::Unspecified)
        } else if name == "TEXT_OVERFLOW_CLIP"@ {
            Some(TextOverflow::Clip)
        } else if name == "TEXT_OVERFLOW_ELLIPSIS"@ {
            Some(TextOverflow::Ellipsis)
        } else {
            None
        }
    }

    /// The number by which this value is encoded on the wire.
    pub open spec fn spec_value(self) -> i32 {
        match self {
            TextOverflow::Unspecified => 0,
            TextOverflow::Clip => 1,
            TextOverflow::Ellipsis => 2,
        }
    }

    /// The value encoded on the wire by `value`, if any.
    pub open spec fn spec_from_i32(value: i32) -> Option<TextOverflow> {
        if value == 0 {
            Some(TextOverflow::Unspecified)
        } else if value == 1 {
            Some(TextOverflow::Clip)
        } else if value == 2 {
            Some(TextOverflow::Ellipsis)
        } else {
            None
        }
    }

    /// String value of the enum field names used in the protocol definition.
    pub fn as_str_name(&self) -> (name: &'static str)
        ensures
            name@ == self.spec_name(),
    {
        match self {
            TextOverflow::Unspecified => "TEXT_OVERFLOW_UNSPECIFIED",
            TextOverflow::Clip => "TEXT_OVERFLOW_CLIP",
            TextOverflow::Ellipsis => "TEXT_OVERFLOW_ELLIPSIS",
        }
    }

    /// Creates a value from a field name used in the protocol definition.
    pub fn from_str_name(value: &str) -> (res: Option<TextOverflow>)
        ensures
            res == TextOverflow::spec_from_name(value@),
    {
        if str_eq(value, "TEXT_OVERFLOW_UNSPECIFIED") {
            Some(TextOverflow::Unspecified)
        } else if str_eq(value, "TEXT_OVERFLOW_CLIP") {
            Some(TextOverflow::Clip)
        } else if str_eq(value, "TEXT_OVERFLOW_ELLIPSIS") {
            Some(TextOverflow::Ellipsis)
        } else {
            None
        }
    }

    /// Decodes a wire number, returning `None` for numbers that name no value.
    pub fn from_i32(value: i32) -> (res: Option<TextOverflow>)
        ensures
            res == TextOverflow::spec_from_i32(value),
    {
        match value {
            0 => Some(TextOverflow::Unspecified),
            1 => Some(TextOverflow::Clip),
            2 => Some(TextOverflow::Ellipsis),
            _ => None,
        }
    }

    /// Whether `value` is the wire number of some value.
    pub fn is_valid(value: i32) -> (res: bool)
        ensures
            res == TextOverflow::spec_from_i32(value).is_some(),
    {
        TextOverflow::from_i32(value).is_some()
    }

    /// A value's field name and wire number each decode back to that value,
    /// and no other field name or number decodes to it.
    pub proof fn lemma_round_trip(self)
        ensures
            TextOverflow::spec_from_name(self.spec_name()) == Some(self),
            TextOverflow::spec_from_i32(self.spec_value()) == Some(self),
            forall|name: Seq<char>|
                #[trigger] TextOverflow::spec_from_name(name) == Some(self) ==> name == self.spec_name(),
            forall|value: i32|
                #[trigger] TextOverflow::spec_from_i32(value) == Some(self) ==> value == self.spec_value(),
    {
        reveal_strlit("TEXT_OVERFLOW_UNSPECIFIED");
        reveal_strlit("TEXT_OVERFLOW_CLIP");
        reveal_strlit("TEXT_OVERFLOW_ELLIPSIS");
        assert("TEXT_OVERFLOW_UNSPECIFIED"@.len() == 25);
        assert("TEXT_OVERFLOW_CLIP"@.len() == 18);
        assert("TEXT_OVERFLOW_ELLIPSIS"@.len() == 22);
        match self {
            TextOverflow::Unspecified => {},
            TextOverflow::Clip => {},
            TextOverflow::Ellipsis => {},
        }
    }
}

impl Default for TextOverflow {
    /// The value with wire number zero.
    fn default() -> (res: TextOverflow)
        ensures
            res == TextOverflow::Unspecified,
    {
        TextOverflow::Unspecified
    }
}

impl From<TextOverflow> for i32 {
    fn from(value: TextOverflow) -> (res: i32) {
        match value {
            TextOverflow::Unspecified => 0,
            TextOverflow::Clip => 1,
            TextOverflow::Ellipsis => 2,
        }
    }
}

impl FromSpecImpl<TextOverflow> for i32 {
    open spec fn obeys_from_spec() -> bool {
        true
    }

    open spec fn from_spec(value: TextOverflow) -> i32 {
        value.spec_value()
    }
}

/// Wire enumeration `EasingMode` of the client protocol.
#[derive(Clone, Copy, Debug, PartialEq, Eq, Structural, Hash, PartialOrd, Ord)]
pub enum EasingMode {
    Unspecified,
    Ease,
    EaseIn,
    EaseOut,
    EaseInOut,
    Linear,
    EaseInSine,
    EaseOutSine,
    EaseInOutSine,
    EaseInCubic,
    EaseOutCubic,
    EaseInOutCubic,
    EaseInCirc,
    EaseOutCirc,
    EaseInOutCirc,
    EaseInElastic,
    EaseOutElastic,
    EaseInOutElastic,
    EaseInBack,
    EaseOutBack,
    EaseInOutBack,
    EaseInBounce,
    EaseOutBounce,
    EaseInOutBounce,
}

impl EasingMode {
    /// The field name of this value in the protocol definition.
    pub open spec fn spec_name(self) -> Seq<char> {
        match self {
            EasingMode::Unspecified => "EASING_MODE_UNSPECIFIED"@,
            EasingMode::Ease => "EASING_MODE_EASE"@,
            EasingMode::EaseIn => "EASING_MODE_EASE_IN"@,
            EasingMode::EaseOut => "EASING_MODE_EASE_OUT"@,
            EasingMode::EaseInOut => "EASING_MODE_EASE_IN_OUT"@,
            EasingMode::Linear => "EASING_MODE_LINEAR"@,
            EasingMode::EaseInSine => "EASING_MODE_EASE_IN_SINE"@,
            EasingMode::EaseOutSine => "EASING_MODE_EASE_OUT_SINE"@,
            EasingMode::EaseInOutSine => "EASING_MODE_EASE_IN_OUT_SINE"@,
            EasingMode::EaseInCubic => "EASING_MODE_EASE_IN_CUBIC"@,
            EasingMode::EaseOutCubic => "EASING_MODE_EASE_OUT_CUBIC"@,
            EasingMode::EaseInOutCubic => "EASING_MODE_EASE_IN_OUT_CUBIC"@,
            EasingMode::EaseInCirc => "EASING_MODE_EASE_IN_CIRC"@,
            EasingMode::EaseOutCirc => "EASING_MODE_EASE_OUT_CIRC"@,
            EasingMode::EaseInOutCirc => "EASING_MODE_EASE_IN_OUT_CIRC"@,
            EasingMode::EaseInElastic => "EASING_MODE_EASE_IN_ELASTIC"@,
            EasingMode::EaseOutElastic => "EASING_MODE_EASE_OUT_ELASTIC"@,
            EasingMode::EaseInOutElastic => "EASING_MODE_EASE_IN_OUT_ELASTIC"@,
            EasingMode::EaseInBack => "EASING_MODE_EASE_IN_BACK"@,
            EasingMode::EaseOutBack => "EASING_MODE_EASE_OUT_BACK"@,
            EasingMode::EaseInOutBack => "EASING_MODE_EASE_IN_OUT_BACK"@,
            EasingMode::EaseInBounce => "EASING_MODE_EASE_IN_BOUNCE"@,
            EasingMode::EaseOutBounce => "EASING_MODE_EASE_OUT_BOUNCE"@,
            EasingMode::EaseInOutBounce => "EASING_MODE_EASE_IN_OUT_BOUNCE"@,
        }
    }

    /// The value decoded from a protocol field name, if it names one.
    pub open spec fn spec_from_name(name: Seq<char>) -> Option<EasingMode> {
        if name == "EASING_MODE_UNSPECIFIED"@ {
            Some(EasingMode::Unspecified)
        } else if name == "EASING_MODE_EASE"@ {
            Some(EasingMode::Ease)
        } else if name == "EASING_MODE_EASE_IN"@ {
            Some(EasingMode::EaseIn)
        } else if name == "EASING_MODE_EASE_OUT"@ {
            Some(EasingMode::EaseOut)
        } else if name == "EASING_MODE_EASE_IN_OUT"@ {
            Some(EasingMode::EaseInOut)
        } else if name == "EASING_MODE_LINEAR"@ {
            Some(EasingMode::Linear)
        } else if name == "EASING_MODE_EASE_IN_SINE"@ {
            Some(EasingMode::EaseInSine)
        } else if name == "EASING_MODE_EASE_OUT_SINE"@ {
            Some(EasingMode::EaseOutSine)
        } else if name == "EASING_MODE_EASE_IN_OUT_SINE"@ {
            Some(EasingMode::EaseInOutSine)
        } else if name == "EASING_MODE_EASE_IN_CUBIC"@ {
            Some(EasingMode::EaseInCubic)
        } else if name == "EASING_MODE_EASE_OUT_CUBIC"@ {
            Some(EasingMode::EaseOutCubic)
        } else if name == "EASING_MODE_EASE_IN_OUT_CUBIC"@ {
            Some(EasingMode::EaseInOutCubic)
        } else if name == "EASING_MODE_EASE_IN_CIRC"@ {
            Some(EasingMode::EaseInCirc)
        } else if name == "EASING_MODE_EASE_OUT_CIRC"@ {
            Some(EasingMode::EaseOutCirc)
        } else if name == "EASING_MODE_EASE_IN_OUT_CIRC"@ {
            Some(EasingMode::EaseInOutCirc)
        } else if name == "EASING_MODE_EASE_IN_ELASTIC"@ {
            Some(EasingMode::EaseInElastic)
        } else if name == "EASING_MODE_EASE_OUT_ELASTIC"@ {
            Some(EasingMode::EaseOutElastic)
        } else if name == "EASING_MODE_EASE_IN_OUT_ELASTIC"@ {
            Some(EasingMode::EaseInOutElastic)
        } else if name == "EASING_MODE_EASE_IN_BACK"@ {
            Some(EasingMode::EaseInBack)
        } else if name == "EASING_MODE_EASE_OUT_BACK"@ {
            Some(EasingMode::EaseOutBack)
        } else if name == "EASING_MODE_EASE_IN_OUT_BACK"@ {
            Some(EasingMode::EaseInOutBack)
        } else if name == "EASING_MODE_EASE_IN_BOUNCE"@ {
            Some(EasingMode::EaseInBounce)
        } else if name == "EASING_MODE_EASE_OUT_BOUNCE"@ {
            Some(EasingMode::EaseOutBounce)
        } else if name == "EASING_MODE_EASE_IN_OUT_BOUNCE"@ {
            Some(EasingMode::EaseInOutBounce)
        } else {
            None
        }
    }

    /// The number by which this value is encoded on the wire.
    pub open spec fn spec_value(self) -> i32 {
        match self {
            EasingMode::Unspecified => 0,
            EasingMode::Ease => 1,
            EasingMode::EaseIn => 2,
            EasingMode::EaseOut => 3,
            EasingMode::EaseInOut => 4,
            EasingMode::Linear => 5,
            EasingMode::EaseInSine => 6,
            EasingMode::EaseOutSine => 7,
            EasingMode::EaseInOutSine => 8,
            EasingMode::EaseInCubic => 9,
            EasingMode::EaseOutCubic => 10,
            EasingMode::EaseInOutCubic => 11,
            EasingMode::EaseInCirc => 12,
            EasingMode::EaseOutCirc => 13,
            EasingMode::EaseInOutCirc => 14,
            EasingMode::EaseInElastic => 15,
            EasingMode::EaseOutElastic => 16,
            EasingMode::EaseInOutElastic => 17,
            EasingMode::EaseInBack => 18,
            EasingMode::EaseOutBack => 19,
            EasingMode::EaseInOutBack => 20,
            EasingMode::EaseInBounce => 21,
            EasingMode::EaseOutBounce => 22,
            EasingMode::EaseInOutBounce => 23,
        }
    }

    /// The value encoded on the wire by `value`, if any.
    pub open spec fn spec_from_i32(value: i32) -> Option<EasingMode> {
        if value == 0 {
            Some(EasingMode::Unspecified)
        } else if value == 1 {
            Some(EasingMode::Ease)
        } else if value == 2 {
            Some(EasingMode::EaseIn)
        } else if value == 3 {
            Some(EasingMode::EaseOut)
        } else if value == 4 {
            Some(EasingMode::EaseInOut)
        } else if value == 5 {
            Some(EasingMode::Linear)
        } else if value == 6 {
            Some(EasingMode::EaseInSine)
        } else if value == 7 {
            Some(EasingMode::EaseOutSine)
        } else if value == 8 {
            Some(EasingMode::EaseInOutSine)
        } else if value == 9 {
            Some(EasingMode::EaseInCubic)
        } else if value == 10 {
            Some(EasingMode::EaseOutCubic)
        } else if value == 11 {
            Some(EasingMode::EaseInOutCubic)
        } else if value == 12 {
            Some(EasingMode::EaseInCirc)
        } else if value == 13 {
            Some(EasingMode::EaseOutCirc)
        } else if value == 14 {
            Some(EasingMode::EaseInOutCirc)
        } else if value == 15 {
            Some(EasingMode::EaseInElastic)
        } else if value == 16 {
            Some(EasingMode::EaseOutElastic)
        } else if value == 17 {
            Some(EasingMode::EaseInOutElastic)
        } else if value == 18 {
            Some(EasingMode::EaseInBack)
        } else if value == 19 {
            Some(EasingMode::EaseOutBack)
        } else if value == 20 {
            Some(EasingMode::EaseInOutBack)
        } else if value == 21 {
            Some(EasingMode::EaseInBounce)
        } else if value == 22 {
            Some(EasingMode::EaseOutBounce)
        } else if value == 23 {
            Some(EasingMode::EaseInOutBounce)
        } else {
            None
        }
    }

    /// String value of the enum field names used in the protocol definition.
    pub fn as_str_name(&self) -> (name: &'static str)
        ensures
            name@ == self.spec_name(),
    {
        match self {
            EasingMode::Unspecified => "EASING_MODE_UNSPECIFIED",
            EasingMode::Ease => "EASING_MODE_EASE",
            EasingMode::EaseIn => "EASING_MODE_EASE_IN",
            EasingMode::EaseOut => "EASING_MODE_EASE_OUT",
            EasingMode::EaseInOut => "EASING_MODE_EASE_IN_OUT",
            EasingMode::Linear => "EASING_MODE_LINEAR",
            EasingMode::EaseInSine => "EASING_MODE_EASE_IN_SINE",
            EasingMode::EaseOutSine => "EASING_MODE_EASE_OUT_SINE",
            EasingMode::EaseInOutSine => "EASING_MODE_EASE_IN_OUT_SINE",
            EasingMode::EaseInCubic => "EASING_MODE_EASE_IN_CUBIC",
            EasingMode::EaseOutCubic => "EASING_MODE_EASE_OUT_CUBIC",
            EasingMode::EaseInOutCubic => "EASING_MODE_EASE_IN_OUT_CUBIC",
            EasingMode::EaseInCirc => "EASING_MODE_EASE_IN_CIRC",
            EasingMode::EaseOutCirc => "EASING_MODE_EASE_OUT_CIRC",
            EasingMode::EaseInOutCirc => "EASING_MODE_EASE_IN_OUT_CIRC",
            EasingMode::EaseInElastic => "EASING_MODE_EASE_IN_ELASTIC",
            EasingMode::EaseOutElastic => "EASING_MODE_EASE_OUT_ELASTIC",
            EasingMode::EaseInOutElastic => "EASING_MODE_EASE_IN_OUT_ELASTIC",
            EasingMode::EaseInBack => "EASING_MODE_EASE_IN_BACK",
            EasingMode::EaseOutBack => "EASING_MODE_EASE_OUT_BACK",
            EasingMode::EaseInOutBack => "EASING_MODE_EASE_IN_OUT_BACK",
            EasingMode::EaseInBounce => "EASING_MODE_EASE_IN_BOUNCE",
            EasingMode::EaseOutBounce => "EASING_MODE_EASE_OUT_BOUNCE",
            EasingMode::EaseInOutBounce => "EASING_MODE_EASE_IN_OUT_BOUNCE",
        }
    }

    /// Creates a value from a field name used in the protocol definition.
    pub fn from_str_name(value: &str) -> (res: Option<EasingMode>)
        ensures
            res == EasingMode::spec_from_name(value@),
    {
        if str_eq(value, "EASING_MODE_UNSPECIFIED") {
            Some(EasingMode::Unspecified)
        } else if str_eq(value, "EASING_MODE_EASE") {
            Some(EasingMode::Ease)
        } else if str_eq(value, "EASING_MODE_EASE_IN") {
            Some(EasingMode::EaseIn)
        } else if str_eq(value, "EASING_MODE_EASE_OUT") {
            Some(EasingMode::EaseOut)
        } else if str_eq(value, "EASING_MODE_EASE_IN_OUT") {
            Some(EasingMode::EaseInOut)
        } else if str_eq(value, "EASING_MODE_LINEAR") {
            Some(EasingMode::Linear)
        } else if str_eq(value, "EASING_MODE_EASE_IN_SINE") {
            Some(EasingMode::EaseInSine)
        } else if str_eq(value, "EASING_MODE_EASE_OUT_SINE") {
            Some(EasingMode::EaseOutSine)
        } else if str_eq(value, "EASING_MODE_EASE_IN_OUT_SINE") {
            Some(EasingMode::EaseInOutSine)
        } else if str_eq(value, "EASING_MODE_EASE_IN_CUBIC") {
            Some(EasingMode::EaseInCubic)
        } else if str_eq(value, "EASING_MODE_EASE_OUT_CUBIC") {
            Some(EasingMode::EaseOutCubic)
        } else if str_eq(value, "EASING_MODE_EASE_IN_OUT_CUBIC") {
            Some(EasingMode::EaseInOutCubic)
        } else if str_eq(value, "EASING_MODE_EASE_IN_CIRC") {
            Some(EasingMode::EaseInCirc)
        } else if str_eq(value, "EASING_MODE_EASE_OUT_CIRC") {
            Some(EasingMode::EaseOutCirc)
        } else if str_eq(value, "EASING_MODE_EASE_IN_OUT_CIRC") {
            Some(EasingMode::EaseInOutCirc)
        } else if str_eq(value, "EASING_MODE_EASE_IN_ELASTIC") {
            Some(EasingMode::EaseInElastic)
        } else if str_eq(value, "EASING_MODE_EASE_OUT_ELASTIC") {
            Some(EasingMode::EaseOutElastic)
        } else if str_eq(value, "EASING_MODE_EASE_IN_OUT_ELASTIC") {
            Some(EasingMode::EaseInOutElastic)
        } else if str_eq(value, "EASING_MODE_EASE_IN_BACK") {
            Some(EasingMode::EaseInBack)
        } else if str_eq(value, "EASING_MODE_EASE_OUT_BACK") {
            Some(EasingMode::EaseOutBack)
        } else if str_eq(value, "EASING_MODE_EASE_IN_OUT_BACK") {
            Some(EasingMode::EaseInOutBack)
        } else if str_eq(value, "EASING_MODE_EASE_IN_BOUNCE") {
            Some(EasingMode::EaseInBounce)
        } else if str_eq(value, "EASING_MODE_EASE_OUT_BOUNCE") {
            Some(EasingMode::EaseOutBounce)
        } else if str_eq(value, "EASING_MODE_EASE_IN_OUT_BOUNCE") {
            Some(EasingMode::EaseInOutBounce)
        } else {
            None
        }
    }

    /// Decodes a wire number, returning `None` for numbers that name no value.
    pub fn from_i32(value: i32) -> (res: Option<EasingMode>)
        ensures
            res == EasingMode::spec_from_i32(value),
    {
        match value {
            0 => Some(EasingMode::Unspecified),
            1 => Some(EasingMode::Ease),
            2 => Some(EasingMode::EaseIn),
            3 => Some(EasingMode::EaseOut),
            4 => Some(EasingMode::EaseInOut),
            5 => Some(EasingMode::Linear),
            6 => Some(EasingMode::EaseInSine),
            7 => Some(EasingMode::EaseOutSine),
            8 => Some(EasingMode::EaseInOutSine),
            9 => Some(EasingMode::EaseInCubic),
            10 => Some(EasingMode::EaseOutCubic),
            11 => Some(EasingMode::EaseInOutCubic),
            12 => Some(EasingMode::EaseInCirc),
            13 => Some(EasingMode::EaseOutCirc),
            14 => Some(EasingMode::EaseInOutCirc),
            15 => Some(EasingMode::EaseInElastic),
            16 => Some(EasingMode::EaseOutElastic),
            17 => Some(EasingMode::EaseInOutElastic),
            18 => Some(EasingMode::EaseInBack),
            19 => Some(EasingMode::EaseOutBack),
            20 => Some(EasingMode::EaseInOutBack),
            21 => Some(EasingMode::EaseInBounce),
            22 => Some(EasingMode::EaseOutBounce),
            23 => Some(EasingMode::EaseInOutBounce),
            _ => None,
        }
    }

    /// Whether `value` is the wire number of some value.
    pub fn is_valid(value: i32) -> (res: bool)
        ensures
            res == EasingMode::spec_from_i32(value).is_some(),
    {
        EasingMode::from_i32(value).is_some()
    }

    /// A value's field name and wire number each decode back to that value,
    /// and no other field name or number decodes to it.
    pub proof fn lemma_round_trip(self)
        ensures
            EasingMode::spec_from_name(self.spec_name()) == Some(self),
            EasingMode::spec_from_i32(self.spec_value()) == Some(self),
            forall|name: Seq<char>|
                #[trigger] EasingMode::spec_from_name(name) == Some(self) ==> name == self.spec_name(),
            forall|value: i32|
                #[trigger] EasingMode::spec_from_i32(value) == Some(self) ==> value == self.spec_value(),
    {
        reveal_strlit("EASING_MODE_UNSPECIFIED");
        reveal_strlit("EASING_MODE_EASE");
        reveal_strlit("EASING_MODE_EASE_IN");
        reveal_strlit("EASING_MODE_EASE_OUT");
        reveal_strlit("EASING_MODE_EASE_IN_OUT");
        reveal_strlit("EASING_MODE_LINEAR");
        reveal_strlit("EASING_MODE_EASE_IN_SINE");
        reveal_strlit("EASING_MODE_EASE_OUT_SINE");
        reveal_strlit("EASING_MODE_EASE_IN_OUT_SINE");
        reveal_strlit("EASING_MODE_EASE_IN_CUBIC");
        reveal_strlit("EASING_MODE_EASE_OUT_CUBIC");
        reveal_strlit("EASING_MODE_EASE_IN_OUT_CUBIC");
        reveal_strlit("EASING_MODE_EASE_IN_CIRC");
        reveal_strlit("EASING_MODE_EASE_OUT_CIRC");
        reveal_strlit("EASING_MODE_EASE_IN_OUT_CIRC");
        reveal_strlit("EASING_MODE_EASE_IN_ELASTIC");
        reveal_strlit("EASING_MODE_EASE_OUT_ELASTIC");
        reveal_strlit("EASING_MODE_EASE_IN_OUT_ELASTIC");
        reveal_strlit("EASING_MODE_EASE_IN_BACK");
        reveal_strlit("EASING_MODE_EASE_OUT_BACK");
        reveal_strlit("EASING_MODE_EASE_IN_OUT_BACK");
        reveal_strlit("EASING_MODE_EASE_IN_BOUNCE");
        reveal_strlit("EASING_MODE_EASE_OUT_BOUNCE");
        reveal_strlit("EASING_MODE_EASE_IN_OUT_BOUNCE");
        assert("EASING_MODE_UNSPECIFIED"@.len() == 23);
        assert("EASING_MODE_EASE"@.len() == 16);
        assert("EASING_MODE_EASE_IN"@.len() == 19);
        assert("EASING_MODE_EASE_OUT"@.len() == 20);
        assert("EASING_MODE_EASE_IN_OUT"@.len() == 23);
        assert("EASING_MODE_LINEAR"@.len() == 18);
        assert("EASING_MODE_EASE_IN_SINE"@.len() == 24);
        assert("EASING_MODE_EASE_OUT_SINE"@.len() == 25);
        assert("EASING_MODE_EASE_IN_OUT_SINE"@.len() == 28);
        assert("EASING_MODE_EASE_IN_CUBIC"@.len() == 25);
        assert("EASING_MODE_EASE_OUT_CUBIC"@.len() == 26);
        assert("EASING_MODE_EASE_IN_OUT_CUBIC"@.len() == 29);
        assert("EASING_MODE_EASE_IN_CIRC"@.len() == 24);
        assert("EASING_MODE_EASE_OUT_CIRC"@.len() == 25);
        assert("EASING_MODE_EASE_IN_OUT_CIRC"@.len() == 28);
        assert("EASING_MODE_EASE_IN_ELASTIC"@.len() == 27);
        assert("EASING_MODE_EASE_OUT_ELASTIC"@.len() == 28);
        assert("EASING_MODE_EASE_IN_OUT_ELASTIC"@.len() == 31);
        assert("EASING_MODE_EASE_IN_BACK"@.len() == 24);
        assert("EASING_MODE_EASE_OUT_BACK"@.len() == 25);
        assert("EASING_MODE_EASE_IN_OUT_BACK"@.len() == 28);
        assert("EASING_MODE_EASE_IN_BOUNCE"@.len() == 26);
        assert("EASING_MODE_EASE_OUT_BOUNCE"@.len() == 27);
        assert("EASING_MODE_EASE_IN_OUT_BOUNCE"@.len() == 30);
        assert("EASING_MODE_UNSPECIFIED"@[12] != "EASING_MODE_EASE_IN_OUT"@[12]);
        assert("EASING_MODE_EASE_IN_SINE"@[20] != "EASING_MODE_EASE_IN_CIRC"@[20]);
        assert("EASING_MODE_EASE_IN_SINE"@[20] != "EASING_MODE_EASE_IN_BACK"@[20]);
        assert("EASING_MODE_EASE_OUT_SINE"@[17] != "EASING_MODE_EASE_IN_CUBIC"@[17]);
        assert("EASING_MODE_EASE_OUT_SINE"@[21] != "EASING_MODE_EASE_OUT_CIRC"@[21]);
        assert("EASING_MODE_EASE_OUT_SINE"@[21] != "EASING_MODE_EASE_OUT_BACK"@[21]);
        assert("EASING_MODE_EASE_IN_OUT_SINE"@[24] != "EASING_MODE_EASE_IN_OUT_CIRC"@[24]);
        assert("EASING_MODE_EASE_IN_OUT_SINE"@[17] != "EASING_MODE_EASE_OUT_ELASTIC"@[17]);
        assert("EASING_MODE_EASE_IN_OUT_SINE"@[24] != "EASING_MODE_EASE_IN_OUT_BACK"@[24]);
        assert("EASING_MODE_EASE_IN_CUBIC"@[17] != "EASING_MODE_EASE_OUT_CIRC"@[17]);
        assert("EASING_MODE_EASE_IN_CUBIC"@[17] != "EASING_MODE_EASE_OUT_BACK"@[17]);
        assert("EASING_MODE_EASE_OUT_CUBIC"@[17] != "EASING_MODE_EASE_IN_BOUNCE"@[17]);
        assert("EASING_MODE_EASE_IN_CIRC"@[20] != "EASING_MODE_EASE_IN_BACK"@[20]);
        assert("EASING_MODE_EASE_OUT_CIRC"@[21] != "EASING_MODE_EASE_OUT_BACK"@[21]);
        assert("EASING_MODE_EASE_IN_OUT_CIRC"@[17] != "EASING_MODE_EASE_OUT_ELASTIC"@[17]);
        assert("EASING_MODE_EASE_IN_OUT_CIRC"@[24] != "EASING_MODE_EASE_IN_OUT_BACK"@[24]);
        assert("EASING_MODE_EASE_IN_ELASTIC"@[17] != "EASING_MODE_EASE_OUT_BOUNCE"@[17]);
        assert("EASING_MODE_EASE_OUT_ELASTIC"@[17] != "EASING_MODE_EASE_IN_OUT_BACK"@[17]);
        match self {
            EasingMode::Unspecified => {},
            EasingMode::Ease => {},
            EasingMode::EaseIn => {},
            EasingMode::EaseOut => {},
            EasingMode::EaseInOut => {},
            EasingMode::Linear => {},
            EasingMode::EaseInSine => {},
            EasingMode::EaseOutSine => {},
            EasingMode::EaseInOutSine => {},
            EasingMode::EaseInCubic => {},
            EasingMode::EaseOutCubic => {},
            EasingMode::EaseInOutCubic => {},
            EasingMode::EaseInCirc => {},
            EasingMode::EaseOutCirc => {},
            EasingMode::EaseInOutCirc => {},
            EasingMode::EaseInElastic => {},
            EasingMode::EaseOutElastic => {},
            EasingMode::EaseInOutElastic => {},
            EasingMode::EaseInBack => {},
            EasingMode::EaseOutBack => {},
            EasingMode::EaseInOutBack => {},
            EasingMode::EaseInBounce => {},
            EasingMode::EaseOutBounce => {},
            EasingMode::EaseInOutBounce => {},
        }
    }
}

impl Default for EasingMode {
    /// The value with wire number zero.
    fn default() -> (res: EasingMode)
        ensures
            res == EasingMode::Unspecified,
    {
        EasingMode::Unspecified
    }
}

impl From<EasingMode> for i32 {
    fn from(value: EasingMode) -> (res: i32) {
        match value {
            EasingMode::Unspecified => 0,
            EasingMode::Ease => 1,
            EasingMode::EaseIn => 2,
            EasingMode::EaseOut => 3,
            EasingMode::EaseInOut => 4,
            EasingMode::Linear => 5,
            EasingMode::EaseInSine => 6,
            EasingMode::EaseOutSine => 7,
            EasingMode::EaseInOutSine => 8,
            EasingMode::EaseInCubic => 9,
            EasingMode::EaseOutCubic => 10,
            EasingMode::EaseInOutCubic => 11,
            EasingMode::EaseInCirc => 12,
            EasingMode::EaseOutCirc => 13,
            EasingMode::EaseInOutCirc => 14,
            EasingMode::EaseInElastic => 15,
            EasingMode::EaseOutElastic => 16,
            EasingMode::EaseInOutElastic => 17,
            EasingMode::EaseInBack => 18,
            EasingMode::EaseOutBack => 19,
            EasingMode::EaseInOutBack => 20,
            EasingMode::EaseInBounce => 21,
            EasingMode::EaseOutBounce => 22,
            EasingMode::EaseInOutBounce => 23,
        }
    }
}

impl FromSpecImpl<EasingMode> for i32 {
    open spec fn obeys_from_spec() -> bool {
        true
    }

    open spec fn from_spec(value: EasingMode) -> i32 {
        value.spec_value()
    }
}

/// Wire enumeration `ImageScaleMode` of the client protocol.
#[derive(Clone, Copy, Debug, PartialEq, Eq, Structural, Hash, PartialOrd, Ord)]
pub enum ImageScaleMode {
    Unspecified,
    StretchToFill,
    ScaleAndCrop,
    ScaleToFit,
}

impl ImageScaleMode {
    /// The field name of this value in the protocol definition.
    pub open spec fn spec_name(self) -> Seq<char> {
        match self {
            ImageScaleMode::Unspecified => "IMAGE_SCALE_MODE_UNSPECIFIED"@,
            ImageScaleMode::StretchToFill => "IMAGE_SCALE_MODE_STRETCH_TO_FILL"@,
            ImageScaleMode::ScaleAndCrop => "IMAGE_SCALE_MODE_SCALE_AND_CROP"@,
            ImageScaleMode::ScaleToFit => "IMAGE_SCALE_MODE_SCALE_TO_FIT"@,
        }
    }

    /// The value decoded from a protocol field name, if it names one.
    pub open spec fn spec_from_name(name: Seq<char>) -> Option<ImageScaleMode> {
        if name == "IMAGE_SCALE_MODE_UNSPECIFIED"@ {
            Some(ImageScaleMode::Unspecified)
        } else if name == "IMAGE_SCALE_MODE_STRETCH_TO_FILL"@ {
            Some(ImageScaleMode::StretchToFill)
        } else if name == "IMAGE_SCALE_MODE_SCALE_AND_CROP"@ {
            Some(ImageScaleMode::ScaleAndCrop)
        } else if name == "IMAGE_SCALE_MODE_SCALE_TO_FIT"@ {
            Some(ImageScaleMode::ScaleToFit)
        } else {
            None
        }
    }

    /// The number by which this value is encoded on the wire.
    pub open spec fn spec_value(self) -> i32 {
        match self {
            ImageScaleMode::Unspecified => 0,
            ImageScaleMode::StretchToFill => 1,
            ImageScaleMode::ScaleAndCrop => 2,
            ImageScaleMode::ScaleToFit => 3,
        }
    }

    /// The value encoded on the wire by `value`, if any.
    pub open spec fn spec_from_i32(value: i32) -> Option<ImageScaleMode> {
        if value == 0 {
            Some(ImageScaleMode::Unspecified)
        } else if value == 1 {
            Some(ImageScaleMode::StretchToFill)
        } else if value == 2 {
            Some(ImageScaleMode::ScaleAndCrop)
        } else if value == 3 {
            Some(ImageScaleMode::ScaleToFit)
        } else {
            None
        }
    }

    /// String value of the enum field names used in the protocol definition.
    pub fn as_str_name(&self) -> (name: &'static str)
        ensures
            name@ == self.spec_name(),
    {
        match self {
            ImageScaleMode::Unspecified => "IMAGE_SCALE_MODE_UNSPECIFIED",
            ImageScaleMode::StretchToFill => "IMAGE_SCALE_MODE_STRETCH_TO_FILL",
            ImageScaleMode::ScaleAndCrop => "IMAGE_SCALE_MODE_SCALE_AND_CROP",
            ImageScaleMode::ScaleToFit => "IMAGE_SCALE_MODE_SCALE_TO_FIT",
        }
    }

    /// Creates a value from a field name used in the protocol definition.
    pub fn from_str_name(value: &str) -> (res: Option<ImageScaleMode>)
        ensures
            res == ImageScaleMode::spec_from_name(value@),
    {
        if str_eq(value, "IMAGE_SCALE_MODE_UNSPECIFIED") {
            Some(ImageScaleMode::Unspecified)
        } else if str_eq(value, "IMAGE_SCALE_MODE_STRETCH_TO_FILL") {
            Some(ImageScaleMode::StretchToFill)
        } else if str_eq(value, "IMAGE_SCALE_MODE_SCALE_AND_CROP") {
            Some(ImageScaleMode::ScaleAndCrop)
        } else if str_eq(value, "IMAGE_SCALE_MODE_SCALE_TO_FIT") {
            Some(ImageScaleMode::ScaleToFit)
        } else {
            None
        }
    }

    /// Decodes a wire number, returning `None` for numbers that name no value.
    pub fn from_i32(value: i32) -> (res: Option<ImageScaleMode>)
        ensures
            res == ImageScaleMode::spec_from_i32(value),
    {
        match value {
            0 => Some(ImageScaleMode::Unspecified),
            1 => Some(ImageScaleMode::StretchToFill),
            2 => Some(ImageScaleMode::ScaleAndCrop),
            3 => Some(ImageScaleMode::ScaleToFit),
            _ => None,
        }
    }

    /// Whether `value` is the wire number of some value.
    pub fn is_valid(value: i32) -> (res: bool)
        ensures
            res == ImageScaleMode::spec_from_i32(value).is_some(),
    {
        ImageScaleMode::from_i32(value).is_some()
    }

    /// A value's field name and wire number each decode back to that value,
    /// and no other field name or number decodes to it.
    pub proof fn lemma_round_trip(self)
        ensures
            ImageScaleMode::spec_from_name(self.spec_name()) == Some(self),
            ImageScaleMode::spec_from_i32(self.spec_value()) == Some(self),
            forall|name: Seq<char>|
                #[trigger] ImageScaleMode::spec_from_name(name) == Some(self) ==> name == self.spec_name(),
            forall|value: i32|
                #[trigger] ImageScaleMode::spec_from_i32(value) == Some(self) ==> value == self.spec_value(),
    {
        reveal_strlit("IMAGE_SCALE_MODE_UNSPECIFIED");
        reveal_strlit("IMAGE_SCALE_MODE_STRETCH_TO_FILL");
        reveal_strlit("IMAGE_SCALE_MODE_SCALE_AND_CROP");
        reveal_strlit("IMAGE_SCALE_MODE_SCALE_TO_FIT");
        assert("IMAGE_SCALE_MODE_UNSPECIFIED"@.len() == 28);
        assert("IMAGE_SCALE_MODE_STRETCH_TO_FILL"@.len() == 32);
        assert("IMAGE_SCALE_MODE_SCALE_AND_CROP"@.len() == 31);
        assert("IMAGE_SCALE_MODE_SCALE_TO_FIT"@.len() == 29);
        match self {
            ImageScaleMode::Unspecified => {},
            ImageScaleMode::StretchToFill => {},
            ImageScaleMode::ScaleAndCrop => {},
            ImageScaleMode::ScaleToFit => {},
        }
    }
}

impl Default for ImageScaleMode {
    /// The value with wire number zero.
    fn default() -> (res: ImageScaleMode)
        ensures
            res == ImageScaleMode::Unspecified,
    {
        ImageScaleMode::Unspecified
    }
}

impl From<ImageScaleMode> for i32 {
    fn from(value: ImageScaleMode) -> (res: i32) {
        match value {
            ImageScaleMode::Unspecified => 0,
            ImageScaleMode::StretchToFill => 1,
            ImageScaleMode::ScaleAndCrop => 2,
            ImageScaleMode::ScaleToFit => 3,
        }
    }
}

impl FromSpecImpl<ImageScaleMode> for i32 {
    open spec fn obeys_from_spec() -> bool {
        true
    }

    open spec fn from_spec(value: ImageScaleMode) -> i32 {
        value.spec_value()
    }
}

/// Wire enumeration `FontStyle` of the client protocol.
#[derive(Clone, Copy, Debug, PartialEq, Eq, Structural, Hash, PartialOrd, Ord)]
pub enum FontStyle {
    Unspecified,
    Normal,
    Bold,
    Italic,
    BoldAndItalic,
}

impl FontStyle {
    /// The field name of this value in the protocol definition.
    pub open spec fn spec_name(self) -> Seq<char> {
        match self {
            FontStyle::Unspecified => "FONT_STYLE_UNSPECIFIED"@,
            FontStyle::Normal => "FONT_STYLE_NORMAL"@,
            FontStyle::Bold => "FONT_STYLE_BOLD"@,
            FontStyle::Italic => "FONT_STYLE_ITALIC"@,
            FontStyle::BoldAndItalic => "FONT_STYLE_BOLD_AND_ITALIC"@,
        }
    }

    /// The value decoded from a protocol field name, if it names one.
    pub open spec fn spec_from_name(name: Seq<char>) -> Option<FontStyle> {
        if name == "FONT_STYLE_UNSPECIFIED"@ {
            Some(FontStyle::Unspecified)
        } else if name == "FONT_STYLE_NORMAL"@ {
            Some(FontStyle::Normal)
        } else if name == "FONT_STYLE_BOLD"@ {
            Some(FontStyle::Bold)
        } else if name == "FONT_STYLE_ITALIC"@ {
            Some(FontStyle::Italic)
        } else if name == "FONT_STYLE_BOLD_AND_ITALIC"@ {
            Some(FontStyle::BoldAndItalic)
        } else {
            None
        }
    }

    /// The number by which this value is encoded on the wire.
    pub open spec fn spec_value(self) -> i32 {
        match self {
            FontStyle::Unspecified => 0,
            FontStyle::Normal => 1,
            FontStyle::Bold => 2,
            FontStyle::Italic => 3,
            FontStyle::BoldAndItalic => 4,
        }
    }

    /// The value encoded on the wire by `value`, if any.
    pub open spec fn spec_from_i32(value: i32) -> Option<FontStyle> {
        if value == 0 {
            Some(FontStyle::Unspecified)
        } else if value == 1 {
            Some(FontStyle::Normal)
        } else if value == 2 {
            Some(FontStyle::Bold)
        } else if value == 3 {
            Some(FontStyle::Italic)
        } else if value == 4 {
            Some(FontStyle::BoldAndItalic)
        } else {
            None
        }
    }

    /// String value of the enum field names used in the protocol definition.
    pub fn as_str_name(&self) -> (name: &'static str)
        ensures
            name@ == self.spec_name(),
    {
        match self {
            FontStyle::Unspecified => "FONT_STYLE_UNSPECIFIED",
            FontStyle::Normal => "FONT_STYLE_NORMAL",
            FontStyle::Bold => "FONT_STYLE_BOLD",
            FontStyle::Italic => "FONT_STYLE_ITALIC",
            FontStyle::BoldAndItalic => "FONT_STYLE_BOLD_AND_ITALIC",
        }
    }

    /// Creates a value from a field name used in the protocol definition.
    pub fn from_str_name(value: &str) -> (res: Option<FontStyle>)
        ensures
            res == FontStyle::spec_from_name(value@),
    {
        if str_eq(value, "FONT_STYLE_UNSPECIFIED") {
            Some(FontStyle::Unspecified)
        } else if str_eq(value, "FONT_STYLE_NORMAL") {
            Some(FontStyle::Normal)
        } else if str_eq(value, "FONT_STYLE_BOLD") {
            Some(FontStyle::Bold)
        } else if str_eq(value, "FONT_STYLE_ITALIC") {
            Some(FontStyle::Italic)
        } else if str_eq(value, "FONT_STYLE_BOLD_AND_ITALIC") {
            Some(FontStyle::BoldAndItalic)
        } else {
            None
        }
    }

    /// Decodes a wire number, returning `None` for numbers that name no value.
    pub fn from_i32(value: i32) -> (res: Option<FontStyle>)
        ensures
            res == FontStyle::spec_from_i32(value),
    {
        match value {
            0 => Some(FontStyle::Unspecified),
            1 => Some(FontStyle::Normal),
            2 => Some(FontStyle::Bold),
            3 => Some(FontStyle::Italic),
            4 => Some(FontStyle::BoldAndItalic),
            _ => None,
        }
    }

    /// Whether `value` is the wire number of some value.
    pub fn is_valid(value: i32) -> (res: bool)
        ensures
            res == FontStyle::spec_from_i32(value).is_some(),
    {
        FontStyle::from_i32(value).is_some()
    }

    /// A value's field name and wire number each decode back to that value,
    /// and no other field name or number decodes to it.
    pub proof fn lemma_round_trip(self)
        ensures
            FontStyle::spec_from_name(self.spec_name()) == Some(self),
            FontStyle::spec_from_i32(self.spec_value()) == Some(self),
            forall|name: Seq<char>|
                #[trigger] FontStyle::spec_from_name(name) == Some(self) ==> name == self.spec_name(),
            forall|value: i32|
                #[trigger] FontStyle::spec_from_i32(value) == Some(self) ==> value == self.spec_value(),
    {
        reveal_strlit("FONT_STYLE_UNSPECIFIED");
        reveal_strlit("FONT_STYLE_NORMAL");
        reveal_strlit("FONT_STYLE_BOLD");
        reveal_strlit("FONT_STYLE_ITALIC");
        reveal_strlit("FONT_STYLE_BOLD_AND_ITALIC");
        assert("FONT_STYLE_UNSPECIFIED"@.len() == 22);
        assert("FONT_STYLE_NORMAL"@.len() == 17);
        assert("FONT_STYLE_BOLD"@.len() == 15);
        assert("FONT_STYLE_ITALIC"@.len() == 17);
        assert("FONT_STYLE_BOLD_AND_ITALIC"@.len() == 26);
        assert("FONT_STYLE_NORMAL"@[11] != "FONT_STYLE_ITALIC"@[11]);
        match self {
            FontStyle::Unspecified => {},
            FontStyle::Normal => {},
            FontStyle::Bold => {},
            FontStyle::Italic => {},
            FontStyle::BoldAndItalic => {},
        }
    }
}

impl Default for FontStyle {
    /// The value with wire number zero.
    fn default() -> (res: FontStyle)
        ensures
            res == FontStyle::Unspecified,
    {
        FontStyle::Unspecified
    }
}

impl From<FontStyle> for i32 {
    fn from(value: FontStyle) -> (res: i32) {
        match value {
            FontStyle::Unspecified => 0,
            FontStyle::Normal => 1,
            FontStyle::Bold => 2,
            FontStyle::Italic => 3,
            FontStyle::BoldAndItalic => 4,
        }
    }
}

impl FromSpecImpl<FontStyle> for i32 {
    open spec fn obeys_from_spec() -> bool {
        true
    }

    open spec fn from_spec(value: FontStyle) -> i32 {
        value.spec_value()
    }
}

/// Wire enumeration `OverflowClipBox` of the client protocol.
#[derive(Clone, Copy, Debug, PartialEq, Eq, Structural, Hash, PartialOrd, Ord)]
pub enum OverflowClipBox {
    Unspecified,
    PaddingBox,
    ContentBox,
}

impl OverflowClipBox {
    /// The field name of this value in the protocol definition.
    pub open spec fn spec_name(self) -> Seq<char> {
        match self {
            OverflowClipBox::Unspecified => "OVERFLOW_CLIP_BOX_UNSPECIFIED"@,
            OverflowClipBox::PaddingBox => "OVERFLOW_CLIP_BOX_PADDING_BOX"@,
            OverflowClipBox::ContentBox => "OVERFLOW_CLIP_BOX_CONTENT_BOX"@,
        }
    }

    /// The value decoded from a protocol field name, if it names one.
    pub open spec fn spec_from_name(name: Seq<char>) -> Option<OverflowClipBox> {
        if name == "OVERFLOW_CLIP_BOX_UNSPECIFIED"@ {
            Some(OverflowClipBox::Unspecified)
        } else if name == "OVERFLOW_CLIP_BOX_PADDING_BOX"@ {
            Some(OverflowClipBox::PaddingBox)
        } else if name == "OVERFLOW_CLIP_BOX_CONTENT_BOX"@ {
            Some(OverflowClipBox::ContentBox)
        } else {
            None
        }
    }

    /// The number by which this value is encoded on the wire.
    pub open spec fn spec_value(self) -> i32 {
        match self {
            OverflowClipBox::Unspecified => 0,
            OverflowClipBox::PaddingBox => 1,
            OverflowClipBox::ContentBox => 2,
        }
    }

    /// The value encoded on the wire by `value`, if any.
    pub open spec fn spec_from_i32(value: i32) -> Option<OverflowClipBox> {
        if value == 0 {
            Some(OverflowClipBox::Unspecified)
        } else if value == 1 {
            Some(OverflowClipBox::PaddingBox)
        } else if value == 2 {
            Some(OverflowClipBox::ContentBox)
        } else {
            None
        }
    }

    /// String value of the enum field names used in the protocol definition.
    pub fn as_str_name(&self) -> (name: &'static str)
        ensures
            name@ == self.spec_name(),
    {
        match self {
            OverflowClipBox::Unspecified => "OVERFLOW_CLIP_BOX_UNSPECIFIED",
            OverflowClipBox::PaddingBox => "OVERFLOW_CLIP_BOX_PADDING_BOX",
            OverflowClipBox::ContentBox => "OVERFLOW_CLIP_BOX_CONTENT_BOX",
        }
    }

    /// Creates a value from a field name used in the protocol definition.
    pub fn from_str_name(value: &str) -> (res: Option<OverflowClipBox>)
        ensures
            res == OverflowClipBox::spec_from_name(value@),
    {
        if str_eq(value, "OVERFLOW_CLIP_BOX_UNSPECIFIED") {
            Some(OverflowClipBox::Unspecified)
        } else if str_eq(value, "OVERFLOW_CLIP_BOX_PADDING_BOX") {
            Some(OverflowClipBox::PaddingBox)
        } else if str_eq(value, "OVERFLOW_CLIP_BOX_CONTENT_BOX") {
            Some(OverflowClipBox::ContentBox)
        } else {
            None
        }
    }

    /// Decodes a wire number, returning `None` for numbers that name no value.
    pub fn from_i32(value: i32) -> (res: Option<OverflowClipBox>)
        ensures
            res == OverflowClipBox::spec_from_i32(value),
    {
        match value {
            0 => Some(OverflowClipBox::Unspecified),
            1 => Some(OverflowClipBox::PaddingBox),
            2 => Some(OverflowClipBox::ContentBox),
            _ => None,
        }
    }

    /// Whether `value` is the wire number of some value.
    pub fn is_valid(value: i32) -> (res: bool)
        ensures
            res == OverflowClipBox::spec_from_i32(value).is_some(),
    {
        OverflowClipBox::from_i32(value).is_some()
    }

    /// A value's field name and wire number each decode back to that value,
    /// and no other field name or number decodes to it.
    pub proof fn lemma_round_trip(self)
        ensures
            OverflowClipBox::spec_from_name(self.spec_name()) == Some(self),
            OverflowClipBox::spec_from_i32(self.spec_value()) == Some(self),
            forall|name: Seq<char>|
                #[trigger] OverflowClipBox::spec_from_name(name) == Some(self) ==> name == self.spec_name(),
            forall|value: i32|
                #[trigger] OverflowClipBox::spec_from_i32(value) == Some(self) ==> value == self.spec_value(),
    {
        reveal_strlit("OVERFLOW_CLIP_BOX_UNSPECIFIED");
        reveal_strlit("OVERFLOW_CLIP_BOX_PADDING_BOX");
        reveal_strlit("OVERFLOW_CLIP_BOX_CONTENT_BOX");
        assert("OVERFLOW_CLIP_BOX_UNSPECIFIED"@.len() == 29);
        assert("OVERFLOW_CLIP_BOX_PADDING_BOX"@.len() == 29);
        assert("OVERFLOW_CLIP_BOX_CONTENT_BOX"@.len() == 29);
        assert("OVERFLOW_CLIP_BOX_UNSPECIFIED"@[18] != "OVERFLOW_CLIP_BOX_PADDING_BOX"@[18]);
        assert("OVERFLOW_CLIP_BOX_UNSPECIFIED"@[18] != "OVERFLOW_CLIP_BOX_CONTENT_BOX"@[18]);
        assert("OVERFLOW_CLIP_BOX_PADDING_BOX"@[18] != "OVERFLOW_CLIP_BOX_CONTENT_BOX"@[18]);
        match self {
            OverflowClipBox::Unspecified => {},
            OverflowClipBox::PaddingBox => {},
            OverflowClipBox::ContentBox => {},
        }
    }
}

impl Default for OverflowClipBox {
    /// The value with wire number zero.
    fn default() -> (res: OverflowClipBox)
        ensures
            res == OverflowClipBox::Unspecified,
    {
        OverflowClipBox::Unspecified
    }
}

impl From<OverflowClipBox> for i32 {
    fn from(value: OverflowClipBox) -> (res: i32) {
        match value {
            OverflowClipBox::Unspecified => 0,
            OverflowClipBox::PaddingBox => 1,
            OverflowClipBox::ContentBox => 2,
        }
    }
}

impl FromSpecImpl<OverflowClipBox> for i32 {
    open spec fn obeys_from_spec() -> bool {
        true
    }

    open spec fn from_spec(value: OverflowClipBox) -> i32 {
        value.spec_value()
    }
}

/// Wire enumeration `TextAlign` of the client protocol.
#[derive(Clone, Copy, Debug, PartialEq, Eq, Structural, Hash, PartialOrd, Ord)]
pub enum TextAlign {
    Unspecified,
    UpperLeft,
    UpperCenter,
    UpperRight,
    MiddleLeft,
    MiddleCenter,
    MiddleRight,
    LowerLeft,
    LowerCenter,
    LowerRight,
}

impl TextAlign {
    /// The field name of this value in the protocol definition.
    pub open spec fn spec_name(self) -> Seq<char> {
        match self {
            TextAlign::Unspecified => "TEXT_ALIGN_UNSPECIFIED"@,
            TextAlign::UpperLeft => "TEXT_ALIGN_UPPER_LEFT"@,
            TextAlign::UpperCenter => "TEXT_ALIGN_UPPER_CENTER"@,
            TextAlign::UpperRight => "TEXT_ALIGN_UPPER_RIGHT"@,
            TextAlign::MiddleLeft => "TEXT_ALIGN_MIDDLE_LEFT"@,
            TextAlign::MiddleCenter => "TEXT_ALIGN_MIDDLE_CENTER"@,
            TextAlign::MiddleRight => "TEXT_ALIGN_MIDDLE_RIGHT"@,
            TextAlign::LowerLeft => "TEXT_ALIGN_LOWER_LEFT"@,
            TextAlign::LowerCenter => "TEXT_ALIGN_LOWER_CENTER"@,
            TextAlign::LowerRight => "TEXT_ALIGN_LOWER_RIGHT"@,
        }
    }

    /// The value decoded from a protocol field name, if it names one.
    pub open spec fn spec_from_name(name: Seq<char>) -> Option<TextAlign> {
        if name == "TEXT_ALIGN_UNSPECIFIED"@ {
            Some(TextAlign::Unspecified)
        } else if name == "TEXT_ALIGN_UPPER_LEFT"@ {
            Some(TextAlign::UpperLeft)
        } else if name == "TEXT_ALIGN_UPPER_CENTER"@ {
            Some(TextAlign::UpperCenter)
        } else if name == "TEXT_ALIGN_UPPER_RIGHT"@ {
            Some(TextAlign::UpperRight)
        } else if name == "TEXT_ALIGN_MIDDLE_LEFT"@ {
            Some(TextAlign::MiddleLeft)
        } else if name == "TEXT_ALIGN_MIDDLE_CENTER"@ {
            Some(TextAlign::MiddleCenter)
        } else if name == "TEXT_ALIGN_MIDDLE_RIGHT"@ {
            Some(TextAlign::MiddleRight)
        } else if name == "TEXT_ALIGN_LOWER_LEFT"@ {
            Some(TextAlign::LowerLeft)
        } else if name == "TEXT_ALIGN_LOWER_CENTER"@ {
            Some(TextAlign::LowerCenter)
        } else if name == "TEXT_ALIGN_LOWER_RIGHT"@ {
            Some(TextAlign::LowerRight)
        } else {
            None
        }
    }

    /// The number by which this value is encoded on the wire.
    pub open spec fn spec_value(self) -> i32 {
        match self {
            TextAlign::Unspecified => 0,
            TextAlign::UpperLeft => 1,
            TextAlign::UpperCenter => 2,
            TextAlign::UpperRight => 3,
            TextAlign::MiddleLeft => 4,
            TextAlign::MiddleCenter => 5,
            TextAlign::MiddleRight => 6,
            TextAlign::LowerLeft => 7,
            TextAlign::LowerCenter => 8,
            TextAlign::LowerRight => 9,
        }
    }

    /// The value encoded on the wire by `value`, if any.
    pub open spec fn spec_from_i32(value: i32) -> Option<TextAlign> {
        if value == 0 {
            Some(TextAlign::Unspecified)
        } else if value == 1 {
            Some(TextAlign::UpperLeft)
        } else if value == 2 {
            Some(TextAlign::UpperCenter)
        } else if value == 3 {
            Some(TextAlign::UpperRight)
        } else if value == 4 {
            Some(TextAlign::MiddleLeft)
        } else if value == 5 {
            Some(TextAlign::MiddleCenter)
        } else if value == 6 {
            Some(TextAlign::MiddleRight)
        } else if value == 7 {
            Some(TextAlign::LowerLeft)
        } else if value == 8 {
            Some(TextAlign::LowerCenter)
        } else if value == 9 {
            Some(TextAlign::LowerRight)
        } else {
            None
        }
    }

    /// String value of the enum field names used in the protocol definition.
    pub fn as_str_name(&self) -> (name: &'static str)
        ensures
            name@ == self.spec_name(),
    {
        match self {
            TextAlign::Unspecified => "TEXT_ALIGN_UNSPECIFIED",
            TextAlign::UpperLeft => "TEXT_ALIGN_UPPER_LEFT",
            TextAlign::UpperCenter => "TEXT_ALIGN_UPPER_CENTER",
            TextAlign::UpperRight => "TEXT_ALIGN_UPPER_RIGHT",
            TextAlign::MiddleLeft => "TEXT_ALIGN_MIDDLE_LEFT",
            TextAlign::MiddleCenter => "TEXT_ALIGN_MIDDLE_CENTER",
            TextAlign::MiddleRight => "TEXT_ALIGN_MIDDLE_RIGHT",
            TextAlign::LowerLeft => "TEXT_ALIGN_LOWER_LEFT",
            TextAlign::LowerCenter => "TEXT_ALIGN_LOWER_CENTER",
            TextAlign::LowerRight => "TEXT_ALIGN_LOWER_RIGHT",
        }
    }

    /// Creates a value from a field name used in the protocol definition.
    pub fn from_str_name(value: &str) -> (res: Option<TextAlign>)
        ensures
            res == TextAlign::spec_from_name(value@),
    {
        if str_eq(value, "TEXT_ALIGN_UNSPECIFIED") {
            Some(TextAlign::Unspecified)
        } else if str_eq(value, "TEXT_ALIGN_UPPER_LEFT") {
            Some(TextAlign::UpperLeft)
        } else if str_eq(value, "TEXT_ALIGN_UPPER_CENTER") {
            Some(TextAlign::UpperCenter)
        } else if str_eq(value, "TEXT_ALIGN_UPPER_RIGHT") {
            Some(TextAlign::UpperRight)
        } else if str_eq(value, "TEXT_ALIGN_MIDDLE_LEFT") {
            Some(TextAlign::MiddleLeft)
        } else if str_eq(value, "TEXT_ALIGN_MIDDLE_CENTER") {
            Some(TextAlign::MiddleCenter)
        } else if str_eq(value, "TEXT_ALIGN_MIDDLE_RIGHT") {
            Some(TextAlign::MiddleRight)
        } else if str_eq(value, "TEXT_ALIGN_LOWER_LEFT") {
            Some(TextAlign::LowerLeft)
        } else if str_eq(value, "TEXT_ALIGN_LOWER_CENTER") {
            Some(TextAlign::LowerCenter)
        } else if str_eq(value, "TEXT_ALIGN_LOWER_RIGHT") {
            Some(TextAlign::LowerRight)
        } else {
            None
        }
    }

    /// Decodes a wire number, returning `None` for numbers that name no value.
    pub fn from_i32(value: i32) -> (res: Option<TextAlign>)
        ensures
            res == TextAlign::spec_from_i32(value),
    {
        match value {
            0 => Some(TextAlign::Unspecified),
            1 => Some(TextAlign::UpperLeft),
            2 => Some(TextAlign::UpperCenter),
            3 => Some(TextAlign::UpperRight),
            4 => Some(TextAlign::MiddleLeft),
            5 => Some(TextAlign::MiddleCenter),
            6 => Some(TextAlign::MiddleRight),
            7 => Some(TextAlign::LowerLeft),
            8 => Some(TextAlign::LowerCenter),
            9 => Some(TextAlign::LowerRight),
            _ => None,
        }
    }

    /// Whether `value` is the wire number of some value.
    pub fn is_valid(value: i32) -> (res: bool)
        ensures
            res == TextAlign::spec_from_i32(value).is_some(),
    {
        TextAlign::from_i32(value).is_some()
    }

    /// A value's field name and wire number each decode back to that value,
    /// and no other field name or number decodes to it.
    pub proof fn lemma_round_trip(self)
        ensures
            TextAlign::spec_from_name(self.spec_name()) == Some(self),
            TextAlign::spec_from_i32(self.spec_value()) == Some(self),
            forall|name: Seq<char>|
                #[trigger] TextAlign::spec_from_name(name) == Some(self) ==> name == self.spec_name(),
            forall|value: i32|
                #[trigger] TextAlign::spec_from_i32(value) == Some(self) ==> value == self.spec_value(),
    {
        reveal_strlit("TEXT_ALIGN_UNSPECIFIED");
        reveal_strlit("TEXT_ALIGN_UPPER_LEFT");
        reveal_strlit("TEXT_ALIGN_UPPER_CENTER");
        reveal_strlit("TEXT_ALIGN_UPPER_RIGHT");
        reveal_strlit("TEXT_ALIGN_MIDDLE_LEFT");
        reveal_strlit("TEXT_ALIGN_MIDDLE_CENTER");
        reveal_strlit("TEXT_ALIGN_MIDDLE_RIGHT");
        reveal_strlit("TEXT_ALIGN_LOWER_LEFT");
        reveal_strlit("TEXT_ALIGN_LOWER_CENTER");
        reveal_strlit("TEXT_ALIGN_LOWER_RIGHT");
        assert("TEXT_ALIGN_UNSPECIFIED"@.len() == 22);
        assert("TEXT_ALIGN_UPPER_LEFT"@.len() == 21);
        assert("TEXT_ALIGN_UPPER_CENTER"@.len() == 23);
        assert("TEXT_ALIGN_UPPER_RIGHT"@.len() == 22);
        assert("TEXT_ALIGN_MIDDLE_LEFT"@.len() == 22);
        assert("TEXT_ALIGN_MIDDLE_CENTER"@.len() == 24);
        assert("TEXT_ALIGN_MIDDLE_RIGHT"@.len() == 23);
        assert("TEXT_ALIGN_LOWER_LEFT"@.len() == 21);
        assert("TEXT_ALIGN_LOWER_CENTER"@.len() == 23);
        assert("TEXT_ALIGN_LOWER_RIGHT"@.len() == 22);
        assert("TEXT_ALIGN_UNSPECIFIED"@[12] != "TEXT_ALIGN_UPPER_RIGHT"@[12]);
        assert("TEXT_ALIGN_UNSPECIFIED"@[11] != "TEXT_ALIGN_MIDDLE_LEFT"@[11]);
        assert("TEXT_ALIGN_UNSPECIFIED"@[11] != "TEXT_ALIGN_LOWER_RIGHT"@[11]);
        assert("TEXT_ALIGN_UPPER_LEFT"@[11] != "TEXT_ALIGN_LOWER_LEFT"@[11]);
        assert("TEXT_ALIGN_UPPER_CENTER"@[11] != "TEXT_ALIGN_MIDDLE_RIGHT"@[11]);
        assert("TEXT_ALIGN_UPPER_CENTER"@[11] != "TEXT_ALIGN_LOWER_CENTER"@[11]);
        assert("TEXT_ALIGN_UPPER_RIGHT"@[11] != "TEXT_ALIGN_MIDDLE_LEFT"@[11]);
        assert("TEXT_ALIGN_UPPER_RIGHT"@[11] != "TEXT_ALIGN_LOWER_RIGHT"@[11]);
        assert("TEXT_ALIGN_MIDDLE_LEFT"@[11] != "TEXT_ALIGN_LOWER_RIGHT"@[11]);
        assert("TEXT_ALIGN_MIDDLE_RIGHT"@[11] != "TEXT_ALIGN_LOWER_CENTER"@[11]);
        match self {
            TextAlign::Unspecified => {},
            TextAlign::UpperLeft => {},
            TextAlign::UpperCenter => {},
            TextAlign::UpperRight => {},
            TextAlign::MiddleLeft => {},
            TextAlign::MiddleCenter => {},
            TextAlign::MiddleRight => {},
            TextAlign::LowerLeft => {},
            TextAlign::LowerCenter => {},
            TextAlign::LowerRight => {},
        }
    }
}

impl Default for TextAlign {
    /// The value with wire number zero.
    fn default() -> (res: TextAlign)
        ensures
            res == TextAlign::Unspecified,
    {
        TextAlign::Unspecified
    }
}

impl From<TextAlign> for i32 {
    fn from(value: TextAlign) -> (res: i32) {
        match value {
            TextAlign::Unspecified => 0,
            TextAlign::UpperLeft => 1,
            TextAlign::UpperCenter => 2,
            TextAlign::UpperRight => 3,
            TextAlign::MiddleLeft => 4,
            TextAlign::MiddleCenter => 5,
            TextAlign::MiddleRight => 6,
            TextAlign::LowerLeft => 7,
            TextAlign::LowerCenter => 8,
            TextAlign::LowerRight => 9,
        }
    }
}

impl FromSpecImpl<TextAlign> for i32 {
    open spec fn obeys_from_spec() -> bool {
        true
    }

    open spec fn from_spec(value: TextAlign) -> i32 {
        value.spec_value()
    }
}

/// Wire enumeration `TextOverflowPosition` of the client protocol.
#[derive(Clone, Copy, Debug, PartialEq, Eq, Structural, Hash, PartialOrd, Ord)]
pub enum TextOverflowPosition {
    Unspecified,
    End,
    Start,
    Middle,
}

impl TextOverflowPosition {
    /// The field name of this value in the protocol definition.
    pub open spec fn spec_name(self) -> Seq<char> {
        match self {
            TextOverflowPosition::Unspecified => "TEXT_OVERFLOW_POSITION_UNSPECIFIED"@,
            TextOverflowPosition::End => "TEXT_OVERFLOW_POSITION_END"@,
            TextOverflowPosition::Start => "TEXT_OVERFLOW_POSITION_START"@,
            TextOverflowPosition::Middle => "TEXT_OVERFLOW_POSITION_MIDDLE"@,
        }
    }

    /// The value decoded from a protocol field name, if it names one.
    pub open spec fn spec_from_name(name: Seq<char>) -> Option<TextOverflowPosition> {
        if name == "TEXT_OVERFLOW_POSITION_UNSPECIFIED"@ {
            Some(TextOverflowPosition::Unspecified)
        } else if name == "TEXT_OVERFLOW_POSITION_END"@ {
            Some(TextOverflowPosition::End)
        } else if name == "TEXT_OVERFLOW_POSITION_START"@ {
            Some(TextOverflowPosition::Start)
        } else if name == "TEXT_OVERFLOW_POSITION_MIDDLE"@ {
            Some(TextOverflowPosition::Middle)
        } else {
            None
        }
    }

    /// The number by which this value is encoded on the wire.
    pub open spec fn spec_value(self) -> i32 {
        match self {
            TextOverflowPosition::Unspecified => 0,
            TextOverflowPosition::End => 1,
            TextOverflowPosition::Start => 2,
            TextOverflowPosition::Middle => 3,
        }
    }

    /// The value encoded on the wire by `value`, if any.
    pub open spec fn spec_from_i32(value: i32) -> Option<TextOverflowPosition> {
        if value == 0 {
            Some(TextOverflowPosition::Unspecified)
        } else if value == 1 {
            Some(TextOverflowPosition::End)
        } else if value == 2 {
            Some(TextOverflowPosition::Start)
        } else if value == 3 {
            Some(TextOverflowPosition::Middle)
        } else {
            None
        }
    }

    /// String value of the enum field names used in the protocol definition.
    pub fn as_str_name(&self) -> (name: &'static str)
        ensures
            name@ == self.spec_name(),
    {
        match self {
            TextOverflowPosition::Unspecified => "TEXT_OVERFLOW_POSITION_UNSPECIFIED",
            TextOverflowPosition::End => "TEXT_OVERFLOW_POSITION_END",
            TextOverflowPosition::Start => "TEXT_OVERFLOW_POSITION_START",
            TextOverflowPosition::Middle => "TEXT_OVERFLOW_POSITION_MIDDLE",
        }
    }

    /// Creates a value from a field name used in the protocol definition.
    pub fn from_str_name(value: &str) -> (res: Option<TextOverflowPosition>)
        ensures
            res == TextOverflowPosition::spec_from_name(value@),
    {
        if str_eq(value, "TEXT_OVERFLOW_POSITION_UNSPECIFIED") {
            Some(TextOverflowPosition::Unspecified)
        } else if str_eq(value, "TEXT_OVERFLOW_POSITION_END") {
            Some(TextOverflowPosition::End)
        } else if str_eq(value, "TEXT_OVERFLOW_POSITION_START") {
            Some(TextOverflowPosition::Start)
        } else if str_eq(value, "TEXT_OVERFLOW_POSITION_MIDDLE") {
            Some(TextOverflowPosition::Middle)
        } else {
            None
        }
    }

    /// Decodes a wire number, returning `None` for numbers that name no value.
    pub fn from_i32(value: i32) -> (res: Option<TextOverflowPosition>)
        ensures
            res == TextOverflowPosition::spec_from_i32(value),
    {
        match value {
            0 => Some(TextOverflowPosition::Unspecified),
            1 => Some(TextOverflowPosition::End),
            2 => Some(TextOverflowPosition::Start),
            3 => Some(TextOverflowPosition::Middle),
            _ => None,
        }
    }

    /// Whether `value` is the wire number of some value.
    pub fn is_valid(value: i32) -> (res: bool)
        ensures
            res == TextOverflowPosition::spec_from_i32(value).is_some(),
    {
        TextOverflowPosition::from_i32(value).is_some()
    }

    /// A value's field name and wire number each decode back to that value,
    /// and no other field name or number decodes to it.
    pub proof fn lemma_round_trip(self)
        ensures
            TextOverflowPosition::spec_from_name(self.spec_name()) == Some(self),
            TextOverflowPosition::spec_from_i32(self.spec_value()) == Some(self),
            forall|name: Seq<char>|
                #[trigger] TextOverflowPosition::spec_from_name(name) == Some(self) ==> name == self.spec_name(),
            forall|value: i32|
                #[trigger] TextOverflowPosition::spec_from_i32(value) == Some(self) ==> value == self.spec_value(),
    {
        reveal_strlit("TEXT_OVERFLOW_POSITION_UNSPECIFIED");
        reveal_strlit("TEXT_OVERFLOW_POSITION_END");
        reveal_strlit("TEXT_OVERFLOW_POSITION_START");
        reveal_strlit("TEXT_OVERFLOW_POSITION_MIDDLE");
        assert("TEXT_OVERFLOW_POSITION_UNSPECIFIED"@.len() == 34);
        assert("TEXT_OVERFLOW_POSITION_END"@.len() == 26);
        assert("TEXT_OVERFLOW_POSITION_START"@.len() == 28);
        assert("TEXT_OVERFLOW_POSITION_MIDDLE"@.len() == 29);
        match self {
            TextOverflowPosition::Unspecified => {},
            TextOverflowPosition::End => {},
            TextOverflowPosition::Start => {},
            TextOverflowPosition::Middle => {},
        }
    }
}

impl Default for TextOverflowPosition {
    /// The value with wire number zero.
    fn default() -> (res: TextOverflowPosition)
        ensures
            res == TextOverflowPosition::Unspecified,
    {
        TextOverflowPosition::Unspecified
    }
}

impl From<TextOverflowPosition> for i32 {
    fn from(value: TextOverflowPosition) -> (res: i32) {
        match value {
            TextOverflowPosition::Unspecified => 0,
            TextOverflowPosition::End => 1,
            TextOverflowPosition::Start => 2,
            TextOverflowPosition::Middle => 3,
        }
    }
}

impl FromSpecImpl<TextOverflowPosition> for i32 {
    open spec fn obeys_from_spec() -> bool {
        true
    }

    open spec fn from_spec(value: TextOverflowPosition) -> i32 {
        value.spec_value()
    }
}

/// Wire enumeration `WhiteSpace` of the client protocol.
#[derive(Clone, Copy, Debug, PartialEq, Eq, Structural, Hash, PartialOrd, Ord)]
pub enum WhiteSpace {
    Unspecified,
    Normal,
    NoWrap,
}

impl WhiteSpace {
    /// The field name of this value in the protocol definition.
    pub open spec fn spec_name(self) -> Seq<char> {
        match self {
            WhiteSpace::Unspecified => "WHITE_SPACE_UNSPECIFIED"@,
            WhiteSpace::Normal => "WHITE_SPACE_NORMAL"@,
            WhiteSpace::NoWrap => "WHITE_SPACE_NO_WRAP"@,
        }
    }

    /// The value decoded from a protocol field name, if it names one.
    pub open spec fn spec_from_name(name: Seq<char>) -> Option<WhiteSpace> {
        if name == "WHITE_SPACE_UNSPECIFIED"@ {
            Some(WhiteSpace::Unspecified)
        } else if name == "WHITE_SPACE_NORMAL"@ {
            Some(WhiteSpace::Normal)
        } else if name == "WHITE_SPACE_NO_WRAP"@ {
            Some(WhiteSpace::NoWrap)
        } else {
            None
        }
    }

    /// The number by which this value is encoded on the wire.
    pub open spec fn spec_value(self) -> i32 {
        match self {
            WhiteSpace::Unspecified => 0,
            WhiteSpace::Normal => 1,
            WhiteSpace::NoWrap => 2,
        }
    }

    /// The value encoded on the wire by `value`, if any.
    pub open spec fn spec_from_i32(value: i32) -> Option<WhiteSpace> {
        if value == 0 {
            Some(WhiteSpace::Unspecified)
        } else if value == 1 {
            Some(WhiteSpace::Normal)
        } else if value == 2 {
            Some(WhiteSpace::NoWrap)
        } else {
            None
        }
    }

    /// String value of the enum field names used in the protocol definition.
    pub fn as_str_name(&self) -> (name: &'static str)
        ensures
            name@ == self.spec_name(),
    {
        match self {
            WhiteSpace::Unspecified => "WHITE_SPACE_UNSPECIFIED",
            WhiteSpace::Normal => "WHITE_SPACE_NORMAL",
            WhiteSpace::NoWrap => "WHITE_SPACE_NO_WRAP",
        }
    }

    /// Creates a value from a field name used in the protocol definition.
    pub fn from_str_name(value: &str) -> (res: Option<WhiteSpace>)
        ensures
            res == WhiteSpace::spec_from_name(value@),
    {
        if str_eq(value, "WHITE_SPACE_UNSPECIFIED") {
            Some(WhiteSpace::Unspecified)
        } else if str_eq(value, "WHITE_SPACE_NORMAL") {
            Some(WhiteSpace::Normal)
        } else if str_eq(value, "WHITE_SPACE_NO_WRAP") {
            Some(WhiteSpace::NoWrap)
        } else {
            None
        }
    }

    /// Decodes a wire number, returning `None` for numbers that name no value.
    pub fn from_i32(value: i32) -> (res: Option<WhiteSpace>)
        ensures
            res == WhiteSpace::spec_from_i32(value),
    {
        match value {
            0 => Some(WhiteSpace::Unspecified),
            1 => Some(WhiteSpace::Normal),
            2 => Some(WhiteSpace::NoWrap),
            _ => None,
        }
    }

    /// Whether `value` is the wire number of some value.
    pub fn is_valid(value: i32) -> (res: bool)
        ensures
            res == WhiteSpace::spec_from_i32(value).is_some(),
    {
        WhiteSpace::from_i32(value).is_some()
    }

    /// A value's field name and wire number each decode back to that value,
    /// and no other field name or number decodes to it.
    pub proof fn lemma_round_trip(self)
        ensures
            WhiteSpace::spec_from_name(self.spec_name()) == Some(self),
            WhiteSpace::spec_from_i32(self.spec_value()) == Some(self),
            forall|name: Seq<char>|
                #[trigger] WhiteSpace::spec_from_name(name) == Some(self) ==> name == self.spec_name(),
            forall|value: i32|
                #[trigger] WhiteSpace::spec_from_i32(value) == Some(self) ==> value == self.spec_value(),
    {
        reveal_strlit("WHITE_SPACE_UNSPECIFIED");
        reveal_strlit("WHITE_SPACE_NORMAL");
        reveal_strlit("WHITE_SPACE_NO_WRAP");
        assert("WHITE_SPACE_UNSPECIFIED"@.len() == 23);
        assert("WHITE_SPACE_NORMAL"@.len() == 18);
        assert("WHITE_SPACE_NO_WRAP"@.len() == 19);
        match self {
            WhiteSpace::Unspecified => {},
            WhiteSpace::Normal => {},
            WhiteSpace::NoWrap => {},
        }
    }
}

impl Default for WhiteSpace {
    /// The value with wire number zero.
    fn default() -> (res: WhiteSpace)
        ensures
            res == WhiteSpace::Unspecified,
    {
        WhiteSpace::Unspecified
    }
}

impl From<WhiteSpace> for i32 {
    fn from(value: WhiteSpace) -> (res: i32) {
        match value {
            WhiteSpace::Unspecified => 0,
            WhiteSpace::Normal => 1,
            WhiteSpace::NoWrap => 2,
        }
    }
}

impl FromSpecImpl<WhiteSpace> for i32 {
    open spec fn obeys_from_spec() -> bool {
        true
    }

    open spec fn from_spec(value: WhiteSpace) -> i32 {
        value.spec_value()
    }
}

/// Allows the size of a Node to be determined by the size of its background
/// sprite.
#[derive(Clone, Copy, Debug, PartialEq, Eq, Structural, Hash, PartialOrd, Ord)]
pub enum BackgroundImageAutoSize {
    Unspecified,
    /// Determine the Node height based on its specified width
    FromWidth,
    /// Determine the Node width based on its specified height
    FromHeight,
}

impl BackgroundImageAutoSize {
    /// The field name of this value in the protocol definition.
    pub open spec fn spec_name(self) -> Seq<char> {
        match self {
            BackgroundImageAutoSize::Unspecified => "BACKGROUND_IMAGE_AUTO_SIZE_UNSPECIFIED"@,
            BackgroundImageAutoSize::FromWidth => "BACKGROUND_IMAGE_AUTO_SIZE_FROM_WIDTH"@,
            BackgroundImageAutoSize::FromHeight => "BACKGROUND_IMAGE_AUTO_SIZE_FROM_HEIGHT"@,
        }
    }

    /// The value decoded from a protocol field name, if it names one.
    pub open spec fn spec_from_name(name: Seq<char>) -> Option<BackgroundImageAutoSize> {
        if name == "BACKGROUND_IMAGE_AUTO_SIZE_UNSPECIFIED"@ {
            Some(BackgroundImageAutoSize::Unspecified)
        } else if name == "BACKGROUND_IMAGE_AUTO_SIZE_FROM_WIDTH"@ {
            Some(BackgroundImageAutoSize::FromWidth)
        } else if name == "BACKGROUND_IMAGE_AUTO_SIZE_FROM_HEIGHT"@ {
            Some(BackgroundImageAutoSize::FromHeight)
        } else {
            None
        }
    }

    /// The number by which this value is encoded on the wire.
    pub open spec fn spec_value(self) -> i32 {
        match self {
            BackgroundImageAutoSize::Unspecified => 0,
            BackgroundImageAutoSize::FromWidth => 1,
            BackgroundImageAutoSize::FromHeight => 2,
        }
    }

    /// The value encoded on the wire by `value`, if any.
    pub open spec fn spec_from_i32(value: i32) -> Option<BackgroundImageAutoSize> {
        if value == 0 {
            Some(BackgroundImageAutoSize::Unspecified)
        } else if value == 1 {
            Some(BackgroundImageAutoSize::FromWidth)
        } else if value == 2 {
            Some(BackgroundImageAutoSize::FromHeight)
        } else {
            None
        }
    }

    /// String value of the enum field names used in the protocol definition.
    pub fn as_str_name(&self) -> (name: &'static str)
        ensures
            name@ == self.spec_name(),
    {
        match self {
            BackgroundImageAutoSize::Unspecified => "BACKGROUND_IMAGE_AUTO_SIZE_UNSPECIFIED",
            BackgroundImageAutoSize::FromWidth => "BACKGROUND_IMAGE_AUTO_SIZE_FROM_WIDTH",
            BackgroundImageAutoSize::FromHeight => "BACKGROUND_IMAGE_AUTO_SIZE_FROM_HEIGHT",
        }
    }

    /// Creates a value from a field name used in the protocol definition.
    pub fn from_str_name(value: &str) -> (res: Option<BackgroundImageAutoSize>)
        ensures
            res == BackgroundImageAutoSize::spec_from_name(value@),
    {
        if str_eq(value, "BACKGROUND_IMAGE_AUTO_SIZE_UNSPECIFIED") {
            Some(BackgroundImageAutoSize::Unspecified)
        } else if str_eq(value, "BACKGROUND_IMAGE_AUTO_SIZE_FROM_WIDTH") {
            Some(BackgroundImageAutoSize::FromWidth)
        } else if str_eq(value, "BACKGROUND_IMAGE_AUTO_SIZE_FROM_HEIGHT") {
            Some(BackgroundImageAutoSize::FromHeight)
        } else {
            None
        }
    }

    /// Decodes a wire number, returning `None` for numbers that name no value.
    pub fn from_i32(value: i32) -> (res: Option<BackgroundImageAutoSize>)
        ensures
            res == BackgroundImageAutoSize::spec_from_i32(value),
    {
        match value {
            0 => Some(BackgroundImageAutoSize::Unspecified),
            1 => Some(BackgroundImageAutoSize::FromWidth),
            2 => Some(BackgroundImageAutoSize::FromHeight),
            _ => None,
        }
    }

    /// Whether `value` is the wire number of some value.
    pub fn is_valid(value: i32) -> (res: bool)
        ensures
            res == BackgroundImageAutoSize::spec_from_i32(value).is_some(),
    {
        BackgroundImageAutoSize::from_i32(value).is_some()
    }

    /// A value's field name and wire number each decode back to that value,
    /// and no other field name or number decodes to it.
    pub proof fn lemma_round_trip(self)
        ensures
            BackgroundImageAutoSize::spec_from_name(self.spec_name()) == Some(self),
            BackgroundImageAutoSize::spec_from_i32(self.spec_value()) == Some(self),
            forall|name: Seq<char>|
                #[trigger] BackgroundImageAutoSize::spec_from_name(name) == Some(self) ==> name == self.spec_name(),
            forall|value: i32|
                #[trigger] BackgroundImageAutoSize::spec_from_i32(value) == Some(self) ==> value == self.spec_value(),
    {
        reveal_strlit("BACKGROUND_IMAGE_AUTO_SIZE_UNSPECIFIED");
        reveal_strlit("BACKGROUND_IMAGE_AUTO_SIZE_FROM_WIDTH");
        reveal_strlit("BACKGROUND_IMAGE_AUTO_SIZE_FROM_HEIGHT");
        assert("BACKGROUND_IMAGE_AUTO_SIZE_UNSPECIFIED"@.len() == 38);
        assert("BACKGROUND_IMAGE_AUTO_SIZE_FROM_WIDTH"@.len() == 37);
        assert("BACKGROUND_IMAGE_AUTO_SIZE_FROM_HEIGHT"@.len() == 38);
        assert("BACKGROUND_IMAGE_AUTO_SIZE_UNSPECIFIED"@[27] != "BACKGROUND_IMAGE_AUTO_SIZE_FROM_HEIGHT"@[27]);
        match self {
            BackgroundImageAutoSize::Unspecified => {},
            BackgroundImageAutoSize::FromWidth => {},
            BackgroundImageAutoSize::FromHeight => {},
        }
    }
}

impl Default for BackgroundImageAutoSize {
    /// The value with wire number zero.
    fn default() -> (res: BackgroundImageAutoSize)
        ensures
            res == BackgroundImageAutoSize::Unspecified,
    {
        BackgroundImageAutoSize::Unspecified
    }
}

impl From<BackgroundImageAutoSize> for i32 {
    fn from(value: BackgroundImageAutoSize) -> (res: i32) {
        match value {
            BackgroundImageAutoSize::Unspecified => 0,
            BackgroundImageAutoSize::FromWidth => 1,
            BackgroundImageAutoSize::FromHeight => 2,
        }
    }
}

impl FromSpecImpl<BackgroundImageAutoSize> for i32 {
    open spec fn obeys_from_spec() -> bool {
        true
    }

    open spec fn from_spec(value: BackgroundImageAutoSize) -> i32 {
        value.spec_value()
    }
}

} // verus!
