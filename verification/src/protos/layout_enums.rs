//! Enumerations describing flexbox layout.
use vstd::prelude::*;
use vstd::std_specs::convert::FromSpecImpl;

use crate::text::str_eq;

verus! {

/// Wire enumeration `FlexAlign` of the client protocol.
#[derive(Clone, Copy, Debug, PartialEq, Eq, Structural, Hash, PartialOrd, Ord)]
pub enum FlexAlign {
    Unspecified,
    Auto,
    FlexStart,
    Center,
    FlexEnd,
    Stretch,
}

impl FlexAlign {
    /// The field name of this value in the protocol definition.
    pub open spec fn spec_name(self) -> Seq<char> {
        match self {
            FlexAlign::Unspecified => "FLEX_ALIGN_UNSPECIFIED"@,
            FlexAlign::Auto => "FLEX_ALIGN_AUTO"@,
            FlexAlign::FlexStart => "FLEX_ALIGN_FLEX_START"@,
            FlexAlign::Center => "FLEX_ALIGN_CENTER"@,
            FlexAlign::FlexEnd => "FLEX_ALIGN_FLEX_END"@,
            FlexAlign::Stretch => "FLEX_ALIGN_STRETCH"@,
        }
    }

    /// The value decoded from a protocol field name, if it names one.
    pub open spec fn spec_from_name(name: Seq<char>) -> Option<FlexAlign> {
        if name == "FLEX_ALIGN_UNSPECIFIED"@ {
            Some(FlexAlign::Unspecified)
        } else if name == "FLEX_ALIGN_AUTO"@ {
            Some(FlexAlign::Auto)
        } else if name == "FLEX_ALIGN_FLEX_START"@ {
            Some(FlexAlign::FlexStart)
        } else if name == "FLEX_ALIGN_CENTER"@ {
            Some(FlexAlign::Center)
        } else if name == "FLEX_ALIGN_FLEX_END"@ {
            Some(FlexAlign::FlexEnd)
        } else if name == "FLEX_ALIGN_STRETCH"@ {
            Some(FlexAlign::Stretch)
        } else {
            None
        }
    }

    /// The number by which this value is encoded on the wire.
    pub open spec fn spec_value(self) -> i32 {
        match self {
            FlexAlign::Unspecified => 0,
            FlexAlign::Auto => 1,
            FlexAlign::FlexStart => 2,
            FlexAlign::Center => 3,
            FlexAlign::FlexEnd => 4,
            FlexAlign::Stretch => 5,
        }
    }

    /// The value encoded on the wire by `value`, if any.
    pub open spec fn spec_from_i32(value: i32) -> Option<FlexAlign> {
        if value == 0 {
            Some(FlexAlign::Unspecified)
        } else if value == 1 {
            Some(FlexAlign::Auto)
        } else if value == 2 {
            Some(FlexAlign::FlexStart)
        } else if value == 3 {
            Some(FlexAlign::Center)
        } else if value == 4 {
            Some(FlexAlign::FlexEnd)
        } else if value == 5 {
            Some(FlexAlign::Stretch)
        } else {
            None
        }
    }

    /// String value of the enum field names used in the protocol definition.
    pub fn as_str_name(&self) -> (name: &'static str)
        ensures
            name@ == self.spec_name(),
    {
        match self {
            FlexAlign::Unspecified => "FLEX_ALIGN_UNSPECIFIED",
            FlexAlign::Auto => "FLEX_ALIGN_AUTO",
            FlexAlign::FlexStart => "FLEX_ALIGN_FLEX_START",
            FlexAlign::Center => "FLEX_ALIGN_CENTER",
            FlexAlign::FlexEnd => "FLEX_ALIGN_FLEX_END",
            FlexAlign::Stretch => "FLEX_ALIGN_STRETCH",
        }
    }

    /// Creates a value from a field name used in the protocol definition.
    pub fn from_str_name(value: &str) -> (res: Option<FlexAlign>)
        ensures
            res == FlexAlign::spec_from_name(value@),
    {
        if str_eq(value, "FLEX_ALIGN_UNSPECIFIED") {
            Some(FlexAlign::Unspecified)
        } else if str_eq(value, "FLEX_ALIGN_AUTO") {
            Some(FlexAlign::Auto)
        } else if str_eq(value, "FLEX_ALIGN_FLEX_START") {
            Some(FlexAlign::FlexStart)
        } else if str_eq(value, "FLEX_ALIGN_CENTER") {
            Some(FlexAlign::Center)
        } else if str_eq(value, "FLEX_ALIGN_FLEX_END") {
            Some(FlexAlign::FlexEnd)
        } else if str_eq(value, "FLEX_ALIGN_STRETCH") {
            Some(FlexAlign::Stretch)
        } else {
            None
        }
    }

    /// Decodes a wire number, returning `None` for numbers that name no value.
    pub fn from_i32(value: i32) -> (res: Option<FlexAlign>)
        ensures
            res == FlexAlign::spec_from_i32(value),
    {
        match value {
            0 => Some(FlexAlign::Unspecified),
            1 => Some(FlexAlign::Auto),
            2 => Some(FlexAlign::FlexStart),
            3 => Some(FlexAlign::Center),
            4 => Some(FlexAlign::FlexEnd),
            5 => Some(FlexAlign::Stretch),
            _ => None,
        }
    }

    /// Whether `value` is the wire number of some value.
    pub fn is_valid(value: i32) -> (res: bool)
        ensures
            res == FlexAlign::spec_from_i32(value).is_some(),
    {
        FlexAlign::from_i32(value).is_some()
    }

    /// A value's field name and wire number each decode back to that value,
    /// and no other field name or number decodes to it.
    pub proof fn lemma_round_trip(self)
        ensures
            FlexAlign::spec_from_name(self.spec_name()) == Some(self),
            FlexAlign::spec_from_i32(self.spec_value()) == Some(self),
            forall|name: Seq<char>|
                #[trigger] FlexAlign::spec_from_name(name) == Some(self) ==> name == self.spec_name(),
            forall|value: i32|
                #[trigger] FlexAlign::spec_from_i32(value) == Some(self) ==> value == self.spec_value(),
    {
        reveal_strlit("FLEX_ALIGN_UNSPECIFIED");
        reveal_strlit("FLEX_ALIGN_AUTO");
        reveal_strlit("FLEX_ALIGN_FLEX_START");
        reveal_strlit("FLEX_ALIGN_CENTER");
        reveal_strlit("FLEX_ALIGN_FLEX_END");
        reveal_strlit("FLEX_ALIGN_STRETCH");
        assert("FLEX_ALIGN_UNSPECIFIED"@.len() == 22);
        assert("FLEX_ALIGN_AUTO"@.len() == 15);
        assert("FLEX_ALIGN_FLEX_START"@.len() == 21);
        assert("FLEX_ALIGN_CENTER"@.len() == 17);
        assert("FLEX_ALIGN_FLEX_END"@.len() == 19);
        assert("FLEX_ALIGN_STRETCH"@.len() == 18);
        match self {
            FlexAlign::Unspecified => {},
            FlexAlign::Auto => {},
            FlexAlign::FlexStart => {},
            FlexAlign::Center => {},
            FlexAlign::FlexEnd => {},
            FlexAlign::Stretch => {},
        }
    }
}

impl Default for FlexAlign {
    /// The value with wire number zero.
    fn default() -> (res: FlexAlign)
        ensures
            res == FlexAlign::Unspecified,
    {
        FlexAlign::Unspecified
    }
}

impl From<FlexAlign> for i32 {
    fn from(value: FlexAlign) -> (res: i32) {
        match value {
            FlexAlign::Unspecified => 0,
            FlexAlign::Auto => 1,
            FlexAlign::FlexStart => 2,
            FlexAlign::Center => 3,
            FlexAlign::FlexEnd => 4,
            FlexAlign::Stretch => 5,
        }
    }
}

impl FromSpecImpl<FlexAlign> for i32 {
    open spec fn obeys_from_spec() -> bool {
        true
    }

    open spec fn from_spec(value: FlexAlign) -> i32 {
        value.spec_value()
    }
}

/// Wire enumeration `FlexDisplayStyle` of the client protocol.
#[derive(Clone, Copy, Debug, PartialEq, Eq, Structural, Hash, PartialOrd, Ord)]
pub enum FlexDisplayStyle {
    Unspecified,
    Flex,
    DisplayNone,
}

impl FlexDisplayStyle {
    /// The field name of this value in the protocol definition.
    pub open spec fn spec_name(self) -> Seq<char> {
        match self {
            FlexDisplayStyle::Unspecified => "FLEX_DISPLAY_STYLE_UNSPECIFIED"@,
            FlexDisplayStyle::Flex => "FLEX_DISPLAY_STYLE_FLEX"@,
            FlexDisplayStyle::DisplayNone => "FLEX_DISPLAY_STYLE_NONE"@,
        }
    }

    /// The value decoded from a protocol field name, if it names one.
    pub open spec fn spec_from_name(name: Seq<char>) -> Option<FlexDisplayStyle> {
        if name == "FLEX_DISPLAY_STYLE_UNSPECIFIED"@ {
            Some(FlexDisplayStyle::Unspecified)
        } else if name == "FLEX_DISPLAY_STYLE_FLEX"@ {
            Some(FlexDisplayStyle::Flex)
        } else if name == "FLEX_DISPLAY_STYLE_NONE"@ {
            Some(FlexDisplayStyle::DisplayNone)
        } else {
            None
        }
    }

    /// The number by which this value is encoded on the wire.
    pub open spec fn spec_value(self) -> i32 {
        match self {
            FlexDisplayStyle::Unspecified => 0,
            FlexDisplayStyle::Flex => 1,
            FlexDisplayStyle::DisplayNone => 2,
        }
    }

    /// The value encoded on the wire by `value`, if any.
    pub open spec fn spec_from_i32(value: i32) -> Option<FlexDisplayStyle> {
        if value == 0 {
            Some(FlexDisplayStyle::Unspecified)
        } else if value == 1 {
            Some(FlexDisplayStyle::Flex)
        } else if value == 2 {
            Some(FlexDisplayStyle::DisplayNone)
        } else {
            None
        }
    }

    /// String value of the enum field names used in the protocol definition.
    pub fn as_str_name(&self) -> (name: &'static str)
        ensures
            name@ == self.spec_name(),
    {
        match self {
            FlexDisplayStyle::Unspecified => "FLEX_DISPLAY_STYLE_UNSPECIFIED",
            FlexDisplayStyle::Flex => "FLEX_DISPLAY_STYLE_FLEX",
            FlexDisplayStyle::DisplayNone => "FLEX_DISPLAY_STYLE_NONE",
        }
    }

    /// Creates a value from a field name used in the protocol definition.
    pub fn from_str_name(value: &str) -> (res: Option<FlexDisplayStyle>)
        ensures
            res == FlexDisplayStyle::spec_from_name(value@),
    {
        if str_eq(value, "FLEX_DISPLAY_STYLE_UNSPECIFIED") {
            Some(FlexDisplayStyle::Unspecified)
        } else if str_eq(value, "FLEX_DISPLAY_STYLE_FLEX") {
            Some(FlexDisplayStyle::Flex)
        } else if str_eq(value, "FLEX_DISPLAY_STYLE_NONE") {
            Some(FlexDisplayStyle::DisplayNone)
        } else {
            None
        }
    }

    /// Decodes a wire number, returning `None` for numbers that name no value.
    pub fn from_i32(value: i32) -> (res: Option<FlexDisplayStyle>)
        ensures
            res == FlexDisplayStyle::spec_from_i32(value),
    {
        match value {
            0 => Some(FlexDisplayStyle::Unspecified),
            1 => Some(FlexDisplayStyle::Flex),
            2 => Some(FlexDisplayStyle::DisplayNone),
            _ => None,
        }
    }

    /// Whether `value` is the wire number of some value.
    pub fn is_valid(value: i32) -> (res: bool)
        ensures
            res == FlexDisplayStyle::spec_from_i32(value).is_some(),
    {
        FlexDisplayStyle::from_i32(value).is_some()
    }

    /// A value's field name and wire number each decode back to that value,
    /// and no other field name or number decodes to it.
    pub proof fn lemma_round_trip(self)
        ensures
            FlexDisplayStyle::spec_from_name(self.spec_name()) == Some(self),
            FlexDisplayStyle::spec_from_i32(self.spec_value()) == Some(self),
            forall|name: Seq<char>|
                #[trigger] FlexDisplayStyle::spec_from_name(name) == Some(self) ==> name == self.spec_name(),
            forall|value: i32|
                #[trigger] FlexDisplayStyle::spec_from_i32(value) == Some(self) ==> value == self.spec_value(),
    {
        reveal_strlit("FLEX_DISPLAY_STYLE_UNSPECIFIED");
        reveal_strlit("FLEX_DISPLAY_STYLE_FLEX");
        reveal_strlit("FLEX_DISPLAY_STYLE_NONE");
        assert("FLEX_DISPLAY_STYLE_UNSPECIFIED"@.len() == 30);
        assert("FLEX_DISPLAY_STYLE_FLEX"@.len() == 23);
        assert("FLEX_DISPLAY_STYLE_NONE"@.len() == 23);
        assert("FLEX_DISPLAY_STYLE_FLEX"@[19] != "FLEX_DISPLAY_STYLE_NONE"@[19]);
        match self {
            FlexDisplayStyle::Unspecified => {},
            FlexDisplayStyle::Flex => {},
            FlexDisplayStyle::DisplayNone => {},
        }
    }
}

impl Default for FlexDisplayStyle {
    /// The value with wire number zero.
    fn default() -> (res: FlexDisplayStyle)
        ensures
            res == FlexDisplayStyle::Unspecified,
    {
        FlexDisplayStyle::Unspecified
    }
}

impl From<FlexDisplayStyle> for i32 {
    fn from(value: FlexDisplayStyle) -> (res: i32) {
        match value {
            FlexDisplayStyle::Unspecified => 0,
            FlexDisplayStyle::Flex => 1,
            FlexDisplayStyle::DisplayNone => 2,
        }
    }
}

impl FromSpecImpl<FlexDisplayStyle> for i32 {
    open spec fn obeys_from_spec() -> bool {
        true
    }

    open spec fn from_spec(value: FlexDisplayStyle) -> i32 {
        value.spec_value()
    }
}

/// Wire enumeration `FlexDirection` of the client protocol.
#[derive(Clone, Copy, Debug, PartialEq, Eq, Structural, Hash, PartialOrd, Ord)]
pub enum FlexDirection {
    Unspecified,
    Column,
    ColumnReverse,
    Row,
    RowReverse,
}

impl FlexDirection {
    /// The field name of this value in the protocol definition.
    pub open spec fn spec_name(self) -> Seq<char> {
        match self {
            FlexDirection::Unspecified => "FLEX_DIRECTION_UNSPECIFIED"@,
            FlexDirection::Column => "FLEX_DIRECTION_COLUMN"@,
            FlexDirection::ColumnReverse => "FLEX_DIRECTION_COLUMN_REVERSE"@,
            FlexDirection::Row => "FLEX_DIRECTION_ROW"@,
            FlexDirection::RowReverse => "FLEX_DIRECTION_ROW_REVERSE"@,
        }
    }

    /// The value decoded from a protocol field name, if it names one.
    pub open spec fn spec_from_name(name: Seq<char>) -> Option<FlexDirection> {
        if name == "FLEX_DIRECTION_UNSPECIFIED"@ {
            Some(FlexDirection::Unspecified)
        } else if name == "FLEX_DIRECTION_COLUMN"@ {
            Some(FlexDirection::Column)
        } else if name == "FLEX_DIRECTION_COLUMN_REVERSE"@ {
            Some(FlexDirection::ColumnReverse)
        } else if name == "FLEX_DIRECTION_ROW"@ {
            Some(FlexDirection::Row)
        } else if name == "FLEX_DIRECTION_ROW_REVERSE"@ {
            Some(FlexDirection::RowReverse)
        } else {
            None
        }
    }

    /// The number by which this value is encoded on the wire.
    pub open spec fn spec_value(self) -> i32 {
        match self {
            FlexDirection::Unspecified => 0,
            FlexDirection::Column => 1,
            FlexDirection::ColumnReverse => 2,
            FlexDirection::Row => 3,
            FlexDirection::RowReverse => 4,
        }
    }

    /// The value encoded on the wire by `value`, if any.
    pub open spec fn spec_from_i32(value: i32) -> Option<FlexDirection> {
        if value == 0 {
            Some(FlexDirection::Unspecified)
        } else if value == 1 {
            Some(FlexDirection::Column)
        } else if value == 2 {
            Some(FlexDirection::ColumnReverse)
        } else if value == 3 {
            Some(FlexDirection::Row)
        } else if value == 4 {
            Some(FlexDirection::RowReverse)
        } else {
            None
        }
    }

    /// String value of the enum field names used in the protocol definition.
    pub fn as_str_name(&self) -> (name: &'static str)
        ensures
            name@ == self.spec_name(),
    {
        match self {
            FlexDirection::Unspecified => "FLEX_DIRECTION_UNSPECIFIED",
            FlexDirection::Column => "FLEX_DIRECTION_COLUMN",
            FlexDirection::ColumnReverse => "FLEX_DIRECTION_COLUMN_REVERSE",
            FlexDirection::Row => "FLEX_DIRECTION_ROW",
            FlexDirection::RowReverse => "FLEX_DIRECTION_ROW_REVERSE",
        }
    }

    /// Creates a value from a field name used in the protocol definition.
    pub fn from_str_name(value: &str) -> (res: Option<FlexDirection>)
        ensures
            res == FlexDirection::spec_from_name(value@),
    {
        if str_eq(value, "FLEX_DIRECTION_UNSPECIFIED") {
            Some(FlexDirection::Unspecified)
        } else if str_eq(value, "FLEX_DIRECTION_COLUMN") {
            Some(FlexDirection::Column)
        } else if str_eq(value, "FLEX_DIRECTION_COLUMN_REVERSE") {
            Some(FlexDirection::ColumnReverse)
        } else if str_eq(value, "FLEX_DIRECTION_ROW") {
            Some(FlexDirection::Row)
        } else if str_eq(value, "FLEX_DIRECTION_ROW_REVERSE") {
            Some(FlexDirection::RowReverse)
        } else {
            None
        }
    }

    /// Decodes a wire number, returning `None` for numbers that name no value.
    pub fn from_i32(value: i32) -> (res: Option<FlexDirection>)
        ensures
            res == FlexDirection::spec_from_i32(value),
    {
        match value {
            0 => Some(FlexDirection::Unspecified),
            1 => Some(FlexDirection::Column),
            2 => Some(FlexDirection::ColumnReverse),
            3 => Some(FlexDirection::Row),
            4 => Some(FlexDirection::RowReverse),
            _ => None,
        }
    }

    /// Whether `value` is the wire number of some value.
    pub fn is_valid(value: i32) -> (res: bool)
        ensures
            res == FlexDirection::spec_from_i32(value).is_some(),
    {
        FlexDirection::from_i32(value).is_some()
    }

    /// A value's field name and wire number each decode back to that value,
    /// and no other field name or number decodes to it.
    pub proof fn lemma_round_trip(self)
        ensures
            FlexDirection::spec_from_name(self.spec_name()) == Some(self),
            FlexDirection::spec_from_i32(self.spec_value()) == Some(self),
            forall|name: Seq<char>|
                #[trigger] FlexDirection::spec_from_name(name) == Some(self) ==> name == self.spec_name(),
            forall|value: i32|
                #[trigger] FlexDirection::spec_from_i32(value) == Some(self) ==> value == self.spec_value(),
    {
        reveal_strlit("FLEX_DIRECTION_UNSPECIFIED");
        reveal_strlit("FLEX_DIRECTION_COLUMN");
        reveal_strlit("FLEX_DIRECTION_COLUMN_REVERSE");
        reveal_strlit("FLEX_DIRECTION_ROW");
        reveal_strlit("FLEX_DIRECTION_ROW_REVERSE");
        assert("FLEX_DIRECTION_UNSPECIFIED"@.len() == 26);
        assert("FLEX_DIRECTION_COLUMN"@.len() == 21);
        assert("FLEX_DIRECTION_COLUMN_REVERSE"@.len() == 29);
        assert("FLEX_DIRECTION_ROW"@.len() == 18);
        assert("FLEX_DIRECTION_ROW_REVERSE"@.len() == 26);
        assert("FLEX_DIRECTION_UNSPECIFIED"@[15] != "FLEX_DIRECTION_ROW_REVERSE"@[15]);
        match self {
            FlexDirection::Unspecified => {},
            FlexDirection::Column => {},
            FlexDirection::ColumnReverse => {},
            FlexDirection::Row => {},
            FlexDirection::RowReverse => {},
        }
    }
}

impl Default for FlexDirection {
    /// The value with wire number zero.
    fn default() -> (res: FlexDirection)
        ensures
            res == FlexDirection::Unspecified,
    {
        FlexDirection::Unspecified
    }
}

impl From<FlexDirection> for i32 {
    fn from(value: FlexDirection) -> (res: i32) {
        match value {
            FlexDirection::Unspecified => 0,
            FlexDirection::Column => 1,
            FlexDirection::ColumnReverse => 2,
            FlexDirection::Row => 3,
            FlexDirection::RowReverse => 4,
        }
    }
}

impl FromSpecImpl<FlexDirection> for i32 {
    open spec fn obeys_from_spec() -> bool {
        true
    }

    open spec fn from_spec(value: FlexDirection) -> i32 {
        value.spec_value()
    }
}

/// Wire enumeration `FlexWrap` of the client protocol.
#[derive(Clone, Copy, Debug, PartialEq, Eq, Structural, Hash, PartialOrd, Ord)]
pub enum FlexWrap {
    Unspecified,
    NoWrap,
    Wrap,
    WrapReverse,
}

impl FlexWrap {
    /// The field name of this value in the protocol definition.
    pub open spec fn spec_name(self) -> Seq<char> {
        match self {
            FlexWrap::Unspecified => "FLEX_WRAP_UNSPECIFIED"@,
            FlexWrap::NoWrap => "FLEX_WRAP_NO_WRAP"@,
            FlexWrap::Wrap => "FLEX_WRAP_WRAP"@,
            FlexWrap::WrapReverse => "FLEX_WRAP_WRAP_REVERSE"@,
        }
    }

    /// The value decoded from a protocol field name, if it names one.
    pub open spec fn spec_from_name(name: Seq<char>) -> Option<FlexWrap> {
        if name == "FLEX_WRAP_UNSPECIFIED"@ {
            Some(FlexWrap::Unspecified)
        } else if name == "FLEX_WRAP_NO_WRAP"@ {
            Some(FlexWrap::NoWrap)
        } else if name == "FLEX_WRAP_WRAP"@ {
            Some(FlexWrap::Wrap)
        } else if name == "FLEX_WRAP_WRAP_REVERSE"@ {
            Some(FlexWrap::WrapReverse)
        } else {
            None
        }
    }

    /// The number by which this value is encoded on the wire.
    pub open spec fn spec_value(self) -> i32 {
        match self {
            FlexWrap::Unspecified => 0,
            FlexWrap::NoWrap => 1,
            FlexWrap::Wrap => 2,
            FlexWrap::WrapReverse => 3,
        }
    }

    /// The value encoded on the wire by `value`, if any.
    pub open spec fn spec_from_i32(value: i32) -> Option<FlexWrap> {
        if value == 0 {
            Some(FlexWrap::Unspecified)
        } else if value == 1 {
            Some(FlexWrap::NoWrap)
        } else if value == 2 {
            Some(FlexWrap::Wrap)
        } else if value == 3 {
            Some(FlexWrap::WrapReverse)
        } else {
            None
        }
    }

    /// String value of the enum field names used in the protocol definition.
    pub fn as_str_name(&self) -> (name: &'static str)
        ensures
            name@ == self.spec_name(),
    {
        match self {
            FlexWrap::Unspecified => "FLEX_WRAP_UNSPECIFIED",
            FlexWrap::NoWrap => "FLEX_WRAP_NO_WRAP",
            FlexWrap::Wrap => "FLEX_WRAP_WRAP",
            FlexWrap::WrapReverse => "FLEX_WRAP_WRAP_REVERSE",
        }
    }

    /// Creates a value from a field name used in the protocol definition.
    pub fn from_str_name(value: &str) -> (res: Option<FlexWrap>)
        ensures
            res == FlexWrap::spec_from_name(value@),
    {
        if str_eq(value, "FLEX_WRAP_UNSPECIFIED") {
            Some(FlexWrap::Unspecified)
        } else if str_eq(value, "FLEX_WRAP_NO_WRAP") {
            Some(FlexWrap::NoWrap)
        } else if str_eq(value, "FLEX_WRAP_WRAP") {
            Some(FlexWrap::Wrap)
        } else if str_eq(value, "FLEX_WRAP_WRAP_REVERSE") {
            Some(FlexWrap::WrapReverse)
        } else {
            None
        }
    }

    /// Decodes a wire number, returning `None` for numbers that name no value.
    pub fn from_i32(value: i32) -> (res: Option<FlexWrap>)
        ensures
            res == FlexWrap::spec_from_i32(value),
    {
        match value {
            0 => Some(FlexWrap::Unspecified),
            1 => Some(FlexWrap::NoWrap),
            2 => Some(FlexWrap::Wrap),
            3 => Some(FlexWrap::WrapReverse),
            _ => None,
        }
    }

    /// Whether `value` is the wire number of some value.
    pub fn is_valid(value: i32) -> (res: bool)
        ensures
            res == FlexWrap::spec_from_i32(value).is_some(),
    {
        FlexWrap::from_i32(value).is_some()
    }

    /// A value's field name and wire number each decode back to that value,
    /// and no other field name or number decodes to it.
    pub proof fn lemma_round_trip(self)
        ensures
            FlexWrap::spec_from_name(self.spec_name()) == Some(self),
            FlexWrap::spec_from_i32(self.spec_value()) == Some(self),
            forall|name: Seq<char>|
                #[trigger] FlexWrap::spec_from_name(name) == Some(self) ==> name == self.spec_name(),
            forall|value: i32|
                #[trigger] FlexWrap::spec_from_i32(value) == Some(self) ==> value == self.spec_value(),
    {
        reveal_strlit("FLEX_WRAP_UNSPECIFIED");
        reveal_strlit("FLEX_WRAP_NO_WRAP");
        reveal_strlit("FLEX_WRAP_WRAP");
        reveal_strlit("FLEX_WRAP_WRAP_REVERSE");
        assert("FLEX_WRAP_UNSPECIFIED"@.len() == 21);
        assert("FLEX_WRAP_NO_WRAP"@.len() == 17);
        assert("FLEX_WRAP_WRAP"@.len() == 14);
        assert("FLEX_WRAP_WRAP_REVERSE"@.len() == 22);
        match self {
            FlexWrap::Unspecified => {},
            FlexWrap::NoWrap => {},
            FlexWrap::Wrap => {},
            FlexWrap::WrapReverse => {},
        }
    }
}

impl Default for FlexWrap {
    /// The value with wire number zero.
    fn default() -> (res: FlexWrap)
        ensures
            res == FlexWrap::Unspecified,
    {
        FlexWrap::Unspecified
    }
}

impl From<FlexWrap> for i32 {
    fn from(value: FlexWrap) -> (res: i32) {
        match value {
            FlexWrap::Unspecified => 0,
            FlexWrap::NoWrap => 1,
            FlexWrap::Wrap => 2,
            FlexWrap::WrapReverse => 3,
        }
    }
}

impl FromSpecImpl<FlexWrap> for i32 {
    open spec fn obeys_from_spec() -> bool {
        true
    }

    open spec fn from_spec(value: FlexWrap) -> i32 {
        value.spec_value()
    }
}

/// Wire enumeration `FlexJustify` of the client protocol.
#[derive(Clone, Copy, Debug, PartialEq, Eq, Structural, Hash, PartialOrd, Ord)]
pub enum FlexJustify {
    Unspecified,
    FlexStart,
    Center,
    FlexEnd,
    SpaceBetween,
    SpaceAround,
}

impl FlexJustify {
    /// The field name of this value in the protocol definition.
    pub open spec fn spec_name(self) -> Seq<char> {
        match self {
            FlexJustify::Unspecified => "FLEX_JUSTIFY_UNSPECIFIED"@,
            FlexJustify::FlexStart => "FLEX_JUSTIFY_FLEX_START"@,
            FlexJustify::Center => "FLEX_JUSTIFY_CENTER"@,
            FlexJustify::FlexEnd => "FLEX_JUSTIFY_FLEX_END"@,
            FlexJustify::SpaceBetween => "FLEX_JUSTIFY_SPACE_BETWEEN"@,
            FlexJustify::SpaceAround => "FLEX_JUSTIFY_SPACE_AROUND"@,
        }
    }

    /// The value decoded from a protocol field name, if it names one.
    pub open spec fn spec_from_name(name: Seq<char>) -> Option<FlexJustify> {
        if name == "FLEX_JUSTIFY_UNSPECIFIED"@ {
            Some(FlexJustify::Unspecified)
        } else if name == "FLEX_JUSTIFY_FLEX_START"@ {
            Some(FlexJustify::FlexStart)
        } else if name == "FLEX_JUSTIFY_CENTER"@ {
            Some(FlexJustify::Center)
        } else if name == "FLEX_JUSTIFY_FLEX_END"@ {
            Some(FlexJustify::FlexEnd)
        } else if name == "FLEX_JUSTIFY_SPACE_BETWEEN"@ {
            Some(FlexJustify::SpaceBetween)
        } else if name == "FLEX_JUSTIFY_SPACE_AROUND"@ {
            Some(FlexJustify::SpaceAround)
        } else {
            None
        }
    }

    /// The number by which this value is encoded on the wire.
    pub open spec fn spec_value(self) -> i32 {
        match self {
            FlexJustify::Unspecified => 0,
            FlexJustify::FlexStart => 1,
            FlexJustify::Center => 2,
            FlexJustify::FlexEnd => 3,
            FlexJustify::SpaceBetween => 4,
            FlexJustify::SpaceAround => 5,
        }
    }

    /// The value encoded on the wire by `value`, if any.
    pub open spec fn spec_from_i32(value: i32) -> Option<FlexJustify> {
        if value == 0 {
            Some(FlexJustify::Unspecified)
        } else if value == 1 {
            Some(FlexJustify::FlexStart)
        } else if value == 2 {
            Some(FlexJustify::Center)
        } else if value == 3 {
            Some(FlexJustify::FlexEnd)
        } else if value == 4 {
            Some(FlexJustify::SpaceBetween)
        } else if value == 5 {
            Some(FlexJustify::SpaceAround)
        } else {
            None
        }
    }

    /// String value of the enum field names used in the protocol definition.
    pub fn as_str_name(&self) -> (name: &'static str)
        ensures
            name@ == self.spec_name(),
    {
        match self {
            FlexJustify::Unspecified => "FLEX_JUSTIFY_UNSPECIFIED",
            FlexJustify::FlexStart => "FLEX_JUSTIFY_FLEX_START",
            FlexJustify::Center => "FLEX_JUSTIFY_CENTER",
            FlexJustify::FlexEnd => "FLEX_JUSTIFY_FLEX_END",
            FlexJustify::SpaceBetween => "FLEX_JUSTIFY_SPACE_BETWEEN",
            FlexJustify::SpaceAround => "FLEX_JUSTIFY_SPACE_AROUND",
        }
    }

    /// Creates a value from a field name used in the protocol definition.
    pub fn from_str_name(value: &str) -> (res: Option<FlexJustify>)
        ensures
            res == FlexJustify::spec_from_name(value@),
    {
        if str_eq(value, "FLEX_JUSTIFY_UNSPECIFIED") {
            Some(FlexJustify::Unspecified)
        } else if str_eq(value, "FLEX_JUSTIFY_FLEX_START") {
            Some(FlexJustify::FlexStart)
        } else if str_eq(value, "FLEX_JUSTIFY_CENTER") {
            Some(FlexJustify::Center)
        } else if str_eq(value, "FLEX_JUSTIFY_FLEX_END") {
            Some(FlexJustify::FlexEnd)
        } else if str_eq(value, "FLEX_JUSTIFY_SPACE_BETWEEN") {
            Some(FlexJustify::SpaceBetween)
        } else if str_eq(value, "FLEX_JUSTIFY_SPACE_AROUND") {
            Some(FlexJustify::SpaceAround)
        } else {
            None
        }
    }

    /// Decodes a wire number, returning `None` for numbers that name no value.
    pub fn from_i32(value: i32) -> (res: Option<FlexJustify>)
        ensures
            res == FlexJustify::spec_from_i32(value),
    {
        match value {
            0 => Some(FlexJustify::Unspecified),
            1 => Some(FlexJustify::FlexStart),
            2 => Some(FlexJustify::Center),
            3 => Some(FlexJustify::FlexEnd),
            4 => Some(FlexJustify::SpaceBetween),
            5 => Some(FlexJustify::SpaceAround),
            _ => None,
        }
    }

    /// Whether `value` is the wire number of some value.
    pub fn is_valid(value: i32) -> (res: bool)
        ensures
            res == FlexJustify::spec_from_i32(value).is_some(),
    {
        FlexJustify::from_i32(value).is_some()
    }

    /// A value's field name and wire number each decode back to that value,
    /// and no other field name or number decodes to it.
    pub proof fn lemma_round_trip(self)
        ensures
            FlexJustify::spec_from_name(self.spec_name()) == Some(self),
            FlexJustify::spec_from_i32(self.spec_value()) == Some(self),
            forall|name: Seq<char>|
                #[trigger] FlexJustify::spec_from_name(name) == Some(self) ==> name == self.spec_name(),
            forall|value: i32|
                #[trigger] FlexJustify::spec_from_i32(value) == Some(self) ==> value == self.spec_value(),
    {
        reveal_strlit("FLEX_JUSTIFY_UNSPECIFIED");
        reveal_strlit("FLEX_JUSTIFY_FLEX_START");
        reveal_strlit("FLEX_JUSTIFY_CENTER");
        reveal_strlit("FLEX_JUSTIFY_FLEX_END");
        reveal_strlit("FLEX_JUSTIFY_SPACE_BETWEEN");
        reveal_strlit("FLEX_JUSTIFY_SPACE_AROUND");
        assert("FLEX_JUSTIFY_UNSPECIFIED"@.len() == 24);
        assert("FLEX_JUSTIFY_FLEX_START"@.len() == 23);
        assert("FLEX_JUSTIFY_CENTER"@.len() == 19);
        assert("FLEX_JUSTIFY_FLEX_END"@.len() == 21);
        assert("FLEX_JUSTIFY_SPACE_BETWEEN"@.len() == 26);
        assert("FLEX_JUSTIFY_SPACE_AROUND"@.len() == 25);
        match self {
            FlexJustify::Unspecified => {},
            FlexJustify::FlexStart => {},
            FlexJustify::Center => {},
            FlexJustify::FlexEnd => {},
            FlexJustify::SpaceBetween => {},
            FlexJustify::SpaceAround => {},
        }
    }
}

impl Default for FlexJustify {
    /// The value with wire number zero.
    fn default() -> (res: FlexJustify)
        ensures
            res == FlexJustify::Unspecified,
    {
        FlexJustify::Unspecified
    }
}

impl From<FlexJustify> for i32 {
    fn from(value: FlexJustify) -> (res: i32) {
        match value {
            FlexJustify::Unspecified => 0,
            FlexJustify::FlexStart => 1,
            FlexJustify::Center => 2,
            FlexJustify::FlexEnd => 3,
            FlexJustify::SpaceBetween => 4,
            FlexJustify::SpaceAround => 5,
        }
    }
}

impl FromSpecImpl<FlexJustify> for i32 {
    open spec fn obeys_from_spec() -> bool {
        true
    }

    open spec fn from_spec(value: FlexJustify) -> i32 {
        value.spec_value()
    }
}

/// Wire enumeration `FlexOverflow` of the client protocol.
#[derive(Clone, Copy, Debug, PartialEq, Eq, Structural, Hash, PartialOrd, Ord)]
pub enum FlexOverflow {
    Unspecified,
    Visible,
    Hidden,
}

impl FlexOverflow {
    /// The field name of this value in the protocol definition.
    pub open spec fn spec_name(self) -> Seq<char> {
        match self {
            FlexOverflow::Unspecified => "FLEX_OVERFLOW_UNSPECIFIED"@,
            FlexOverflow::Visible => "FLEX_OVERFLOW_VISIBLE"@,
            FlexOverflow::Hidden => "FLEX_OVERFLOW_HIDDEN"@,
        }
    }

    /// The value decoded from a protocol field name, if it names one.
    pub open spec fn spec_from_name(name: Seq<char>) -> Option<FlexOverflow> {
        if name == "FLEX_OVERFLOW_UNSPECIFIED"@ {
            Some(FlexOverflow::Unspecified)
        } else if name == "FLEX_OVERFLOW_VISIBLE"@ {
            Some(FlexOverflow::Visible)
        } else if name == "FLEX_OVERFLOW_HIDDEN"@ {
            Some(FlexOverflow::Hidden)
        } else {
            None
        }
    }

    /// The number by which this value is encoded on the wire.
    pub open spec fn spec_value(self) -> i32 {
        match self {
            FlexOverflow::Unspecified => 0,
            FlexOverflow::Visible => 1,
            FlexOverflow::Hidden => 2,
        }
    }

    /// The value encoded on the wire by `value`, if any.
    pub open spec fn spec_from_i32(value: i32) -> Option<FlexOverflow> {
        if value == 0 {
            Some(FlexOverflow::Unspecified)
        } else if value == 1 {
            Some(FlexOverflow::Visible)
        } else if value == 2 {
            Some(FlexOverflow::Hidden)
        } else {
            None
        }
    }

    /// String value of the enum field names used in the protocol definition.
    pub fn as_str_name(&self) -> (name: &'static str)
        ensures
            name@ == self.spec_name(),
    {
        match self {
            FlexOverflow::Unspecified => "FLEX_OVERFLOW_UNSPECIFIED",
            FlexOverflow::Visible => "FLEX_OVERFLOW_VISIBLE",
            FlexOverflow::Hidden => "FLEX_OVERFLOW_HIDDEN",
        }
    }

    /// Creates a value from a field name used in the protocol definition.
    pub fn from_str_name(value: &str) -> (res: Option<FlexOverflow>)
        ensures
            res == FlexOverflow::spec_from_name(value@),
    {
        if str_eq(value, "FLEX_OVERFLOW_UNSPECIFIED") {
            Some(FlexOverflow::Unspecified)
        } else if str_eq(value, "FLEX_OVERFLOW_VISIBLE") {
            Some(FlexOverflow::Visible)
        } else if str_eq(value, "FLEX_OVERFLOW_HIDDEN") {
            Some(FlexOverflow::Hidden)
        } else {
            None
        }
    }

    /// Decodes a wire number, returning `None` for numbers that name no value.
    pub fn from_i32(value: i32) -> (res: Option<FlexOverflow>)
        ensures
            res == FlexOverflow::spec_from_i32(value),
    {
        match value {
            0 => Some(FlexOverflow::Unspecified),
            1 => Some(FlexOverflow::Visible),
            2 => Some(FlexOverflow::Hidden),
            _ => None,
        }
    }

    /// Whether `value` is the wire number of some value.
    pub fn is_valid(value: i32) -> (res: bool)
        ensures
            res == FlexOverflow::spec_from_i32(value).is_some(),
    {
        FlexOverflow::from_i32(value).is_some()
    }

    /// A value's field name and wire number each decode back to that value,
    /// and no other field name or number decodes to it.
    pub proof fn lemma_round_trip(self)
        ensures
            FlexOverflow::spec_from_name(self.spec_name()) == Some(self),
            FlexOverflow::spec_from_i32(self.spec_value()) == Some(self),
            forall|name: Seq<char>|
                #[trigger] FlexOverflow::spec_from_name(name) == Some(self) ==> name == self.spec_name(),
            forall|value: i32|
                #[trigger] FlexOverflow::spec_from_i32(value) == Some(self) ==> value == self.spec_value(),
    {
        reveal_strlit("FLEX_OVERFLOW_UNSPECIFIED");
        reveal_strlit("FLEX_OVERFLOW_VISIBLE");
        reveal_strlit("FLEX_OVERFLOW_HIDDEN");
        assert("FLEX_OVERFLOW_UNSPECIFIED"@.len() == 25);
        assert("FLEX_OVERFLOW_VISIBLE"@.len() == 21);
        assert("FLEX_OVERFLOW_HIDDEN"@.len() == 20);
        match self {
            FlexOverflow::Unspecified => {},
            FlexOverflow::Visible => {},
            FlexOverflow::Hidden => {},
        }
    }
}

impl Default for FlexOverflow {
    /// The value with wire number zero.
    fn default() -> (res: FlexOverflow)
        ensures
            res == FlexOverflow::Unspecified,
    {
        FlexOverflow::Unspecified
    }
}

impl From<FlexOverflow> for i32 {
    fn from(value: FlexOverflow) -> (res: i32) {
        match value {
            FlexOverflow::Unspecified => 0,
            FlexOverflow::Visible => 1,
            FlexOverflow::Hidden => 2,
        }
    }
}

impl FromSpecImpl<FlexOverflow> for i32 {
    open spec fn obeys_from_spec() -> bool {
        true
    }

    open spec fn from_spec(value: FlexOverflow) -> i32 {
        value.spec_value()
    }
}

/// Wire enumeration `FlexPosition` of the client protocol.
#[derive(Clone, Copy, Debug, PartialEq, Eq, Structural, Hash, PartialOrd, Ord)]
pub enum FlexPosition {
    Unspecified,
    Relative,
    Absolute,
}

impl FlexPosition {
    /// The field name of this value in the protocol definition.
    pub open spec fn spec_name(self) -> Seq<char> {
        match self {
            FlexPosition::Unspecified => "FLEX_POSITION_UNSPECIFIED"@,
            FlexPosition::Relative => "FLEX_POSITION_RELATIVE"@,
            FlexPosition::Absolute => "FLEX_POSITION_ABSOLUTE"@,
        }
    }

    /// The value decoded from a protocol field name, if it names one.
    pub open spec fn spec_from_name(name: Seq<char>) -> Option<FlexPosition> {
        if name == "FLEX_POSITION_UNSPECIFIED"@ {
            Some(FlexPosition::Unspecified)
        } else if name == "FLEX_POSITION_RELATIVE"@ {
            Some(FlexPosition::Relative)
        } else if name == "FLEX_POSITION_ABSOLUTE"@ {
            Some(FlexPosition::Absolute)
        } else {
            None
        }
    }

    /// The number by which this value is encoded on the wire.
    pub open spec fn spec_value(self) -> i32 {
        match self {
            FlexPosition::Unspecified => 0,
            FlexPosition::Relative => 1,
            FlexPosition::Absolute => 2,
        }
    }

    /// The value encoded on the wire by `value`, if any.
    pub open spec fn spec_from_i32(value: i32) -> Option<FlexPosition> {
        if value == 0 {
            Some(FlexPosition::Unspecified)
        } else if value == 1 {
            Some(FlexPosition::Relative)
        } else if value == 2 {
            Some(FlexPosition::Absolute)
        } else {
            None
        }
    }

    /// String value of the enum field names used in the protocol definition.
    pub fn as_str_name(&self) -> (name: &'static str)
        ensures
            name@ == self.spec_name(),
    {
        match self {
            FlexPosition::Unspecified => "FLEX_POSITION_UNSPECIFIED",
            FlexPosition::Relative => "FLEX_POSITION_RELATIVE",
            FlexPosition::Absolute => "FLEX_POSITION_ABSOLUTE",
        }
    }

    /// Creates a value from a field name used in the protocol definition.
    pub fn from_str_name(value: &str) -> (res: Option<FlexPosition>)
        ensures
            res == FlexPosition::spec_from_name(value@),
    {
        if str_eq(value, "FLEX_POSITION_UNSPECIFIED") {
            Some(FlexPosition::Unspecified)
        } else if str_eq(value, "FLEX_POSITION_RELATIVE") {
            Some(FlexPosition::Relative)
        } else if str_eq(value, "FLEX_POSITION_ABSOLUTE") {
            Some(FlexPosition::Absolute)
        } else {
            None
        }
    }

    /// Decodes a wire number, returning `None` for numbers that name no value.
    pub fn from_i32(value: i32) -> (res: Option<FlexPosition>)
        ensures
            res == FlexPosition::spec_from_i32(value),
    {
        match value {
            0 => Some(FlexPosition::Unspecified),
            1 => Some(FlexPosition::Relative),
            2 => Some(FlexPosition::Absolute),
            _ => None,
        }
    }

    /// Whether `value` is the wire number of some value.
    pub fn is_valid(value: i32) -> (res: bool)
        ensures
            res == FlexPosition::spec_from_i32(value).is_some(),
    {
        FlexPosition::from_i32(value).is_some()
    }

    /// A value's field name and wire number each decode back to that value,
    /// and no other field name or number decodes to it.
    pub proof fn lemma_round_trip(self)
        ensures
            FlexPosition::spec_from_name(self.spec_name()) == Some(self),
            FlexPosition::spec_from_i32(self.spec_value()) == Some(self),
            forall|name: Seq<char>|
                #[trigger] FlexPosition::spec_from_name(name) == Some(self) ==> name == self.spec_name(),
            forall|value: i32|
                #[trigger] FlexPosition::spec_from_i32(value) == Some(self) ==> value == self.spec_value(),
    {
        reveal_strlit("FLEX_POSITION_UNSPECIFIED");
        reveal_strlit("FLEX_POSITION_RELATIVE");
        reveal_strlit("FLEX_POSITION_ABSOLUTE");
        assert("FLEX_POSITION_UNSPECIFIED"@.len() == 25);
        assert("FLEX_POSITION_RELATIVE"@.len() == 22);
        assert("FLEX_POSITION_ABSOLUTE"@.len() == 22);
        assert("FLEX_POSITION_RELATIVE"@[14] != "FLEX_POSITION_ABSOLUTE"@[14]);
        match self {
            FlexPosition::Unspecified => {},
            FlexPosition::Relative => {},
            FlexPosition::Absolute => {},
        }
    }
}

impl Default for FlexPosition {
    /// The value with wire number zero.
    fn default() -> (res: FlexPosition)
        ensures
            res == FlexPosition::Unspecified,
    {
        FlexPosition::Unspecified
    }
}

impl From<FlexPosition> for i32 {
    fn from(value: FlexPosition) -> (res: i32) {
        match value {
            FlexPosition::Unspecified => 0,
            FlexPosition::Relative => 1,
            FlexPosition::Absolute => 2,
        }
    }
}

impl FromSpecImpl<FlexPosition> for i32 {
    open spec fn obeys_from_spec() -> bool {
        true
    }

    open spec fn from_spec(value: FlexPosition) -> i32 {
        value.spec_value()
    }
}

/// Wire enumeration `FlexVisibility` of the client protocol.
#[derive(Clone, Copy, Debug, PartialEq, Eq, Structural, Hash, PartialOrd, Ord)]
pub enum FlexVisibility {
    Unspecified,
    Visible,
    Hidden,
}

impl FlexVisibility {
    /// The field name of this value in the protocol definition.
    pub open spec fn spec_name(self) -> Seq<char> {
        match self {
            FlexVisibility::Unspecified => "FLEX_VISIBILITY_UNSPECIFIED"@,
            FlexVisibility::Visible => "FLEX_VISIBILITY_VISIBLE"@,
            FlexVisibility::Hidden => "FLEX_VISIBILITY_HIDDEN"@,
        }
    }

    /// The value decoded from a protocol field name, if it names one.
    pub open spec fn spec_from_name(name: Seq<char>) -> Option<FlexVisibility> {
        if name == "FLEX_VISIBILITY_UNSPECIFIED"@ {
            Some(FlexVisibility::Unspecified)
        } else if name == "FLEX_VISIBILITY_VISIBLE"@ {
            Some(FlexVisibility::Visible)
        } else if name == "FLEX_VISIBILITY_HIDDEN"@ {
            Some(FlexVisibility::Hidden)
        } else {
            None
        }
    }

    /// The number by which this value is encoded on the wire.
    pub open spec fn spec_value(self) -> i32 {
        match self {
            FlexVisibility::Unspecified => 0,
            FlexVisibility::Visible => 1,
            FlexVisibility::Hidden => 2,
        }
    }

    /// The value encoded on the wire by `value`, if any.
    pub open spec fn spec_from_i32(value: i32) -> Option<FlexVisibility> {
        if value == 0 {
            Some(FlexVisibility::Unspecified)
        } else if value == 1 {
            Some(FlexVisibility::Visible)
        } else if value == 2 {
            Some(FlexVisibility::Hidden)
        } else {
            None
        }
    }

    /// String value of the enum field names used in the protocol definition.
    pub fn as_str_name(&self) -> (name: &'static str)
        ensures
            name@ == self.spec_name(),
    {
        match self {
            FlexVisibility::Unspecified => "FLEX_VISIBILITY_UNSPECIFIED",
            FlexVisibility::Visible => "FLEX_VISIBILITY_VISIBLE",
            FlexVisibility::Hidden => "FLEX_VISIBILITY_HIDDEN",
        }
    }

    /// Creates a value from a field name used in the protocol definition.
    pub fn from_str_name(value: &str) -> (res: Option<FlexVisibility>)
        ensures
            res == FlexVisibility::spec_from_name(value@),
    {
        if str_eq(value, "FLEX_VISIBILITY_UNSPECIFIED") {
            Some(FlexVisibility::Unspecified)
        } else if str_eq(value, "FLEX_VISIBILITY_VISIBLE") {
            Some(FlexVisibility::Visible)
        } else if str_eq(value, "FLEX_VISIBILITY_HIDDEN") {
            Some(FlexVisibility::Hidden)
        } else {
            None
        }
    }

    /// Decodes a wire number, returning `None` for numbers that name no value.
    pub fn from_i32(value: i32) -> (res: Option<FlexVisibility>)
        ensures
            res == FlexVisibility::spec_from_i32(value),
    {
        match value {
            0 => Some(FlexVisibility::Unspecified),
            1 => Some(FlexVisibility::Visible),
            2 => Some(FlexVisibility::Hidden),
            _ => None,
        }
    }

    /// Whether `value` is the wire number of some value.
    pub fn is_valid(value: i32) -> (res: bool)
        ensures
            res == FlexVisibility::spec_from_i32(value).is_some(),
    {
        FlexVisibility::from_i32(value).is_some()
    }

    /// A value's field name and wire number each decode back to that value,
    /// and no other field name or number decodes to it.
    pub proof fn lemma_round_trip(self)
        ensures
            FlexVisibility::spec_from_name(self.spec_name()) == Some(self),
            FlexVisibility::spec_from_i32(self.spec_value()) == Some(self),
            forall|name: Seq<char>|
                #[trigger] FlexVisibility::spec_from_name(name) == Some(self) ==> name == self.spec_name(),
            forall|value: i32|
                #[trigger] FlexVisibility::spec_from_i32(value) == Some(self) ==> value == self.spec_value(),
    {
        reveal_strlit("FLEX_VISIBILITY_UNSPECIFIED");
        reveal_strlit("FLEX_VISIBILITY_VISIBLE");
        reveal_strlit("FLEX_VISIBILITY_HIDDEN");
        assert("FLEX_VISIBILITY_UNSPECIFIED"@.len() == 27);
        assert("FLEX_VISIBILITY_VISIBLE"@.len() == 23);
        assert("FLEX_VISIBILITY_HIDDEN"@.len() == 22);
        match self {
            FlexVisibility::Unspecified => {},
            FlexVisibility::Visible => {},
            FlexVisibility::Hidden => {},
        }
    }
}

impl Default for FlexVisibility {
    /// The value with wire number zero.
    fn default() -> (res: FlexVisibility)
        ensures
            res == FlexVisibility::Unspecified,
    {
        FlexVisibility::Unspecified
    }
}

impl From<FlexVisibility> for i32 {
    fn from(value: FlexVisibility) -> (res: i32) {
        match value {
            FlexVisibility::Unspecified => 0,
            FlexVisibility::Visible => 1,
            FlexVisibility::Hidden => 2,
        }
    }
}

impl FromSpecImpl<FlexVisibility> for i32 {
    open spec fn obeys_from_spec() -> bool {
        true
    }

    open spec fn from_spec(value: FlexVisibility) -> i32 {
        value.spec_value()
    }
}

/// Wire enumeration `DimensionUnit` of the client protocol.
#[derive(Clone, Copy, Debug, PartialEq, Eq, Structural, Hash, PartialOrd, Ord)]
pub enum DimensionUnit {
    Unspecified,
    /// Measurement in Pixels.
    /// This is Unity density-independent pixels, not real physical pixels.
    Pixels,
    /// Percentage of parent container
    Percentage,
    /// Units relative to 1% of the screen width
    ViewportWidth,
    /// Units relative to 1% of the screen height
    ViewportHeight,
    /// Units relative to 100% of the size of the safe area top inset
    SafeAreaTop,
    /// Units relative to 100% of the size of the safe area right inset
    SafeAreaRight,
    /// Units relative to 100% of the size of the safe area bottom inset
    SafeAreaBottom,
    /// Units relative to 100% of the size of the safe area left inset
    SafeAreaLeft,
}

impl DimensionUnit {
    /// The field name of this value in the protocol definition.
    pub open spec fn spec_name(self) -> Seq<char> {
        match self {
            DimensionUnit::Unspecified => "DIMENSION_UNIT_UNSPECIFIED"@,
            DimensionUnit::Pixels => "DIMENSION_UNIT_PIXELS"@,
            DimensionUnit::Percentage => "DIMENSION_UNIT_PERCENTAGE"@,
            DimensionUnit::ViewportWidth => "DIMENSION_UNIT_VIEWPORT_WIDTH"@,
            DimensionUnit::ViewportHeight => "DIMENSION_UNIT_VIEWPORT_HEIGHT"@,
            DimensionUnit::SafeAreaTop => "DIMENSION_UNIT_SAFE_AREA_TOP"@,
            DimensionUnit::SafeAreaRight => "DIMENSION_UNIT_SAFE_AREA_RIGHT"@,
            DimensionUnit::SafeAreaBottom => "DIMENSION_UNIT_SAFE_AREA_BOTTOM"@,
            DimensionUnit::SafeAreaLeft => "DIMENSION_UNIT_SAFE_AREA_LEFT"@,
        }
    }

    /// The value decoded from a protocol field name, if it names one.
    pub open spec fn spec_from_name(name: Seq<char>) -> Option<DimensionUnit> {
        if name == "DIMENSION_UNIT_UNSPECIFIED"@ {
            Some(DimensionUnit::Unspecified)
        } else if name == "DIMENSION_UNIT_PIXELS"@ {
            Some(DimensionUnit::Pixels)
        } else if name == "DIMENSION_UNIT_PERCENTAGE"@ {
            Some(DimensionUnit::Percentage)
        } else if name == "DIMENSION_UNIT_VIEWPORT_WIDTH"@ {
            Some(DimensionUnit::ViewportWidth)
        } else if name == "DIMENSION_UNIT_VIEWPORT_HEIGHT"@ {
            Some(DimensionUnit::ViewportHeight)
        } else if name == "DIMENSION_UNIT_SAFE_AREA_TOP"@ {
            Some(DimensionUnit::SafeAreaTop)
        } else if name == "DIMENSION_UNIT_SAFE_AREA_RIGHT"@ {
            Some(DimensionUnit::SafeAreaRight)
        } else if name == "DIMENSION_UNIT_SAFE_AREA_BOTTOM"@ {
            Some(DimensionUnit::SafeAreaBottom)
        } else if name == "DIMENSION_UNIT_SAFE_AREA_LEFT"@ {
            Some(DimensionUnit::SafeAreaLeft)
        } else {
            None
        }
    }

    /// The number by which this value is encoded on the wire.
    pub open spec fn spec_value(self) -> i32 {
        match self {
            DimensionUnit::Unspecified => 0,
            DimensionUnit::Pixels => 1,
            DimensionUnit::Percentage => 2,
            DimensionUnit::ViewportWidth => 3,
            DimensionUnit::ViewportHeight => 4,
            DimensionUnit::SafeAreaTop => 5,
            DimensionUnit::SafeAreaRight => 6,
            DimensionUnit::SafeAreaBottom => 7,
            DimensionUnit::SafeAreaLeft => 8,
        }
    }

    /// The value encoded on the wire by `value`, if any.
    pub open spec fn spec_from_i32(value: i32) -> Option<DimensionUnit> {
        if value == 0 {
            Some(DimensionUnit::Unspecified)
        } else if value == 1 {
            Some(DimensionUnit::Pixels)
        } else if value == 2 {
            Some(DimensionUnit::Percentage)
        } else if value == 3 {
            Some(DimensionUnit::ViewportWidth)
        } else if value == 4 {
            Some(DimensionUnit::ViewportHeight)
        } else if value == 5 {
            Some(DimensionUnit::SafeAreaTop)
        } else if value == 6 {
            Some(DimensionUnit::SafeAreaRight)
        } else if value == 7 {
            Some(DimensionUnit::SafeAreaBottom)
        } else if value == 8 {
            Some(DimensionUnit::SafeAreaLeft)
        } else {
            None
        }
    }

    /// String value of the enum field names used in the protocol definition.
    pub fn as_str_name(&self) -> (name: &'static str)
        ensures
            name@ == self.spec_name(),
    {
        match self {
            DimensionUnit::Unspecified => "DIMENSION_UNIT_UNSPECIFIED",
            DimensionUnit::Pixels => "DIMENSION_UNIT_PIXELS",
            DimensionUnit::Percentage => "DIMENSION_UNIT_PERCENTAGE",
            DimensionUnit::ViewportWidth => "DIMENSION_UNIT_VIEWPORT_WIDTH",
            DimensionUnit::ViewportHeight => "DIMENSION_UNIT_VIEWPORT_HEIGHT",
            DimensionUnit::SafeAreaTop => "DIMENSION_UNIT_SAFE_AREA_TOP",
            DimensionUnit::SafeAreaRight => "DIMENSION_UNIT_SAFE_AREA_RIGHT",
            DimensionUnit::SafeAreaBottom => "DIMENSION_UNIT_SAFE_AREA_BOTTOM",
            DimensionUnit::SafeAreaLeft => "DIMENSION_UNIT_SAFE_AREA_LEFT",
        }
    }

    /// Creates a value from a field name used in the protocol definition.
    pub fn from_str_name(value: &str) -> (res: Option<DimensionUnit>)
        ensures
            res == DimensionUnit::spec_from_name(value@),
    {
        if str_eq(value, "DIMENSION_UNIT_UNSPECIFIED") {
            Some(DimensionUnit::Unspecified)
        } else if str_eq(value, "DIMENSION_UNIT_PIXELS") {
            Some(DimensionUnit::Pixels)
        } else if str_eq(value, "DIMENSION_UNIT_PERCENTAGE") {
            Some(DimensionUnit::Percentage)
        } else if str_eq(value, "DIMENSION_UNIT_VIEWPORT_WIDTH") {
            Some(DimensionUnit::ViewportWidth)
        } else if str_eq(value, "DIMENSION_UNIT_VIEWPORT_HEIGHT") {
            Some(DimensionUnit::ViewportHeight)
        } else if str_eq(value, "DIMENSION_UNIT_SAFE_AREA_TOP") {
            Some(DimensionUnit::SafeAreaTop)
        } else if str_eq(value, "DIMENSION_UNIT_SAFE_AREA_RIGHT") {
            Some(DimensionUnit::SafeAreaRight)
        } else if str_eq(value, "DIMENSION_UNIT_SAFE_AREA_BOTTOM") {
            Some(DimensionUnit::SafeAreaBottom)
        } else if str_eq(value, "DIMENSION_UNIT_SAFE_AREA_LEFT") {
            Some(DimensionUnit::SafeAreaLeft)
        } else {
            None
        }
    }

    /// Decodes a wire number, returning `None` for numbers that name no value.
    pub fn from_i32(value: i32) -> (res: Option<DimensionUnit>)
        ensures
            res == DimensionUnit::spec_from_i32(value),
    {
        match value {
            0 => Some(DimensionUnit::Unspecified),
            1 => Some(DimensionUnit::Pixels),
            2 => Some(DimensionUnit::Percentage),
            3 => Some(DimensionUnit::ViewportWidth),
            4 => Some(DimensionUnit::ViewportHeight),
            5 => Some(DimensionUnit::SafeAreaTop),
            6 => Some(DimensionUnit::SafeAreaRight),
            7 => Some(DimensionUnit::SafeAreaBottom),
            8 => Some(DimensionUnit::SafeAreaLeft),
            _ => None,
        }
    }

    /// Whether `value` is the wire number of some value.
    pub fn is_valid(value: i32) -> (res: bool)
        ensures
            res == DimensionUnit::spec_from_i32(value).is_some(),
    {
        DimensionUnit::from_i32(value).is_some()
    }

    /// A value's field name and wire number each decode back to that value,
    /// and no other field name or number decodes to it.
    pub proof fn lemma_round_trip(self)
        ensures
            DimensionUnit::spec_from_name(self.spec_name()) == Some(self),
            DimensionUnit::spec_from_i32(self.spec_value()) == Some(self),
            forall|name: Seq<char>|
                #[trigger] DimensionUnit::spec_from_name(name) == Some(self) ==> name == self.spec_name(),
            forall|value: i32|
                #[trigger] DimensionUnit::spec_from_i32(value) == Some(self) ==> value == self.spec_value(),
    {
        reveal_strlit("DIMENSION_UNIT_UNSPECIFIED");
        reveal_strlit("DIMENSION_UNIT_PIXELS");
        reveal_strlit("DIMENSION_UNIT_PERCENTAGE");
        reveal_strlit("DIMENSION_UNIT_VIEWPORT_WIDTH");
        reveal_strlit("DIMENSION_UNIT_VIEWPORT_HEIGHT");
        reveal_strlit("DIMENSION_UNIT_SAFE_AREA_TOP");
        reveal_strlit("DIMENSION_UNIT_SAFE_AREA_RIGHT");
        reveal_strlit("DIMENSION_UNIT_SAFE_AREA_BOTTOM");
        reveal_strlit("DIMENSION_UNIT_SAFE_AREA_LEFT");
        assert("DIMENSION_UNIT_UNSPECIFIED"@.len() == 26);
        assert("DIMENSION_UNIT_PIXELS"@.len() == 21);
        assert("DIMENSION_UNIT_PERCENTAGE"@.len() == 25);
        assert("DIMENSION_UNIT_VIEWPORT_WIDTH"@.len() == 29);
        assert("DIMENSION_UNIT_VIEWPORT_HEIGHT"@.len() == 30);
        assert("DIMENSION_UNIT_SAFE_AREA_TOP"@.len() == 28);
        assert("DIMENSION_UNIT_SAFE_AREA_RIGHT"@.len() == 30);
        assert("DIMENSION_UNIT_SAFE_AREA_BOTTOM"@.len() == 31);
        assert("DIMENSION_UNIT_SAFE_AREA_LEFT"@.len() == 29);
        assert("DIMENSION_UNIT_VIEWPORT_WIDTH"@[15] != "DIMENSION_UNIT_SAFE_AREA_LEFT"@[15]);
        assert("DIMENSION_UNIT_VIEWPORT_HEIGHT"@[15] != "DIMENSION_UNIT_SAFE_AREA_RIGHT"@[15]);
        match self {
            DimensionUnit::Unspecified => {},
            DimensionUnit::Pixels => {},
            DimensionUnit::Percentage => {},
            DimensionUnit::ViewportWidth => {},
            DimensionUnit::ViewportHeight => {},
            DimensionUnit::SafeAreaTop => {},
            DimensionUnit::SafeAreaRight => {},
            DimensionUnit::SafeAreaBottom => {},
            DimensionUnit::SafeAreaLeft => {},
        }
    }
}

impl Default for DimensionUnit {
    /// The value with wire number zero.
    fn default() -> (res: DimensionUnit)
        ensures
            res == DimensionUnit::Unspecified,
    {
        DimensionUnit::Unspecified
    }
}

impl From<DimensionUnit> for i32 {
    fn from(value: DimensionUnit) -> (res: i32) {
        match value {
            DimensionUnit::Unspecified => 0,
            DimensionUnit::Pixels => 1,
            DimensionUnit::Percentage => 2,
            DimensionUnit::ViewportWidth => 3,
            DimensionUnit::ViewportHeight => 4,
            DimensionUnit::SafeAreaTop => 5,
            DimensionUnit::SafeAreaRight => 6,
            DimensionUnit::SafeAreaBottom => 7,
            DimensionUnit::SafeAreaLeft => 8,
        }
    }
}

impl FromSpecImpl<DimensionUnit> for i32 {
    open spec fn obeys_from_spec() -> bool {
        true
    }

    open spec fn from_spec(value: DimensionUnit) -> i32 {
        value.spec_value()
    }
}

/// Controls whether elements respond to interface events.
#[derive(Clone, Copy, Debug, PartialEq, Eq, Structural, Hash, PartialOrd, Ord)]
pub enum FlexPickingMode {
    /// Unspecified, currently identical to 'position'.
    Unspecified,
    /// Picking enabled, events will be recognized.
    Position,
    /// Picking disabled, events ignored.
    Ignore,
}

impl FlexPickingMode {
    /// The field name of this value in the protocol definition.
    pub open spec fn spec_name(self) -> Seq<char> {
        match self {
            FlexPickingMode::Unspecified => "FLEX_PICKING_MODE_UNSPECIFIED"@,
            FlexPickingMode::Position => "FLEX_PICKING_MODE_POSITION"@,
            FlexPickingMode::Ignore => "FLEX_PICKING_MODE_IGNORE"@,
        }
    }

    /// The value decoded from a protocol field name, if it names one.
    pub open spec fn spec_from_name(name: Seq<char>) -> Option<FlexPickingMode> {
        if name == "FLEX_PICKING_MODE_UNSPECIFIED"@ {
            Some(FlexPickingMode::Unspecified)
        } else if name == "FLEX_PICKING_MODE_POSITION"@ {
            Some(FlexPickingMode::Position)
        } else if name == "FLEX_PICKING_MODE_IGNORE"@ {
            Some(FlexPickingMode::Ignore)
        } else {
            None
        }
    }

    /// The number by which this value is encoded on the wire.
    pub open spec fn spec_value(self) -> i32 {
        match self {
            FlexPickingMode::Unspecified => 0,
            FlexPickingMode::Position => 1,
            FlexPickingMode::Ignore => 2,
        }
    }

    /// The value encoded on the wire by `value`, if any.
    pub open spec fn spec_from_i32(value: i32) -> Option<FlexPickingMode> {
        if value == 0 {
            Some(FlexPickingMode::Unspecified)
        } else if value == 1 {
            Some(FlexPickingMode::Position)
        } else if value == 2 {
            Some(FlexPickingMode::Ignore)
        } else {
            None
        }
    }

    /// String value of the enum field names used in the protocol definition.
    pub fn as_str_name(&self) -> (name: &'static str)
        ensures
            name@ == self.spec_name(),
    {
        match self {
            FlexPickingMode::Unspecified => "FLEX_PICKING_MODE_UNSPECIFIED",
            FlexPickingMode::Position => "FLEX_PICKING_MODE_POSITION",
            FlexPickingMode::Ignore => "FLEX_PICKING_MODE_IGNORE",
        }
    }

    /// Creates a value from a field name used in the protocol definition.
    pub fn from_str_name(value: &str) -> (res: Option<FlexPickingMode>)
        ensures
            res == FlexPickingMode::spec_from_name(value@),
    {
        if str_eq(value, "FLEX_PICKING_MODE_UNSPECIFIED") {
            Some(FlexPickingMode::Unspecified)
        } else if str_eq(value, "FLEX_PICKING_MODE_POSITION") {
            Some(FlexPickingMode::Position)
        } else if str_eq(value, "FLEX_PICKING_MODE_IGNORE") {
            Some(FlexPickingMode::Ignore)
        } else {
            None
        }
    }

    /// Decodes a wire number, returning `None` for numbers that name no value.
    pub fn from_i32(value: i32) -> (res: Option<FlexPickingMode>)
        ensures
            res == FlexPickingMode::spec_from_i32(value),
    {
        match value {
            0 => Some(FlexPickingMode::Unspecified),
            1 => Some(FlexPickingMode::Position),
            2 => Some(FlexPickingMode::Ignore),
            _ => None,
        }
    }

    /// Whether `value` is the wire number of some value.
    pub fn is_valid(value: i32) -> (res: bool)
        ensures
            res == FlexPickingMode::spec_from_i32(value).is_some(),
    {
        FlexPickingMode::from_i32(value).is_some()
    }

    /// A value's field name and wire number each decode back to that value,
    /// and no other field name or number decodes to it.
    pub proof fn lemma_round_trip(self)
        ensures
            FlexPickingMode::spec_from_name(self.spec_name()) == Some(self),
            FlexPickingMode::spec_from_i32(self.spec_value()) == Some(self),
            forall|name: Seq<char>|
                #[trigger] FlexPickingMode::spec_from_name(name) == Some(self) ==> name == self.spec_name(),
            forall|value: i32|
                #[trigger] FlexPickingMode::spec_from_i32(value) == Some(self) ==> value == self.spec_value(),
    {
        reveal_strlit("FLEX_PICKING_MODE_UNSPECIFIED");
        reveal_strlit("FLEX_PICKING_MODE_POSITION");
        reveal_strlit("FLEX_PICKING_MODE_IGNORE");
        assert("FLEX_PICKING_MODE_UNSPECIFIED"@.len() == 29);
        assert("FLEX_PICKING_MODE_POSITION"@.len() == 26);
        assert("FLEX_PICKING_MODE_IGNORE"@.len() == 24);
        match self {
            FlexPickingMode::Unspecified => {},
            FlexPickingMode::Position => {},
            FlexPickingMode::Ignore => {},
        }
    }
}

impl Default for FlexPickingMode {
    /// The value with wire number zero.
    fn default() -> (res: FlexPickingMode)
        ensures
            res == FlexPickingMode::Unspecified,
    {
        FlexPickingMode::Unspecified
    }
}

impl From<FlexPickingMode> for i32 {
    fn from(value: FlexPickingMode) -> (res: i32) {
        match value {
            FlexPickingMode::Unspecified => 0,
            FlexPickingMode::Position => 1,
            FlexPickingMode::Ignore => 2,
        }
    }
}

impl FromSpecImpl<FlexPickingMode> for i32 {
    open spec fn obeys_from_spec() -> bool {
        true
    }

    open spec fn from_spec(value: FlexPickingMode) -> i32 {
        value.spec_value()
    }
}

} // verus!
