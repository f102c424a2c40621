//! Enumerations describing scrolling and slider controls.
use vstd::prelude::*;
use vstd::std_specs::convert::FromSpecImpl;

use crate::text::str_eq;

verus! {

/// Wire enumeration `ScrollBarVisibility` of the client protocol.
#[derive(Clone, Copy, Debug, PartialEq, Eq, Structural, Hash, PartialOrd, Ord)]
pub enum ScrollBarVisibility {
    Unspecified,
    /// Displays a scroll bar only if the content does not fit in the scroll
    /// view. Otherwise, hides the scroll bar.
    Auto,
    /// The scroll bar is always visible.
    AlwaysVisible,
    /// The scroll bar is always hidden.
    Hidden,
}

impl ScrollBarVisibility {
    /// The field name of this value in the protocol definition.
    pub open spec fn spec_name(self) -> Seq<char> {
        match self {
            ScrollBarVisibility::Unspecified => "SCROLL_BAR_VISIBILITY_UNSPECIFIED"@,
            ScrollBarVisibility::Auto => "SCROLL_BAR_VISIBILITY_AUTO"@,
            ScrollBarVisibility::AlwaysVisible => "SCROLL_BAR_VISIBILITY_ALWAYS_VISIBLE"@,
            ScrollBarVisibility::Hidden => "SCROLL_BAR_VISIBILITY_HIDDEN"@,
        }
    }

    /// The value decoded from a protocol field name, if it names one.
    pub open spec fn spec_from_name(name: Seq<char>) -> Option<ScrollBarVisibility> {
        if name == "SCROLL_BAR_VISIBILITY_UNSPECIFIED"@ {
            Some(ScrollBarVisibility::Unspecified)
        } else if name == "SCROLL_BAR_VISIBILITY_AUTO"@ {
            Some(ScrollBarVisibility::Auto)
        } else if name == "SCROLL_BAR_VISIBILITY_ALWAYS_VISIBLE"@ {
            Some(ScrollBarVisibility::AlwaysVisible)
        } else if name == "SCROLL_BAR_VISIBILITY_HIDDEN"@ {
            Some(ScrollBarVisibility::Hidden)
        } else {
            None
        }
    }

    /// The number by which this value is encoded on the wire.
    pub open spec fn spec_value(self) -> i32 {
        match self {
            ScrollBarVisibility::Unspecified => 0,
            ScrollBarVisibility::Auto => 1,
            ScrollBarVisibility::AlwaysVisible => 2,
            ScrollBarVisibility::Hidden => 3,
        }
    }

    /// The value encoded on the wire by `value`, if any.
    pub open spec fn spec_from_i32(value: i32) -> Option<ScrollBarVisibility> {
        if value == 0 {
            Some(ScrollBarVisibility::Unspecified)
        } else if value == 1 {
            Some(ScrollBarVisibility::Auto)
        } else if value == 2 {
            Some(ScrollBarVisibility::AlwaysVisible)
        } else if value == 3 {
            Some(ScrollBarVisibility::Hidden)
        } else {
            None
        }
    }

    /// String value of the enum field names used in the protocol definition.
    pub fn as_str_name(&self) -> (name: &'static str)
        ensures
            name@ == self.spec_name(),
    {
        match self {
            ScrollBarVisibility::Unspecified => "SCROLL_BAR_VISIBILITY_UNSPECIFIED",
            ScrollBarVisibility::Auto => "SCROLL_BAR_VISIBILITY_AUTO",
            ScrollBarVisibility::AlwaysVisible => "SCROLL_BAR_VISIBILITY_ALWAYS_VISIBLE",
            ScrollBarVisibility::Hidden => "SCROLL_BAR_VISIBILITY_HIDDEN",
        }
    }

    /// Creates a value from a field name used in the protocol definition.
    pub fn from_str_name(value: &str) -> (res: Option<ScrollBarVisibility>)
        ensures
            res == ScrollBarVisibility::spec_from_name(value@),
    {
        if str_eq(value, "SCROLL_BAR_VISIBILITY_UNSPECIFIED") {
            Some(ScrollBarVisibility::Unspecified)
        } else if str_eq(value, "SCROLL_BAR_VISIBILITY_AUTO") {
            Some(ScrollBarVisibility::Auto)
        } else if str_eq(value, "SCROLL_BAR_VISIBILITY_ALWAYS_VISIBLE") {
            Some(ScrollBarVisibility::AlwaysVisible)
        } else if str_eq(value, "SCROLL_BAR_VISIBILITY_HIDDEN") {
            Some(ScrollBarVisibility::Hidden)
        } else {
            None
        }
    }

    /// Decodes a wire number, returning `None` for numbers that name no value.
    pub fn from_i32(value: i32) -> (res: Option<ScrollBarVisibility>)
        ensures
            res == ScrollBarVisibility::spec_from_i32(value),
    {
        match value {
            0 => Some(ScrollBarVisibility::Unspecified),
            1 => Some(ScrollBarVisibility::Auto),
            2 => Some(ScrollBarVisibility::AlwaysVisible),
            3 => Some(ScrollBarVisibility::Hidden),
            _ => None,
        }
    }

    /// Whether `value` is the wire number of some value.
    pub fn is_valid(value: i32) -> (res: bool)
        ensures
            res == ScrollBarVisibility::spec_from_i32(value).is_some(),
    {
        ScrollBarVisibility::from_i32(value).is_some()
    }

    /// A value's field name and wire number each decode back to that value,
    /// and no other field name or number decodes to it.
    pub proof fn lemma_round_trip(self)
        ensures
            ScrollBarVisibility::spec_from_name(self.spec_name()) == Some(self),
            ScrollBarVisibility::spec_from_i32(self.spec_value()) == Some(self),
            forall|name: Seq<char>|
                #[trigger] ScrollBarVisibility::spec_from_name(name) == Some(self) ==> name == self.spec_name(),
            forall|value: i32|
                #[trigger] ScrollBarVisibility::spec_from_i32(value) == Some(self) ==> value == self.spec_value(),
    {
        reveal_strlit("SCROLL_BAR_VISIBILITY_UNSPECIFIED");
        reveal_strlit("SCROLL_BAR_VISIBILITY_AUTO");
        reveal_strlit("SCROLL_BAR_VISIBILITY_ALWAYS_VISIBLE");
        reveal_strlit("SCROLL_BAR_VISIBILITY_HIDDEN");
        assert("SCROLL_BAR_VISIBILITY_UNSPECIFIED"@.len() == 33);
        assert("SCROLL_BAR_VISIBILITY_AUTO"@.len() == 26);
        assert("SCROLL_BAR_VISIBILITY_ALWAYS_VISIBLE"@.len() == 36);
        assert("SCROLL_BAR_VISIBILITY_HIDDEN"@.len() == 28);
        match self {
            ScrollBarVisibility::Unspecified => {},
            ScrollBarVisibility::Auto => {},
            ScrollBarVisibility::AlwaysVisible => {},
            ScrollBarVisibility::Hidden => {},
        }
    }
}

impl Default for ScrollBarVisibility {
    /// The value with wire number zero.
    fn default() -> (res: ScrollBarVisibility)
        ensures
            res == ScrollBarVisibility::Unspecified,
    {
        ScrollBarVisibility::Unspecified
    }
}

impl From<ScrollBarVisibility> for i32 {
    fn from(value: ScrollBarVisibility) -> (res: i32) {
        match value {
            ScrollBarVisibility::Unspecified => 0,
            ScrollBarVisibility::Auto => 1,
            ScrollBarVisibility::AlwaysVisible => 2,
            ScrollBarVisibility::Hidden => 3,
        }
    }
}

impl FromSpecImpl<ScrollBarVisibility> for i32 {
    open spec fn obeys_from_spec() -> bool {
        true
    }

    open spec fn from_spec(value: ScrollBarVisibility) -> i32 {
        value.spec_value()
    }
}

/// Wire enumeration `TouchScrollBehavior` of the client protocol.
#[derive(Clone, Copy, Debug, PartialEq, Eq, Structural, Hash, PartialOrd, Ord)]
pub enum TouchScrollBehavior {
    Unspecified,
    /// The content position can move past the ScrollView boundaries.
    Unrestricted,
    /// The content position can overshoot the ScrollView boundaries, but
    /// then "snaps" back within them.
    Elastic,
    /// The content position is clamped to the ScrollView boundaries.
    Clamped,
}

impl TouchScrollBehavior {
    /// The field name of this value in the protocol definition.
    pub open spec fn spec_name(self) -> Seq<char> {
        match self {
            TouchScrollBehavior::Unspecified => "TOUCH_SCROLL_BEHAVIOR_UNSPECIFIED"@,
            TouchScrollBehavior::Unrestricted => "TOUCH_SCROLL_BEHAVIOR_UNRESTRICTED"@,
            TouchScrollBehavior::Elastic => "TOUCH_SCROLL_BEHAVIOR_ELASTIC"@,
            TouchScrollBehavior::Clamped => "TOUCH_SCROLL_BEHAVIOR_CLAMPED"@,
        }
    }

    /// The value decoded from a protocol field name, if it names one.
    pub open spec fn spec_from_name(name: Seq<char>) -> Option<TouchScrollBehavior> {
        if name == "TOUCH_SCROLL_BEHAVIOR_UNSPECIFIED"@ {
            Some(TouchScrollBehavior::Unspecified)
        } else if name == "TOUCH_SCROLL_BEHAVIOR_UNRESTRICTED"@ {
            Some(TouchScrollBehavior::Unrestricted)
        } else if name == "TOUCH_SCROLL_BEHAVIOR_ELASTIC"@ {
            Some(TouchScrollBehavior::Elastic)
        } else if name == "TOUCH_SCROLL_BEHAVIOR_CLAMPED"@ {
            Some(TouchScrollBehavior::Clamped)
        } else {
            None
        }
    }

    /// The number by which this value is encoded on the wire.
    pub open spec fn spec_value(self) -> i32 {
        match self {
            TouchScrollBehavior::Unspecified => 0,
            TouchScrollBehavior::Unrestricted => 1,
            TouchScrollBehavior::Elastic => 2,
            TouchScrollBehavior::Clamped => 3,
        }
    }

    /// The value encoded on the wire by `value`, if any.
    pub open spec fn spec_from_i32(value: i32) -> Option<TouchScrollBehavior> {
        if value == 0 {
            Some(TouchScrollBehavior::Unspecified)
        } else if value == 1 {
            Some(TouchScrollBehavior::Unrestricted)
        } else if value == 2 {
            Some(TouchScrollBehavior::Elastic)
        } else if value == 3 {
            Some(TouchScrollBehavior::Clamped)
        } else {
            None
        }
    }

    /// String value of the enum field names used in the protocol definition.
    pub fn as_str_name(&self) -> (name: &'static str)
        ensures
            name@ == self.spec_name(),
    {
        match self {
            TouchScrollBehavior::Unspecified => "TOUCH_SCROLL_BEHAVIOR_UNSPECIFIED",
            TouchScrollBehavior::Unrestricted => "TOUCH_SCROLL_BEHAVIOR_UNRESTRICTED",
            TouchScrollBehavior::Elastic => "TOUCH_SCROLL_BEHAVIOR_ELASTIC",
            TouchScrollBehavior::Clamped => "TOUCH_SCROLL_BEHAVIOR_CLAMPED",
        }
    }

    /// Creates a value from a field name used in the protocol definition.
    pub fn from_str_name(value: &str) -> (res: Option<TouchScrollBehavior>)
        ensures
            res == TouchScrollBehavior::spec_from_name(value@),
    {
        if str_eq(value, "TOUCH_SCROLL_BEHAVIOR_UNSPECIFIED") {
            Some(TouchScrollBehavior::Unspecified)
        } else if str_eq(value, "TOUCH_SCROLL_BEHAVIOR_UNRESTRICTED") {
            Some(TouchScrollBehavior::Unrestricted)
        } else if str_eq(value, "TOUCH_SCROLL_BEHAVIOR_ELASTIC") {
            Some(TouchScrollBehavior::Elastic)
        } else if str_eq(value, "TOUCH_SCROLL_BEHAVIOR_CLAMPED") {
            Some(TouchScrollBehavior::Clamped)
        } else {
            None
        }
    }

    /// Decodes a wire number, returning `None` for numbers that name no value.
    pub fn from_i32(value: i32) -> (res: Option<TouchScrollBehavior>)
        ensures
            res == TouchScrollBehavior::spec_from_i32(value),
    {
        match value {
            0 => Some(TouchScrollBehavior::Unspecified),
            1 => Some(TouchScrollBehavior::Unrestricted),
            2 => Some(TouchScrollBehavior::Elastic),
            3 => Some(TouchScrollBehavior::Clamped),
            _ => None,
        }
    }

    /// Whether `value` is the wire number of some value.
    pub fn is_valid(value: i32) -> (res: bool)
        ensures
            res == TouchScrollBehavior::spec_from_i32(value).is_some(),
    {
        TouchScrollBehavior::from_i32(value).is_some()
    }

    /// A value's field name and wire number each decode back to that value,
    /// and no other field name or number decodes to it.
    pub proof fn lemma_round_trip(self)
        ensures
            TouchScrollBehavior::spec_from_name(self.spec_name()) == Some(self),
            TouchScrollBehavior::spec_from_i32(self.spec_value()) == Some(self),
            forall|name: Seq<char>|
                #[trigger] TouchScrollBehavior::spec_from_name(name) == Some(self) ==> name == self.spec_name(),
            forall|value: i32|
                #[trigger] TouchScrollBehavior::spec_from_i32(value) == Some(self) ==> value == self.spec_value(),
    {
        reveal_strlit("TOUCH_SCROLL_BEHAVIOR_UNSPECIFIED");
        reveal_strlit("TOUCH_SCROLL_BEHAVIOR_UNRESTRICTED");
        reveal_strlit("TOUCH_SCROLL_BEHAVIOR_ELASTIC");
        reveal_strlit("TOUCH_SCROLL_BEHAVIOR_CLAMPED");
        assert("TOUCH_SCROLL_BEHAVIOR_UNSPECIFIED"@.len() == 33);
        assert("TOUCH_SCROLL_BEHAVIOR_UNRESTRICTED"@.len() == 34);
        assert("TOUCH_SCROLL_BEHAVIOR_ELASTIC"@.len() == 29);
        assert("TOUCH_SCROLL_BEHAVIOR_CLAMPED"@.len() == 29);
        assert("TOUCH_SCROLL_BEHAVIOR_ELASTIC"@[22] != "TOUCH_SCROLL_BEHAVIOR_CLAMPED"@[22]);
        match self {
            TouchScrollBehavior::Unspecified => {},
            TouchScrollBehavior::Unrestricted => {},
            TouchScrollBehavior::Elastic => {},
            TouchScrollBehavior::Clamped => {},
        }
    }
}

impl Default for TouchScrollBehavior {
    /// The value with wire number zero.
    fn default() -> (res: TouchScrollBehavior)
        ensures
            res == TouchScrollBehavior::Unspecified,
    {
        TouchScrollBehavior::Unspecified
    }
}

impl From<TouchScrollBehavior> for i32 {
    fn from(value: TouchScrollBehavior) -> (res: i32) {
        match value {
            TouchScrollBehavior::Unspecified => 0,
            TouchScrollBehavior::Unrestricted => 1,
            TouchScrollBehavior::Elastic => 2,
            TouchScrollBehavior::Clamped => 3,
        }
    }
}

impl FromSpecImpl<TouchScrollBehavior> for i32 {
    open spec fn obeys_from_spec() -> bool {
        true
    }

    open spec fn from_spec(value: TouchScrollBehavior) -> i32 {
        value.spec_value()
    }
}

/// Wire enumeration `SliderDirection` of the client protocol.
#[derive(Clone, Copy, Debug, PartialEq, Eq, Structural, Hash, PartialOrd, Ord)]
pub enum SliderDirection {
    Unspecified,
    Horizontal,
    Vertical,
}

impl SliderDirection {
    /// The field name of this value in the protocol definition.
    pub open spec fn spec_name(self) -> Seq<char> {
        match self {
            SliderDirection::Unspecified => "SLIDER_DIRECTION_UNSPECIFIED"@,
            SliderDirection::Horizontal => "SLIDER_DIRECTION_HORIZONTAL"@,
            SliderDirection::Vertical => "SLIDER_DIRECTION_VERTICAL"@,
        }
    }

    /// The value decoded from a protocol field name, if it names one.
    pub open spec fn spec_from_name(name: Seq<char>) -> Option<SliderDirection> {
        if name == "SLIDER_DIRECTION_UNSPECIFIED"@ {
            Some(SliderDirection::Unspecified)
        } else if name == "SLIDER_DIRECTION_HORIZONTAL"@ {
            Some(SliderDirection::Horizontal)
        } else if name == "SLIDER_DIRECTION_VERTICAL"@ {
            Some(SliderDirection::Vertical)
        } else {
            None
        }
    }

    /// The number by which this value is encoded on the wire.
    pub open spec fn spec_value(self) -> i32 {
        match self {
            SliderDirection::Unspecified => 0,
            SliderDirection::Horizontal => 1,
            SliderDirection::Vertical => 2,
        }
    }

    /// The value encoded on the wire by `value`, if any.
    pub open spec fn spec_from_i32(value: i32) -> Option<SliderDirection> {
        if value == 0 {
            Some(SliderDirection::Unspecified)
        } else if value == 1 {
            Some(SliderDirection::Horizontal)
        } else if value == 2 {
            Some(SliderDirection::Vertical)
        } else {
            None
        }
    }

    /// String value of the enum field names used in the protocol definition.
    pub fn as_str_name(&self) -> (name: &'static str)
        ensures
            name@ == self.spec_name(),
    {
        match self {
            SliderDirection::Unspecified => "SLIDER_DIRECTION_UNSPECIFIED",
            SliderDirection::Horizontal => "SLIDER_DIRECTION_HORIZONTAL",
            SliderDirection::Vertical => "SLIDER_DIRECTION_VERTICAL",
        }
    }

    /// Creates a value from a field name used in the protocol definition.
    pub fn from_str_name(value: &str) -> (res: Option<SliderDirection>)
        ensures
            res == SliderDirection::spec_from_name(value@),
    {
        if str_eq(value, "SLIDER_DIRECTION_UNSPECIFIED") {
            Some(SliderDirection::Unspecified)
        } else if str_eq(value, "SLIDER_DIRECTION_HORIZONTAL") {
            Some(SliderDirection::Horizontal)
        } else if str_eq(value, "SLIDER_DIRECTION_VERTICAL") {
            Some(SliderDirection::Vertical)
        } else {
            None
        }
    }

    /// Decodes a wire number, returning `None` for numbers that name no value.
    pub fn from_i32(value: i32) -> (res: Option<SliderDirection>)
        ensures
            res == SliderDirection::spec_from_i32(value),
    {
        match value {
            0 => Some(SliderDirection::Unspecified),
            1 => Some(SliderDirection::Horizontal),
            2 => Some(SliderDirection::Vertical),
            _ => None,
        }
    }

    /// Whether `value` is the wire number of some value.
    pub fn is_valid(value: i32) -> (res: bool)
        ensures
            res == SliderDirection::spec_from_i32(value).is_some(),
    {
        SliderDirection::from_i32(value).is_some()
    }

    /// A value's field name and wire number each decode back to that value,
    /// and no other field name or number decodes to it.
    pub proof fn lemma_round_trip(self)
        ensures
            SliderDirection::spec_from_name(self.spec_name()) == Some(self),
            SliderDirection::spec_from_i32(self.spec_value()) == Some(self),
            forall|name: Seq<char>|
                #[trigger] SliderDirection::spec_from_name(name) == Some(self) ==> name == self.spec_name(),
            forall|value: i32|
                #[trigger] SliderDirection::spec_from_i32(value) == Some(self) ==> value == self.spec_value(),
    {
        reveal_strlit("SLIDER_DIRECTION_UNSPECIFIED");
        reveal_strlit("SLIDER_DIRECTION_HORIZONTAL");
        reveal_strlit("SLIDER_DIRECTION_VERTICAL");
        assert("SLIDER_DIRECTION_UNSPECIFIED"@.len() == 28);
        assert("SLIDER_DIRECTION_HORIZONTAL"@.len() == 27);
        assert("SLIDER_DIRECTION_VERTICAL"@.len() == 25);
        match self {
            SliderDirection::Unspecified => {},
            SliderDirection::Horizontal => {},
            SliderDirection::Vertical => {},
        }
    }
}

impl Default for SliderDirection {
    /// The value with wire number zero.
    fn default() -> (res: SliderDirection)
        ensures
            res == SliderDirection::Unspecified,
    {
        SliderDirection::Unspecified
    }
}

impl From<SliderDirection> for i32 {
    fn from(value: SliderDirection) -> (res: i32) {
        match value {
            SliderDirection::Unspecified => 0,
            SliderDirection::Horizontal => 1,
            SliderDirection::Vertical => 2,
        }
    }
}

impl FromSpecImpl<SliderDirection> for i32 {
    open spec fn obeys_from_spec() -> bool {
        true
    }

    open spec fn from_spec(value: SliderDirection) -> i32 {
        value.spec_value()
    }
}

} // verus!
